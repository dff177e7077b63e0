//! Branch-prediction hints of `likely_stable`.
use vstd::prelude::*;

verus! {

/// Relies on `likely_stable::likely`: returns its argument, marking it as probably true.
#[verifier::external_body]
pub(crate) fn likely(b: bool) -> (r: bool)
    ensures
        r == b,
{
    likely_stable::likely(b)
}

/// Relies on `likely_stable::unlikely`: returns its argument, marking it as probably false.
#[verifier::external_body]
pub(crate) fn unlikely(b: bool) -> (r: bool)
    ensures
        r == b,
{
    likely_stable::unlikely(b)
}

} // verus!
