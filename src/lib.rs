//! Unsigned integers that widen their storage on demand: a 64-bit word, a
//! 128-bit word, or an arbitrary-precision value.
use num_bigint::BigUint;
use std::ops::{Add, AddAssign, Mul, MulAssign};
use vstd::prelude::*;

pub mod bignum;
mod hint;
pub mod laws;
pub mod util;

use bignum::big_value;

verus! {

/// An unsigned integer stored in one of three tiers of increasing width.
///
/// Values built by `From` are stored in the narrowest tier that holds them.
/// Arithmetic never narrows: its result is in the narrowest tier that holds it
/// and is at least as wide as both operands. Equality compares tier and
/// payload, so equal numbers in different tiers are not equal values.
#[derive(Debug, PartialEq, PartialOrd)]
pub enum CHANGEME {
    /// A number below `2^64`.
    Small(u64),
    /// A number below `2^128`.
    Medium(u128),
    /// A number of any size.
    Large(BigUint),
}

/// The tier number of `Small`; wider tiers have larger numbers.
pub open spec fn tier_small() -> nat {
    0
}

/// The tier number of `Medium`.
pub open spec fn tier_medium() -> nat {
    1
}

/// The tier number of `Large`.
pub open spec fn tier_large() -> nat {
    2
}

/// The narrowest tier, no narrower than `floor`, whose storage holds `v`.
pub open spec fn tier_for(v: nat, floor: nat) -> nat {
    if floor == tier_small() && v <= u64::MAX {
        tier_small()
    } else if floor <= tier_medium() && v <= u128::MAX {
        tier_medium()
    } else {
        tier_large()
    }
}

/// The larger of two tiers.
pub open spec fn wider(a: nat, b: nat) -> nat {
    if a <= b {
        b
    } else {
        a
    }
}

impl CHANGEME {
    /// The number this value stands for, whatever its tier.
    pub open spec fn value(self) -> nat {
        match self {
            CHANGEME::Small(a) => a as nat,
            CHANGEME::Medium(a) => a as nat,
            CHANGEME::Large(b) => big_value(b),
        }
    }

    /// The tier in which the value is stored.
    pub open spec fn tier(self) -> nat {
        match self {
            CHANGEME::Small(_) => tier_small(),
            CHANGEME::Medium(_) => tier_medium(),
            CHANGEME::Large(_) => tier_large(),
        }
    }

    /// Stored in the narrowest tier that holds the value.
    pub open spec fn is_canonical(self) -> bool {
        self.tier() == tier_for(self.value(), tier_small())
    }

    /// `self` holds the number `v` in the tier that arithmetic on operands of
    /// tiers `ta` and `tb` produces: the narrowest tier that holds `v` and is
    /// no narrower than either operand.
    pub open spec fn is_result(self, v: nat, ta: nat, tb: nat) -> bool {
        &&& self.value() == v
        &&& self.tier() == tier_for(v, wider(ta, tb))
    }

    /// `self` is the sum of `a` and `b`, in the tier that addition gives.
    pub open spec fn is_sum_of(self, a: CHANGEME, b: CHANGEME) -> bool {
        self.is_result(a.value() + b.value(), a.tier(), b.tier())
    }

    /// `self` is the product of `a` and `b`, in the tier that multiplication gives.
    pub open spec fn is_product_of(self, a: CHANGEME, b: CHANGEME) -> bool {
        self.is_result(a.value() * b.value(), a.tier(), b.tier())
    }
}

impl CHANGEME {
    /// The exact sum, in the tier that the pair of operand tiers leads to.
    pub fn compute_sum(&self, other: &CHANGEME) -> (r: CHANGEME)
        ensures
            r.is_sum_of(*self, *other),
    {
        match (self, other) {
            (CHANGEME::Small(a), CHANGEME::Small(b)) => util::add_small(*a, *b),
            (CHANGEME::Small(a), CHANGEME::Medium(b)) => util::add_medium(*a as u128, *b),
            (CHANGEME::Medium(a), CHANGEME::Small(b)) => util::add_medium(*a, *b as u128),
            (CHANGEME::Medium(a), CHANGEME::Medium(b)) => util::add_medium(*a, *b),
            (CHANGEME::Small(a), CHANGEME::Large(b)) => util::add_large_and_small(b, *a),
            (CHANGEME::Large(a), CHANGEME::Small(b)) => util::add_large_and_small(a, *b),
            (CHANGEME::Medium(a), CHANGEME::Large(b)) => util::add_large_and_medium(b, *a),
            (CHANGEME::Large(a), CHANGEME::Medium(b)) => util::add_large_and_medium(a, *b),
            (CHANGEME::Large(a), CHANGEME::Large(b)) => util::add_large(a, b),
        }
    }

    /// The exact product, in the tier that the pair of operand tiers leads to.
    pub fn compute_product(&self, other: &CHANGEME) -> (r: CHANGEME)
        ensures
            r.is_product_of(*self, *other),
    {
        match (self, other) {
            (CHANGEME::Small(a), CHANGEME::Small(b)) => util::mul_small(*a, *b),
            (CHANGEME::Small(a), CHANGEME::Medium(b)) => util::mul_medium(*a as u128, *b),
            (CHANGEME::Medium(a), CHANGEME::Small(b)) => util::mul_medium(*a, *b as u128),
            (CHANGEME::Medium(a), CHANGEME::Medium(b)) => util::mul_medium(*a, *b),
            (CHANGEME::Small(a), CHANGEME::Large(b)) => {
                let r = util::mul_large_and_small(b, *a);
                proof {
                    vstd::arithmetic::mul::lemma_mul_is_commutative(*a as int, big_value(*b) as int);
                }
                r
            },
            (CHANGEME::Large(a), CHANGEME::Small(b)) => util::mul_large_and_small(a, *b),
            (CHANGEME::Medium(a), CHANGEME::Large(b)) => {
                let r = util::mul_large_and_medium(b, *a);
                proof {
                    vstd::arithmetic::mul::lemma_mul_is_commutative(*a as int, big_value(*b) as int);
                }
                r
            },
            (CHANGEME::Large(a), CHANGEME::Medium(b)) => util::mul_large_and_medium(a, *b),
            (CHANGEME::Large(a), CHANGEME::Large(b)) => util::mul_large(a, b),
        }
    }

    /// Adds `other` into `self`. A `Large` receiver is updated in place;
    /// any other is replaced by the sum.
    pub fn incr_by(&mut self, other: &CHANGEME)
        ensures
            final(self).is_sum_of(*old(self), *other),
    {
        if let CHANGEME::Large(s) = self {
            match other {
                CHANGEME::Large(o) => bignum::big_add_assign(s, o),
                CHANGEME::Medium(o) => bignum::big_add_assign(s, &bignum::big_from_u128(*o)),
                CHANGEME::Small(o) => bignum::big_add_assign(s, &bignum::big_from_u64(*o)),
            }
        } else {
            *self = self.compute_sum(other);
        }
    }

    /// Multiplies `self` by `other`. A `Large` receiver is updated in place;
    /// any other is replaced by the product.
    pub fn mul_by(&mut self, other: &CHANGEME)
        ensures
            final(self).is_product_of(*old(self), *other),
    {
        if let CHANGEME::Large(s) = self {
            match other {
                CHANGEME::Large(o) => bignum::big_mul_assign(s, o),
                CHANGEME::Medium(o) => bignum::big_mul_assign(s, &bignum::big_from_u128(*o)),
                CHANGEME::Small(o) => bignum::big_mul_assign(s, &bignum::big_from_u64(*o)),
            }
        } else {
            *self = self.compute_product(other);
        }
    }
}

/// The canonical value for a number below `2^128`: `Small` when it fits in
/// 64 bits, else `Medium`.
pub open spec fn canonical_of(v: u128) -> CHANGEME {
    if v <= u64::MAX {
        CHANGEME::Small(v as u64)
    } else {
        CHANGEME::Medium(v)
    }
}

/// The canonical value for an arbitrary-precision number.
pub open spec fn canonical_of_big(b: BigUint) -> CHANGEME {
    if big_value(b) <= u128::MAX {
        canonical_of(big_value(b) as u128)
    } else {
        CHANGEME::Large(b)
    }
}

/// Placing digit `i` of a 32-bit digit string (`i < 4`) above the lower ones:
/// the OR is the sum.
proof fn lemma_place_digit(res: u128, d: u128, i: nat)
    requires
        i < 4,
        d <= 0xffff_ffff,
        res < bignum::digit_weight(i),
    ensures
        res | (d << (32 * i) as u128) == res + d * bignum::digit_weight(i),
{
    reveal_with_fuel(bignum::digit_weight, 5);
    if i == 0 {
        assert(res | (d << 0u128) == res + d) by (bit_vector)
            requires
                res < 1,
                d <= 0xffff_ffff,
        ;
    } else if i == 1 {
        assert(res | (d << 32u128) == res + d * 0x1_0000_0000) by (bit_vector)
            requires
                res < 0x1_0000_0000,
                d <= 0xffff_ffff,
        ;
    } else if i == 2 {
        assert(res | (d << 64u128) == res + d * 0x1_0000_0000_0000_0000) by (bit_vector)
            requires
                res < 0x1_0000_0000_0000_0000,
                d <= 0xffff_ffff,
        ;
    } else {
        assert(res | (d << 96u128) == res + d * 0x1_0000_0000_0000_0000_0000_0000) by (bit_vector)
            requires
                res < 0x1_0000_0000_0000_0000_0000_0000,
                d <= 0xffff_ffff,
        ;
    }
}

/// The number as a 128-bit word, when it fits in one, reassembled from its
/// 32-bit digits.
fn fit_u128(value: &BigUint) -> (r: Option<u128>)
    ensures
        r == (if big_value(*value) <= u128::MAX {
            Some(big_value(*value) as u128)
        } else {
            None::<u128>
        }),
{
    if !bignum::big_le(value, &bignum::big_from_u128(u128::MAX)) {
        return None;
    }
    let digits = bignum::big_to_u32_digits(value);
    let mut res: u128 = 0;
    let mut shift: u128 = 0;
    let mut i: usize = 0;
    while i < digits.len()
        invariant
            i <= digits.len(),
            shift == 32 * i,
            bignum::digits_value(digits@) == big_value(*value) <= u128::MAX,
            res == bignum::digits_value(digits@.take(i as int)),
        decreases digits.len() - i,
    {
        let digit = digits[i];
        proof {
            bignum::lemma_digits_prefix_step(digits@, i as int);
            bignum::lemma_digits_prefix_bound(digits@, i as int);
        }
        // Past the fourth digit every digit is zero, as the number is below
        // `2^128`; only the low four take part.
        if shift < 128 {
            proof {
                lemma_place_digit(res, digit as u128, i as nat);
            }
            res |= (digit as u128) << shift;
        } else {
            proof {
                bignum::lemma_high_digits_zero(digits@, i as int);
            }
        }
        shift += 32;
        i += 1;
    }
    proof {
        assert(digits@.take(digits@.len() as int) =~= digits@);
    }
    Some(res)
}

impl Default for CHANGEME {
    fn default() -> (r: Self)
        ensures
            r == CHANGEME::Small(0),
    {
        CHANGEME::Small(0)
    }
}

impl From<u8> for CHANGEME {
    fn from(value: u8) -> Self {
        CHANGEME::Small(value as u64)
    }
}

impl vstd::std_specs::convert::FromSpecImpl<u8> for CHANGEME {
    open spec fn obeys_from_spec() -> bool {
        true
    }

    open spec fn from_spec(v: u8) -> Self {
        CHANGEME::Small(v as u64)
    }
}

impl From<u16> for CHANGEME {
    fn from(value: u16) -> Self {
        CHANGEME::Small(value as u64)
    }
}

impl vstd::std_specs::convert::FromSpecImpl<u16> for CHANGEME {
    open spec fn obeys_from_spec() -> bool {
        true
    }

    open spec fn from_spec(v: u16) -> Self {
        CHANGEME::Small(v as u64)
    }
}

impl From<u32> for CHANGEME {
    fn from(value: u32) -> Self {
        CHANGEME::Small(value as u64)
    }
}

impl vstd::std_specs::convert::FromSpecImpl<u32> for CHANGEME {
    open spec fn obeys_from_spec() -> bool {
        true
    }

    open spec fn from_spec(v: u32) -> Self {
        CHANGEME::Small(v as u64)
    }
}

impl From<u64> for CHANGEME {
    fn from(value: u64) -> Self {
        CHANGEME::Small(value)
    }
}

impl vstd::std_specs::convert::FromSpecImpl<u64> for CHANGEME {
    open spec fn obeys_from_spec() -> bool {
        true
    }

    open spec fn from_spec(v: u64) -> Self {
        CHANGEME::Small(v)
    }
}

impl From<u128> for CHANGEME {
    fn from(value: u128) -> Self {
        if value <= u64::MAX as u128 {
            CHANGEME::from(value as u64)
        } else {
            CHANGEME::Medium(value)
        }
    }
}

impl vstd::std_specs::convert::FromSpecImpl<u128> for CHANGEME {
    open spec fn obeys_from_spec() -> bool {
        true
    }

    open spec fn from_spec(v: u128) -> Self {
        canonical_of(v)
    }
}

impl From<BigUint> for CHANGEME {
    fn from(value: BigUint) -> Self {
        match fit_u128(&value) {
            Some(v) => CHANGEME::from(v),
            None => CHANGEME::Large(value),
        }
    }
}

impl vstd::std_specs::convert::FromSpecImpl<BigUint> for CHANGEME {
    open spec fn obeys_from_spec() -> bool {
        true
    }

    open spec fn from_spec(v: BigUint) -> Self {
        canonical_of_big(v)
    }
}

impl From<&BigUint> for CHANGEME {
    fn from(value: &BigUint) -> (r: Self)
        ensures
            r.value() == big_value(*value),
            r.is_canonical(),
    {
        match fit_u128(value) {
            Some(v) => CHANGEME::from(v),
            None => CHANGEME::Large(bignum::big_clone(value)),
        }
    }
}

// A `Large` result holds a copy of the argument, which the proofs know only by
// the number it represents: `from` states that, and no equality is claimed here.
impl vstd::std_specs::convert::FromSpecImpl<&BigUint> for CHANGEME {
    open spec fn obeys_from_spec() -> bool {
        false
    }

    open spec fn from_spec(v: &BigUint) -> Self {
        canonical_of_big(*v)
    }
}

impl Add<&CHANGEME> for &CHANGEME {
    type Output = CHANGEME;

    fn add(self, rhs: &CHANGEME) -> (r: CHANGEME)
        ensures
            r.is_sum_of(*self, *rhs),
    {
        self.compute_sum(rhs)
    }
}

impl Add<CHANGEME> for CHANGEME {
    type Output = CHANGEME;

    fn add(self, rhs: CHANGEME) -> (r: CHANGEME)
        ensures
            r.is_sum_of(self, rhs),
    {
        self.compute_sum(&rhs)
    }
}

impl Mul<&CHANGEME> for &CHANGEME {
    type Output = CHANGEME;

    fn mul(self, rhs: &CHANGEME) -> (r: CHANGEME)
        ensures
            r.is_product_of(*self, *rhs),
    {
        self.compute_product(rhs)
    }
}

impl Mul<CHANGEME> for CHANGEME {
    type Output = CHANGEME;

    fn mul(self, rhs: CHANGEME) -> (r: CHANGEME)
        ensures
            r.is_product_of(self, rhs),
    {
        self.compute_product(&rhs)
    }
}

impl AddAssign<&CHANGEME> for CHANGEME {
    fn add_assign(&mut self, rhs: &CHANGEME)
        ensures
            final(self).is_sum_of(*old(self), *rhs),
    {
        self.incr_by(rhs);
    }
}

impl AddAssign<CHANGEME> for CHANGEME {
    fn add_assign(&mut self, rhs: CHANGEME)
        ensures
            final(self).is_sum_of(*old(self), rhs),
    {
        self.incr_by(&rhs);
    }
}

impl MulAssign<&CHANGEME> for CHANGEME {
    fn mul_assign(&mut self, rhs: &CHANGEME)
        ensures
            final(self).is_product_of(*old(self), *rhs),
    {
        self.mul_by(rhs);
    }
}

impl MulAssign<CHANGEME> for CHANGEME {
    fn mul_assign(&mut self, rhs: CHANGEME)
        ensures
            final(self).is_product_of(*old(self), rhs),
    {
        self.mul_by(&rhs);
    }
}

// The operators' results are stated by the `ensures` of `add` and `mul` above,
// through the number a value represents; the generic operator specification,
// which would need the result as a single value, is not claimed.
impl vstd::std_specs::ops::AddSpecImpl<&CHANGEME> for &CHANGEME {
    open spec fn obeys_add_spec() -> bool {
        false
    }

    open spec fn add_req(self, rhs: &CHANGEME) -> bool {
        true
    }

    open spec fn add_spec(self, rhs: &CHANGEME) -> CHANGEME {
        vstd::pervasive::arbitrary()
    }
}

impl vstd::std_specs::ops::AddSpecImpl<CHANGEME> for CHANGEME {
    open spec fn obeys_add_spec() -> bool {
        false
    }

    open spec fn add_req(self, rhs: CHANGEME) -> bool {
        true
    }

    open spec fn add_spec(self, rhs: CHANGEME) -> CHANGEME {
        vstd::pervasive::arbitrary()
    }
}

impl vstd::std_specs::ops::MulSpecImpl<&CHANGEME> for &CHANGEME {
    open spec fn obeys_mul_spec() -> bool {
        false
    }

    open spec fn mul_req(self, rhs: &CHANGEME) -> bool {
        true
    }

    open spec fn mul_spec(self, rhs: &CHANGEME) -> CHANGEME {
        vstd::pervasive::arbitrary()
    }
}

impl vstd::std_specs::ops::MulSpecImpl<CHANGEME> for CHANGEME {
    open spec fn obeys_mul_spec() -> bool {
        false
    }

    open spec fn mul_req(self, rhs: CHANGEME) -> bool {
        true
    }

    open spec fn mul_spec(self, rhs: CHANGEME) -> CHANGEME {
        vstd::pervasive::arbitrary()
    }
}

} // verus!
