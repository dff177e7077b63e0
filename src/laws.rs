//! Properties that relate several operations of the library.
use num_bigint::BigUint;
use vstd::prelude::*;
use vstd::std_specs::convert::FromSpec;

use crate::bignum::big_value;
use crate::{tier_large, tier_medium, tier_small, CHANGEME};

verus! {

/// Two values agree: same tier and same number. For `Small` and `Medium` this
/// is equality of the values themselves.
pub open spec fn same_outcome(x: CHANGEME, y: CHANGEME) -> bool {
    &&& x.tier() == y.tier()
    &&& x.value() == y.value()
}

/// Values with the same tier and number, below the `Large` tier, are equal.
pub proof fn lemma_same_outcome_is_equal(x: CHANGEME, y: CHANGEME)
    requires
        same_outcome(x, y),
        x.tier() != tier_large(),
    ensures
        x == y,
{
}

/// Every unsigned primitive of at most 64 bits converts to `Small`.
pub proof fn lemma_narrow_primitives_are_small(a: u8, b: u16, c: u32, d: u64)
    ensures
        <CHANGEME as FromSpec<u8>>::from_spec(a) == CHANGEME::Small(a as u64),
        <CHANGEME as FromSpec<u16>>::from_spec(b) == CHANGEME::Small(b as u64),
        <CHANGEME as FromSpec<u32>>::from_spec(c) == CHANGEME::Small(c as u64),
        <CHANGEME as FromSpec<u64>>::from_spec(d) == CHANGEME::Small(d),
{
}

/// A 128-bit primitive converts to `Small` exactly when it fits in 64 bits,
/// and to `Medium` otherwise.
pub proof fn lemma_u128_conversion_is_canonical(v: u128)
    ensures
        <CHANGEME as FromSpec<u128>>::from_spec(v) is Small <==> v <= u64::MAX,
        <CHANGEME as FromSpec<u128>>::from_spec(v) is Medium <==> v > u64::MAX,
        <CHANGEME as FromSpec<u128>>::from_spec(v).value() == v,
{
}

/// An arbitrary-precision value below `2^128` converts exactly as the same
/// number given as a `u128` does; a larger one converts to `Large`.
pub proof fn lemma_big_conversion_matches_u128(b: BigUint)
    ensures
        big_value(b) <= u128::MAX ==> <CHANGEME as FromSpec<BigUint>>::from_spec(b) == <CHANGEME as FromSpec<u128>>::from_spec(big_value(b) as u128),
        big_value(b) > u128::MAX ==> <CHANGEME as FromSpec<BigUint>>::from_spec(b) is Large,
        <CHANGEME as FromSpec<BigUint>>::from_spec(b).value() == big_value(b),
{
}

/// Addition is commutative, tier included: `a + b` and `b + a` agree, and are
/// equal below the `Large` tier.
pub proof fn lemma_sum_commutes(a: CHANGEME, b: CHANGEME, ab: CHANGEME, ba: CHANGEME)
    requires
        ab.is_sum_of(a, b),
        ba.is_sum_of(b, a),
    ensures
        same_outcome(ab, ba),
        ab.tier() != tier_large() ==> ab == ba,
{
}

/// Multiplication is commutative, tier included: `a * b` and `b * a` agree,
/// and are equal below the `Large` tier.
pub proof fn lemma_product_commutes(a: CHANGEME, b: CHANGEME, ab: CHANGEME, ba: CHANGEME)
    requires
        ab.is_product_of(a, b),
        ba.is_product_of(b, a),
    ensures
        same_outcome(ab, ba),
        ab.tier() != tier_large() ==> ab == ba,
{
    vstd::arithmetic::mul::lemma_mul_is_commutative(a.value() as int, b.value() as int);
}

/// `a += b` leaves in `a` what `a + b` returns: the same tier and number, and
/// the same value below the `Large` tier.
pub proof fn lemma_add_assign_matches_add(a: CHANGEME, b: CHANGEME, assigned: CHANGEME, sum: CHANGEME)
    requires
        assigned.is_sum_of(a, b),
        sum.is_sum_of(a, b),
    ensures
        same_outcome(assigned, sum),
        assigned.tier() != tier_large() ==> assigned == sum,
{
}

/// `a *= b` leaves in `a` what `a * b` returns: the same tier and number, and
/// the same value below the `Large` tier.
pub proof fn lemma_mul_assign_matches_mul(a: CHANGEME, b: CHANGEME, assigned: CHANGEME, product: CHANGEME)
    requires
        assigned.is_product_of(a, b),
        product.is_product_of(a, b),
    ensures
        same_outcome(assigned, product),
        assigned.tier() != tier_large() ==> assigned == product,
{
}

/// The sum of the numbers of a sequence of values.
pub open spec fn total(ops: Seq<CHANGEME>) -> nat
    decreases ops.len(),
{
    if ops.len() == 0 {
        0
    } else {
        total(ops.drop_last()) + ops.last().value()
    }
}

/// The product of the numbers of a sequence of values.
pub open spec fn product(ops: Seq<CHANGEME>) -> nat
    decreases ops.len(),
{
    if ops.len() == 0 {
        1
    } else {
        product(ops.drop_last()) * ops.last().value()
    }
}

/// Adding values one after another into a `Large` receiver: each state, from
/// the first, is `Large` and holds the start plus the operands added so far.
pub proof fn lemma_large_accumulator_sums(states: Seq<CHANGEME>, ops: Seq<CHANGEME>)
    requires
        states.len() == ops.len() + 1,
        states[0].tier() == tier_large(),
        forall|k: int| 0 <= k < ops.len() ==> #[trigger] states[k + 1].is_sum_of(states[k], ops[k]),
    ensures
        forall|k: int|
            0 <= k < states.len() ==> #[trigger] states[k].tier() == tier_large()
                && states[k].value() == states[0].value() + total(ops.take(k)),
    decreases ops.len(),
{
    if ops.len() > 0 {
        let n = ops.len() - 1;
        lemma_large_accumulator_sums(states.take(n + 1), ops.take(n));
        assert forall|k: int| 0 <= k < states.len() implies #[trigger] states[k].tier() == tier_large()
            && states[k].value() == states[0].value() + total(ops.take(k)) by {
            if k <= n {
                assert(states.take(n + 1)[k] == states[k]);
                assert(ops.take(n).take(k) =~= ops.take(k));
            } else {
                assert(states.take(n + 1)[n] == states[n]);
                assert(ops.take(n).take(n) =~= ops.take(n));
                assert(ops.take(k).drop_last() =~= ops.take(n));
                assert(states[n + 1].is_sum_of(states[n], ops[n]));
            }
        }
    }
}

/// Multiplying values one after another into a `Large` receiver: each state,
/// from the first, is `Large` and holds the start times the operands so far.
pub proof fn lemma_large_accumulator_products(states: Seq<CHANGEME>, ops: Seq<CHANGEME>)
    requires
        states.len() == ops.len() + 1,
        states[0].tier() == tier_large(),
        forall|k: int|
            0 <= k < ops.len() ==> #[trigger] states[k + 1].is_product_of(states[k], ops[k]),
    ensures
        forall|k: int|
            0 <= k < states.len() ==> #[trigger] states[k].tier() == tier_large()
                && states[k].value() == states[0].value() * product(ops.take(k)),
    decreases ops.len(),
{
    if ops.len() > 0 {
        let n = ops.len() - 1;
        lemma_large_accumulator_products(states.take(n + 1), ops.take(n));
        assert forall|k: int| 0 <= k < states.len() implies #[trigger] states[k].tier() == tier_large()
            && states[k].value() == states[0].value() * product(ops.take(k)) by {
            if k <= n {
                assert(states.take(n + 1)[k] == states[k]);
                assert(ops.take(n).take(k) =~= ops.take(k));
            } else {
                assert(states.take(n + 1)[n] == states[n]);
                assert(ops.take(n).take(n) =~= ops.take(n));
                assert(ops.take(k).drop_last() =~= ops.take(n));
                assert(states[n + 1].is_product_of(states[n], ops[n]));
                vstd::arithmetic::mul::lemma_mul_is_associative(
                    states[0].value() as int,
                    product(ops.take(n)) as int,
                    ops[n].value() as int,
                );
            }
        }
    } else {
        assert(ops.take(0) =~= Seq::<CHANGEME>::empty());
        assert(product(ops.take(0)) == 1);
        vstd::arithmetic::mul::lemma_mul_basics(states[0].value() as int);
    }
}

} // verus!
