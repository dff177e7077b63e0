//! The arbitrary-precision tier: `num_bigint::BigUint`, seen by the proofs
//! through the natural number it stands for.
use num_bigint::BigUint;
use vstd::prelude::*;

verus! {

#[verifier::external_type_specification]
#[verifier::external_body]
pub struct ExBigUint(BigUint);

/// The natural number that a `BigUint` represents.
pub uninterp spec fn big_value(b: BigUint) -> nat;

/// The weight of the `i`-th 32-bit digit of a little-endian digit string: `2^(32 i)`.
pub open spec fn digit_weight(i: nat) -> nat
    decreases i,
{
    if i == 0 {
        1
    } else {
        0x1_0000_0000 * digit_weight((i - 1) as nat)
    }
}

/// The number that a little-endian string of 32-bit digits spells.
pub open spec fn digits_value(d: Seq<u32>) -> nat
    decreases d.len(),
{
    if d.len() == 0 {
        0
    } else {
        digits_value(d.drop_last()) + d.last() as nat * digit_weight((d.len() - 1) as nat)
    }
}

/// Relies on `impl From<u64> for BigUint`: the result represents `v`.
#[verifier::external_body]
pub(crate) fn big_from_u64(v: u64) -> (r: BigUint)
    ensures
        big_value(r) == v as nat,
{
    BigUint::from(v)
}

/// Relies on `impl From<u128> for BigUint`: the result represents `v`.
#[verifier::external_body]
pub(crate) fn big_from_u128(v: u128) -> (r: BigUint)
    ensures
        big_value(r) == v as nat,
{
    BigUint::from(v)
}

/// Relies on `impl Clone for BigUint`: the copy represents the same number.
#[verifier::external_body]
pub(crate) fn big_clone(b: &BigUint) -> (r: BigUint)
    ensures
        big_value(r) == big_value(*b),
{
    b.clone()
}

/// Relies on `impl PartialOrd for BigUint`, which orders by numeric value.
#[verifier::external_body]
pub(crate) fn big_le(a: &BigUint, b: &BigUint) -> (r: bool)
    ensures
        r == (big_value(*a) <= big_value(*b)),
{
    a <= b
}

/// Relies on `BigUint::to_u32_digits`: the 32-bit digits of the value, least
/// significant first.
#[verifier::external_body]
pub(crate) fn big_to_u32_digits(b: &BigUint) -> (r: Vec<u32>)
    ensures
        digits_value(r@) == big_value(*b),
{
    b.to_u32_digits()
}

/// Relies on `impl Shl<u32> for BigUint`: a shift left by `bits` multiplies by `2^bits`.
#[verifier::external_body]
pub(crate) fn big_shl(a: BigUint, bits: u32) -> (r: BigUint)
    ensures
        big_value(r) == big_value(a) * vstd::arithmetic::power2::pow2(bits as nat),
{
    a << bits
}

/// Relies on `impl Add<&BigUint> for &BigUint`: the exact sum.
#[verifier::external_body]
pub(crate) fn big_add(a: &BigUint, b: &BigUint) -> (r: BigUint)
    ensures
        big_value(r) == big_value(*a) + big_value(*b),
{
    a + b
}

/// Relies on `impl AddAssign<&BigUint> for BigUint`: `s` becomes the exact sum.
#[verifier::external_body]
pub(crate) fn big_add_assign(s: &mut BigUint, o: &BigUint)
    ensures
        big_value(*final(s)) == big_value(*old(s)) + big_value(*o),
{
    *s += o;
}

/// Relies on `impl Mul<&BigUint> for &BigUint`: the exact product.
#[verifier::external_body]
pub(crate) fn big_mul(a: &BigUint, b: &BigUint) -> (r: BigUint)
    ensures
        big_value(r) == big_value(*a) * big_value(*b),
{
    a * b
}

/// Relies on `impl MulAssign<&BigUint> for BigUint`: `s` becomes the exact product.
#[verifier::external_body]
pub(crate) fn big_mul_assign(s: &mut BigUint, o: &BigUint)
    ensures
        big_value(*final(s)) == big_value(*old(s)) * big_value(*o),
{
    *s *= o;
}

/// Adding the next digit to a prefix of a digit string.
pub(crate) proof fn lemma_digits_prefix_step(d: Seq<u32>, i: int)
    requires
        0 <= i < d.len(),
    ensures
        digits_value(d.take(i + 1)) == digits_value(d.take(i)) + d[i] as nat * digit_weight(
            i as nat,
        ),
{
    assert(d.take(i + 1).drop_last() =~= d.take(i));
}

/// A prefix of a digit string spells no more than the whole.
pub(crate) proof fn lemma_digits_prefix_le(d: Seq<u32>, i: int)
    requires
        0 <= i <= d.len(),
    ensures
        digits_value(d.take(i)) <= digits_value(d),
    decreases d.len() - i,
{
    if i < d.len() {
        lemma_digits_prefix_step(d, i);
        lemma_digits_prefix_le(d, i + 1);
    } else {
        assert(d.take(i) =~= d);
    }
}

/// A string of `i` digits spells less than the weight of digit `i`.
pub(crate) proof fn lemma_digits_prefix_bound(d: Seq<u32>, i: int)
    requires
        0 <= i <= d.len(),
    ensures
        digits_value(d.take(i)) < digit_weight(i as nat),
    decreases i,
{
    if i > 0 {
        lemma_digits_prefix_bound(d, i - 1);
        lemma_digits_prefix_step(d, i - 1);
        let w = digit_weight((i - 1) as nat);
        let x = d[i - 1] as nat;
        assert(x * w <= 0xffff_ffff * w) by (nonlinear_arith)
            requires
                x <= 0xffff_ffff,
        ;
    } else {
        assert(d.take(0) =~= Seq::<u32>::empty());
    }
}

/// The digit weights grow with the position.
pub(crate) proof fn lemma_digit_weight_mono(i: nat, j: nat)
    requires
        i <= j,
    ensures
        digit_weight(i) <= digit_weight(j),
    decreases j,
{
    if i < j {
        lemma_digit_weight_mono(i, (j - 1) as nat);
    }
}

/// In a digit string that spells a number below `2^128`, every digit from
/// the fifth on is zero.
pub(crate) proof fn lemma_high_digits_zero(d: Seq<u32>, i: int)
    requires
        4 <= i < d.len(),
        digits_value(d) <= u128::MAX,
    ensures
        d[i] == 0,
{
    lemma_digits_prefix_step(d, i);
    lemma_digits_prefix_le(d, i + 1);
    lemma_digit_weight_mono(4, i as nat);
    reveal_with_fuel(digit_weight, 5);
    if d[i] != 0 {
        let w = digit_weight(i as nat);
        let x = d[i] as nat;
        assert(x * w >= w) by (nonlinear_arith)
            requires
                x >= 1,
        ;
    }
}

} // verus!
