//! Overflow-aware addition and multiplication for each pair of tiers.
use num_bigint::BigUint;
use vstd::prelude::*;

use crate::bignum::{
    big_add, big_add_assign, big_from_u128, big_from_u64, big_mul, big_mul_assign, big_shl,
    big_value,
};
use crate::hint::{likely, unlikely};
use crate::{tier_large, tier_medium, tier_small, tier_for, CHANGEME};

verus! {

/// The value of a carry out of a 64-bit addition: `2^64`.
const WORD_64_CARRY: u128 = 0x1_0000_0000_0000_0000;

proof fn lemma_pow2_128()
    ensures
        vstd::arithmetic::power2::pow2(128) == 0x1_0000_0000_0000_0000_0000_0000_0000_0000,
{
    vstd::arithmetic::power2::lemma2_to64();
    vstd::arithmetic::power2::lemma_pow2_adds(64, 64);
}

/// Sum of two 64-bit words: `Small` when it fits, else `Medium`.
pub fn add_small(a: u64, b: u64) -> (r: CHANGEME)
    ensures
        r.is_result((a + b) as nat, tier_small(), tier_small()),
{
    let sum = a.wrapping_add(b);
    let carry = a.checked_add(b).is_none();
    if likely(!carry) {
        CHANGEME::Small(sum)
    } else {
        CHANGEME::Medium(WORD_64_CARRY + sum as u128)
    }
}

/// Sum of two 128-bit words: `Medium` when it fits, else `Large`.
pub fn add_medium(a: u128, b: u128) -> (r: CHANGEME)
    ensures
        r.is_result((a + b) as nat, tier_medium(), tier_medium()),
{
    let sum = a.wrapping_add(b);
    let carry = a.checked_add(b).is_none();
    if likely(!carry) {
        CHANGEME::Medium(sum)
    } else {
        let mut res = big_shl(big_from_u64(1), 128);
        big_add_assign(&mut res, &big_from_u128(sum));
        proof {
            lemma_pow2_128();
        }
        CHANGEME::Large(res)
    }
}

/// Sum of an arbitrary-precision value and a 64-bit word, always `Large`.
pub fn add_large_and_small(a: &BigUint, b: u64) -> (r: CHANGEME)
    ensures
        r.is_result(big_value(*a) + b as nat, tier_large(), tier_small()),
{
    let mut res = big_from_u64(b);
    big_add_assign(&mut res, a);
    CHANGEME::Large(res)
}

/// Sum of an arbitrary-precision value and a 128-bit word, always `Large`.
pub fn add_large_and_medium(a: &BigUint, b: u128) -> (r: CHANGEME)
    ensures
        r.is_result(big_value(*a) + b as nat, tier_large(), tier_medium()),
{
    let mut res = big_from_u128(b);
    big_add_assign(&mut res, a);
    CHANGEME::Large(res)
}

/// Sum of two arbitrary-precision values, always `Large`.
pub fn add_large(a: &BigUint, b: &BigUint) -> (r: CHANGEME)
    ensures
        r.is_result(big_value(*a) + big_value(*b), tier_large(), tier_large()),
{
    CHANGEME::Large(big_add(a, b))
}

/// Product of two 64-bit words, computed in 128 bits: `Small` when it fits,
/// else `Medium`.
pub fn mul_small(a: u64, b: u64) -> (r: CHANGEME)
    ensures
        r.is_result((a * b) as nat, tier_small(), tier_small()),
{
    proof {
        assert(a as u128 * b as u128 <= u128::MAX) by (nonlinear_arith)
            requires
                a <= u64::MAX,
                b <= u64::MAX,
        ;
    }
    let res = (a as u128) * (b as u128);
    if res >> 64u32 != 0 {
        assert(res > u64::MAX) by (bit_vector)
            requires
                res >> 64u32 != 0,
        ;
        CHANGEME::Medium(res)
    } else {
        assert(res <= u64::MAX) by (bit_vector)
            requires
                res >> 64u32 == 0,
        ;
        CHANGEME::Small(res as u64)
    }
}

/// Product of two 128-bit words: `Medium` when it fits, else `Large`.
pub fn mul_medium(a: u128, b: u128) -> (r: CHANGEME)
    ensures
        r.is_result((a * b) as nat, tier_medium(), tier_medium()),
{
    let prod = a.checked_mul(b);
    if unlikely(prod.is_none()) {
        let mut res = big_from_u128(a);
        big_mul_assign(&mut res, &big_from_u128(b));
        CHANGEME::Large(res)
    } else {
        CHANGEME::Medium(prod.unwrap())
    }
}

/// Product of an arbitrary-precision value and a 64-bit word, always `Large`.
pub fn mul_large_and_small(a: &BigUint, b: u64) -> (r: CHANGEME)
    ensures
        r.is_result(big_value(*a) * b as nat, tier_large(), tier_small()),
{
    let mut res = big_from_u64(b);
    big_mul_assign(&mut res, a);
    proof {
        vstd::arithmetic::mul::lemma_mul_is_commutative(big_value(*a) as int, b as int);
    }
    CHANGEME::Large(res)
}

/// Product of an arbitrary-precision value and a 128-bit word, always `Large`.
pub fn mul_large_and_medium(a: &BigUint, b: u128) -> (r: CHANGEME)
    ensures
        r.is_result(big_value(*a) * b as nat, tier_large(), tier_medium()),
{
    let mut res = big_from_u128(b);
    big_mul_assign(&mut res, a);
    proof {
        vstd::arithmetic::mul::lemma_mul_is_commutative(big_value(*a) as int, b as int);
    }
    CHANGEME::Large(res)
}

/// Product of two arbitrary-precision values, always `Large`.
pub fn mul_large(a: &BigUint, b: &BigUint) -> (r: CHANGEME)
    ensures
        r.is_result(big_value(*a) * big_value(*b), tier_large(), tier_large()),
{
    CHANGEME::Large(big_mul(a, b))
}

} // verus!
