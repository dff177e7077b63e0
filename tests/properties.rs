use arbitrary_int::util::{
    add_large, add_large_and_medium, add_large_and_small, add_medium, add_small, mul_large,
    mul_large_and_medium, mul_large_and_small, mul_medium, mul_small,
};
use arbitrary_int::CHANGEME;
use num_bigint::BigUint;

fn big(v: u128) -> BigUint {
    BigUint::from(v)
}

#[test]
fn default_is_small_zero() {
    assert_eq!(CHANGEME::default(), CHANGEME::Small(0));
}

#[test]
fn narrow_primitives_convert_to_small() {
    assert_eq!(CHANGEME::from(200u8), CHANGEME::Small(200));
    assert_eq!(CHANGEME::from(60_000u16), CHANGEME::Small(60_000));
    assert_eq!(CHANGEME::from(u32::MAX), CHANGEME::Small(u32::MAX as u64));
    assert_eq!(CHANGEME::from(u64::MAX), CHANGEME::Small(u64::MAX));
    assert_eq!(CHANGEME::from(0u64), CHANGEME::Small(0));
}

#[test]
fn u128_conversion_picks_narrowest_tier() {
    assert_eq!(CHANGEME::from(u64::MAX as u128), CHANGEME::Small(u64::MAX));
    assert_eq!(
        CHANGEME::from(u64::MAX as u128 + 1),
        CHANGEME::Medium(u64::MAX as u128 + 1)
    );
    assert_eq!(CHANGEME::from(u128::MAX), CHANGEME::Medium(u128::MAX));
}

#[test]
fn big_conversion_matches_u128_conversion() {
    for v in [0u128, 1, 77, u64::MAX as u128, u64::MAX as u128 + 1, 1 << 100, u128::MAX] {
        assert_eq!(CHANGEME::from(big(v)), CHANGEME::from(v));
        assert_eq!(CHANGEME::from(&big(v)), CHANGEME::from(v));
    }
    assert_eq!(CHANGEME::from(big(12_345)), CHANGEME::Small(12_345));
}

#[test]
fn big_conversion_above_u128_is_large() {
    let above = big(u128::MAX) + BigUint::from(1u32);
    assert_eq!(CHANGEME::from(above.clone()), CHANGEME::Large(above.clone()));
    assert_eq!(CHANGEME::from(&above), CHANGEME::Large(above));
}

#[test]
fn small_overflow_promotes_to_medium() {
    assert_eq!(
        CHANGEME::Small(u64::MAX) + CHANGEME::Small(u64::MAX),
        CHANGEME::Medium(2 * (u64::MAX as u128))
    );
    assert_eq!(add_small(u64::MAX, 1), CHANGEME::Medium(1u128 << 64));
    assert_eq!(add_small(40, 2), CHANGEME::Small(42));
}

#[test]
fn medium_overflow_promotes_to_large() {
    let expected = big(u128::MAX) * BigUint::from(2u32);
    assert_eq!(
        CHANGEME::Medium(u128::MAX) + CHANGEME::Medium(u128::MAX),
        CHANGEME::Large(expected.clone())
    );
    assert_eq!(add_medium(u128::MAX, u128::MAX), CHANGEME::Large(expected));
    assert_eq!(
        add_medium(u128::MAX, 1),
        CHANGEME::Large(BigUint::from(1u32) << 128u32)
    );
    let squared = big(u128::MAX) * big(u128::MAX);
    assert_eq!(
        CHANGEME::Medium(u128::MAX) * CHANGEME::Medium(u128::MAX),
        CHANGEME::Large(squared.clone())
    );
    assert_eq!(mul_medium(u128::MAX, u128::MAX), CHANGEME::Large(squared));
}

#[test]
fn arithmetic_keeps_the_wider_tier() {
    assert_eq!(CHANGEME::Medium(1) + CHANGEME::Medium(2), CHANGEME::Medium(3));
    assert_eq!(CHANGEME::Small(1) + CHANGEME::Medium(2), CHANGEME::Medium(3));
    assert_eq!(CHANGEME::Medium(2) * CHANGEME::Small(3), CHANGEME::Medium(6));
    assert_eq!(
        CHANGEME::Large(big(1)) + CHANGEME::Small(2),
        CHANGEME::Large(big(3))
    );
    assert_eq!(
        CHANGEME::Small(0) * CHANGEME::Large(big(5)),
        CHANGEME::Large(big(0))
    );
    assert_ne!(CHANGEME::Medium(1) + CHANGEME::Medium(2), CHANGEME::from(3u64));
}

#[test]
fn word_products() {
    assert_eq!(mul_small(6, 7), CHANGEME::Small(42));
    assert_eq!(
        mul_small(u64::MAX, u64::MAX),
        CHANGEME::Medium((u64::MAX as u128) * (u64::MAX as u128))
    );
    assert_eq!(mul_small(1 << 32, 1 << 32), CHANGEME::Medium(1u128 << 64));
    assert_eq!(mul_medium(3, 5), CHANGEME::Medium(15));
}

#[test]
fn large_tier_primitives() {
    let a = big(u128::MAX) * BigUint::from(10u32);
    assert_eq!(add_large_and_small(&a, 5), CHANGEME::Large(&a + big(5)));
    assert_eq!(
        add_large_and_medium(&a, u128::MAX),
        CHANGEME::Large(&a + big(u128::MAX))
    );
    assert_eq!(add_large(&a, &a), CHANGEME::Large(&a * BigUint::from(2u32)));
    assert_eq!(mul_large_and_small(&a, 3), CHANGEME::Large(&a * big(3)));
    assert_eq!(
        mul_large_and_medium(&a, u128::MAX),
        CHANGEME::Large(&a * big(u128::MAX))
    );
    assert_eq!(mul_large(&a, &a), CHANGEME::Large(&a * &a));
}

#[test]
fn operations_commute() {
    let values = [
        CHANGEME::Small(0),
        CHANGEME::Small(u64::MAX),
        CHANGEME::Medium(u128::MAX),
        CHANGEME::Medium(12),
        CHANGEME::Large(big(u128::MAX) * big(3)),
    ];
    for a in &values {
        for b in &values {
            assert_eq!(a + b, b + a);
            assert_eq!(a * b, b * a);
        }
    }
}

#[test]
fn compound_assignment_matches_operator() {
    let values = [
        CHANGEME::Small(9),
        CHANGEME::Small(u64::MAX),
        CHANGEME::Medium(u128::MAX - 4),
        CHANGEME::Large(big(u128::MAX) * big(7)),
    ];
    for a in &values {
        for b in &values {
            let mut sum = a + &CHANGEME::Small(0);
            sum += b;
            assert_eq!(sum, a + b);
            let mut product = a * &CHANGEME::Small(1);
            product *= b;
            assert_eq!(product, a * b);
        }
    }
}

#[test]
fn large_receiver_stays_large() {
    let start = big(u128::MAX) + big(1);
    let mut acc = CHANGEME::from(start.clone());
    let mut reference = start;
    for k in 0..50u64 {
        let step = if k % 2 == 0 {
            CHANGEME::Small(k)
        } else {
            CHANGEME::Medium(k as u128)
        };
        acc += &step;
        reference += big(k as u128);
        assert_eq!(acc, CHANGEME::Large(reference.clone()));
    }
    for k in 0..20u64 {
        acc *= CHANGEME::Small(k + 1);
        reference *= big(k as u128 + 1);
        assert_eq!(acc, CHANGEME::Large(reference.clone()));
    }
    acc *= CHANGEME::Large(big(3));
    reference *= big(3);
    assert_eq!(acc, CHANGEME::Large(reference));
}

#[test]
fn product_of_a_range() {
    let mut acc = CHANGEME::from(1u64);
    let mut reference = BigUint::from(1u32);
    for e in 2..=40u64 {
        acc = acc * CHANGEME::from(e);
        reference *= BigUint::from(e);
    }
    assert_eq!(acc, CHANGEME::Large(reference));
}
