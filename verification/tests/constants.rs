use load_reth::engine::payload::validate_prev_randao;
use load_reth::primitives::{hash_eq, zero_address, U256};
use load_reth::text::decimal_string;
use load_reth::{is_load_prev_randao, LOAD_PREVRANDAO};

#[test]
fn prev_randao_is_constant_one() {
    let mut expected = [0u8; 32];
    expected[31] = 1;
    assert_eq!(LOAD_PREVRANDAO, expected);
}

#[test]
fn validate_prev_randao_accepts_constant() {
    let ok = validate_prev_randao(LOAD_PREVRANDAO);
    assert!(ok.is_ok());
}

#[test]
fn validate_prev_randao_rejects_other_values() {
    let err = validate_prev_randao([0u8; 32]).unwrap_err();
    assert!(err.contains("prev_randao"));
    assert_eq!(err, "prev_randao must be constant 0x01 for Load");
}

#[test]
fn prev_randao_differs_in_any_byte() {
    assert!(is_load_prev_randao(&LOAD_PREVRANDAO));
    for i in 0..32 {
        let mut value = LOAD_PREVRANDAO;
        value[i] ^= 0x80;
        assert!(!is_load_prev_randao(&value));
        assert!(validate_prev_randao(value).is_err());
    }
}

#[test]
fn hashes_compare_by_bytes() {
    let zero = [0u8; 32];
    assert_eq!(zero_address(), [0u8; 20]);
    assert!(hash_eq(&zero, &[0u8; 32]));
    assert!(!hash_eq(&zero, &LOAD_PREVRANDAO));
}

#[test]
fn u256_addition_carries_across_limbs() {
    let a = U256 { limbs: [u64::MAX, u64::MAX, 0, 0] };
    let b = U256::from_u64(1);
    let sum = a.checked_add(b).unwrap();
    assert_eq!(sum.limbs, [0, 0, 1, 0]);
    assert_ne!(sum.limbs, a.limbs);
    assert_ne!(sum.limbs, b.limbs);
}

#[test]
fn u256_addition_reports_overflow() {
    let max = U256 { limbs: [u64::MAX; 4] };
    assert!(max.checked_add(U256::from_u64(1)).is_none());
    assert_eq!(max.checked_add(U256::zero()).unwrap().limbs, [u64::MAX; 4]);
}

#[test]
fn u256_product_of_largest_factors() {
    let product = U256::mul_u128_u64(u128::MAX, u64::MAX);
    // (2^128 - 1) * (2^64 - 1) = 2^192 - 2^128 - 2^64 + 1
    assert_eq!(product.limbs, [1, u64::MAX, u64::MAX - 1, 0]);
    assert_eq!(U256::mul_u128_u64(3, 7).limbs, [21, 0, 0, 0]);
    assert_eq!(U256::mul_u128_u64(1 << 64, 2).limbs, [0, 2, 0, 0]);
}

#[test]
fn u256_order_looks_at_high_limbs_first() {
    let low = U256 { limbs: [u64::MAX, 0, 0, 0] };
    let high = U256 { limbs: [0, 1, 0, 0] };
    assert!(low.lt(&high));
    assert!(!high.lt(&low));
    assert!(!low.lt(&low));
    assert!(low.same(&low));
    assert!(!low.same(&high));
    assert!(U256::zero().is_zero());
    assert!(!high.is_zero());
}

#[test]
fn u256_agrees_with_alloy() {
    let a = alloy_primitives::U256::from(u128::MAX) * alloy_primitives::U256::from(12_345u64);
    assert_eq!(U256::mul_u128_u64(u128::MAX, 12_345).limbs, a.into_limbs());
}

#[test]
fn decimal_numerals() {
    assert_eq!(decimal_string(0), "0");
    assert_eq!(decimal_string(7), "7");
    assert_eq!(decimal_string(10), "10");
    assert_eq!(decimal_string(1025), "1025");
    assert_eq!(decimal_string(u64::MAX), "18446744073709551615");
}
