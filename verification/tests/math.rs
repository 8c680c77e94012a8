use onchain_core::math::{bps_fee, mul_div_ceil, mul_div_floor, ArithError};

#[test]
fn math_mul_div_floor_and_ceil_round_as_stated() {
    assert_eq!(mul_div_floor(7, 3, 4).unwrap(), 5);
    assert_eq!(mul_div_ceil(7, 3, 4).unwrap(), 6);
    assert_eq!(mul_div_floor(7, 4, 4).unwrap(), 7);
    assert_eq!(mul_div_ceil(7, 4, 4).unwrap(), 7);
    assert_eq!(mul_div_floor(0, 5, 9).unwrap(), 0);
    assert_eq!(mul_div_ceil(0, 5, 9).unwrap(), 0);
}

#[test]
fn math_mul_div_rejects_zero_divisor_and_overflow() {
    assert!(matches!(mul_div_floor(1, 1, 0), Err(ArithError::DivisionByZero)));
    assert!(matches!(mul_div_ceil(1, 1, 0), Err(ArithError::DivisionByZero)));
    assert!(matches!(
        mul_div_floor(u64::MAX, u64::MAX, 1),
        Err(ArithError::Overflow)
    ));
    // A large product still divides back into range.
    assert_eq!(mul_div_floor(u64::MAX, 10, 20).unwrap(), u64::MAX / 2);
}

#[test]
fn math_bps_fee_examples() {
    assert_eq!(bps_fee(1_000_000, 500), 50_000);
    assert_eq!(bps_fee(10_000, 30), 30);
    assert_eq!(bps_fee(1, 9_999), 0);
    assert_eq!(bps_fee(u64::MAX, 10_000), u64::MAX);
    assert_eq!(bps_fee(12_345, 0), 0);
}
