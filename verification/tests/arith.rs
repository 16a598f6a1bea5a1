use beacon_rewards::arith::{checked_div, checked_mul, checked_negated, checked_signed};
use beacon_rewards::error::RewardsError;

#[test]
fn checked_mul_returns_the_product() {
    assert_eq!(checked_mul(3, 4), Ok(12));
    assert_eq!(checked_mul(0, u64::MAX), Ok(0));
    assert_eq!(checked_mul(u64::MAX, 1), Ok(u64::MAX));
    assert_eq!(checked_mul(1 << 32, (1 << 32) - 1), Ok(0xffff_ffff_0000_0000));
}

#[test]
fn checked_mul_refuses_a_product_that_does_not_fit() {
    assert_eq!(checked_mul(1 << 32, 1 << 32), Err(RewardsError::Arithmetic));
    assert_eq!(checked_mul(u64::MAX, 2), Err(RewardsError::Arithmetic));
    assert_eq!(checked_mul(u64::MAX, u64::MAX), Err(RewardsError::Arithmetic));
}

#[test]
fn checked_div_rounds_down() {
    assert_eq!(checked_div(12, 4), Ok(3));
    assert_eq!(checked_div(13, 4), Ok(3));
    assert_eq!(checked_div(3, 4), Ok(0));
    assert_eq!(checked_div(u64::MAX, 1), Ok(u64::MAX));
    assert_eq!(checked_div(0, 7), Ok(0));
}

#[test]
fn checked_div_refuses_a_zero_divisor() {
    assert_eq!(checked_div(12, 0), Err(RewardsError::Arithmetic));
    assert_eq!(checked_div(0, 0), Err(RewardsError::Arithmetic));
}

#[test]
fn checked_signed_keeps_amounts_that_fit() {
    assert_eq!(checked_signed(0), Ok(0));
    assert_eq!(checked_signed(41), Ok(41));
    assert_eq!(checked_signed(i64::MAX as u64), Ok(i64::MAX));
    assert_eq!(checked_signed(i64::MAX as u64 + 1), Err(RewardsError::Arithmetic));
    assert_eq!(checked_signed(u64::MAX), Err(RewardsError::Arithmetic));
}

#[test]
fn checked_negated_reaches_the_smallest_signed_value() {
    assert_eq!(checked_negated(0), Ok(0));
    assert_eq!(checked_negated(41), Ok(-41));
    assert_eq!(checked_negated(i64::MAX as u64), Ok(-i64::MAX));
    assert_eq!(checked_negated(1 << 63), Ok(i64::MIN));
    assert_eq!(checked_negated((1 << 63) + 1), Err(RewardsError::Arithmetic));
    assert_eq!(checked_negated(u64::MAX), Err(RewardsError::Arithmetic));
}
