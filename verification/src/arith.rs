//! Checked 64-bit arithmetic, built on the `safe_arith` crate.

use crate::error::RewardsError;
use safe_arith::ArithError;
use safe_arith::SafeArith;
use vstd::prelude::*;

verus! {

#[verifier::external_type_specification]
#[verifier::external_body]
pub struct ExArithError(ArithError);

/// The product of two 64-bit values, where it fits in 64 bits.
pub open spec fn mul_checked(a: u64, b: u64) -> Result<u64, RewardsError> {
    if a * b <= u64::MAX {
        Ok((a * b) as u64)
    } else {
        Err(RewardsError::Arithmetic)
    }
}

/// The quotient of two 64-bit values, where the divisor is not zero.
pub open spec fn div_checked(a: u64, b: u64) -> Result<u64, RewardsError> {
    if b != 0 {
        Ok((a / b) as u64)
    } else {
        Err(RewardsError::Arithmetic)
    }
}

/// Calls `SafeArith::safe_mul` of `safe_arith` on two `u64` values.
///
/// Trusted: the call succeeds exactly when the mathematical product fits in
/// 64 bits, and then returns that product. Nothing is claimed about which
/// error value a failure carries.
#[verifier::external_body]
fn safe_mul_u64(a: u64, b: u64) -> (r: Result<u64, ArithError>)
    ensures
        r is Ok <==> a * b <= u64::MAX,
        r is Ok ==> r->Ok_0 == a * b,
{
    a.safe_mul(b)
}

/// Calls `SafeArith::safe_div` of `safe_arith` on two `u64` values.
///
/// Trusted: the call succeeds exactly when the divisor is not zero, and then
/// returns the quotient rounded down. Nothing is claimed about which error
/// value a failure carries.
#[verifier::external_body]
fn safe_div_u64(a: u64, b: u64) -> (r: Result<u64, ArithError>)
    ensures
        r is Ok <==> b != 0,
        r is Ok ==> r->Ok_0 == a / b,
{
    a.safe_div(b)
}

/// Multiplies two amounts, failing with `Arithmetic` when the product does
/// not fit in 64 bits.
pub fn checked_mul(a: u64, b: u64) -> (r: Result<u64, RewardsError>)
    ensures
        r == mul_checked(a, b),
{
    match safe_mul_u64(a, b) {
        Ok(product) => Ok(product),
        Err(_) => Err(RewardsError::Arithmetic),
    }
}

/// Divides one amount by another, rounding down, failing with `Arithmetic`
/// when the divisor is zero.
pub fn checked_div(a: u64, b: u64) -> (r: Result<u64, RewardsError>)
    ensures
        r == div_checked(a, b),
{
    match safe_div_u64(a, b) {
        Ok(quotient) => Ok(quotient),
        Err(_) => Err(RewardsError::Arithmetic),
    }
}

/// An unsigned amount as a signed one, where it fits in 64 signed bits.
pub open spec fn signed_checked(amount: u64) -> Result<i64, RewardsError> {
    if amount <= i64::MAX {
        Ok(amount as i64)
    } else {
        Err(RewardsError::Arithmetic)
    }
}

/// The negative of an unsigned amount, where it fits in 64 signed bits.
pub open spec fn negated_checked(amount: u64) -> Result<i64, RewardsError> {
    if -amount >= i64::MIN {
        Ok((-amount) as i64)
    } else {
        Err(RewardsError::Arithmetic)
    }
}

/// Converts an amount to a signed one, failing with `Arithmetic` when it is
/// larger than any signed 64-bit value.
pub fn checked_signed(amount: u64) -> (r: Result<i64, RewardsError>)
    ensures
        r == signed_checked(amount),
{
    if amount <= 0x7fff_ffff_ffff_ffff {
        Ok(amount as i64)
    } else {
        Err(RewardsError::Arithmetic)
    }
}

/// Negates an amount, failing with `Arithmetic` when the negative is smaller
/// than any signed 64-bit value.
pub fn checked_negated(amount: u64) -> (r: Result<i64, RewardsError>)
    ensures
        r == negated_checked(amount),
{
    if amount <= 0x7fff_ffff_ffff_ffff {
        Ok(-(amount as i64))
    } else if amount == 0x8000_0000_0000_0000 {
        Ok(i64::MIN)
    } else {
        Err(RewardsError::Arithmetic)
    }
}

} // verus!
