use yield_splitter::fixed_point::{checked_magnitude, checked_mul_div, checked_pow10, MathError};

#[test]
fn mul_div_rounds_toward_zero() {
    assert_eq!(checked_mul_div(6, 7, 4), Ok(10));
    assert_eq!(checked_mul_div(999, 30, 10_000), Ok(2));
    assert_eq!(checked_mul_div(333, 30, 10_000), Ok(0));
    assert_eq!(checked_mul_div(0, 12, 5), Ok(0));
    assert_eq!(checked_mul_div(10, 10, 100), Ok(1));
    assert_eq!(checked_mul_div(10, 10, 101), Ok(0));
}

#[test]
fn mul_div_reports_overflow_of_the_product() {
    assert_eq!(checked_mul_div(u128::MAX, 2, 4), Err(MathError::Overflow));
    assert_eq!(checked_mul_div(1 << 64, 1 << 64, 1 << 64), Err(MathError::Overflow));
    assert_eq!(checked_mul_div(u128::MAX, 1, 1), Ok(u128::MAX));
    assert_eq!(checked_mul_div((1 << 64) - 1, (1 << 64) + 1, 1), Ok(u128::MAX));
}

#[test]
fn mul_div_reports_zero_divisor() {
    assert_eq!(checked_mul_div(3, 4, 0), Err(MathError::DivisionByZero));
    assert_eq!(checked_mul_div(0, 0, 0), Err(MathError::DivisionByZero));
}

#[test]
fn mul_div_reports_overflow_before_zero_divisor() {
    assert_eq!(checked_mul_div(u128::MAX, u128::MAX, 0), Err(MathError::Overflow));
}

#[test]
fn pow10_small_exponents() {
    assert_eq!(checked_pow10(0), Ok(1));
    assert_eq!(checked_pow10(1), Ok(10));
    assert_eq!(checked_pow10(8), Ok(100_000_000));
    assert_eq!(checked_pow10(18), Ok(1_000_000_000_000_000_000));
}

#[test]
fn pow10_largest_that_fits() {
    assert_eq!(checked_pow10(38), Ok(100_000_000_000_000_000_000_000_000_000_000_000_000u128));
}

#[test]
fn pow10_overflows_from_thirty_nine() {
    assert_eq!(checked_pow10(39), Err(MathError::Overflow));
    assert_eq!(checked_pow10(40), Err(MathError::Overflow));
    assert_eq!(checked_pow10(u32::MAX), Err(MathError::Overflow));
}

#[test]
fn magnitude_ignores_the_sign() {
    assert_eq!(checked_magnitude(0), Ok(0));
    assert_eq!(checked_magnitude(5), Ok(5));
    assert_eq!(checked_magnitude(-5), Ok(5));
    assert_eq!(checked_magnitude(i64::MAX), Ok(9_223_372_036_854_775_807));
    assert_eq!(checked_magnitude(i64::MIN + 1), Ok(9_223_372_036_854_775_807));
}

#[test]
fn magnitude_of_the_least_value_overflows() {
    assert_eq!(checked_magnitude(i64::MIN), Err(MathError::Overflow));
}
