//! Checked scaled-integer arithmetic shared by the pricing curve, the pool
//! operations and the liquidation engine.
//!
//! No step wraps or truncates: a step whose exact result does not fit its
//! type, or whose divisor is zero, has no value and says why.

use vstd::arithmetic::power::{lemma_pow0, lemma_pow_increases, lemma_pow_positive, pow};
use vstd::prelude::*;

verus! {

/// Why a fixed-point step has no value.
#[derive(Clone, Copy, Debug, PartialEq, Eq, Structural)]
pub enum MathError {
    /// An intermediate or final quantity does not fit its integer type.
    Overflow,
    /// The divisor is zero.
    DivisionByZero,
}

/// `a * b / d` rounded toward zero. The product must fit 128 bits and the
/// divisor must not be zero; an oversized product is reported first.
pub open spec fn mul_div(a: u128, b: u128, d: u128) -> Result<u128, MathError> {
    if a * b > u128::MAX {
        Err(MathError::Overflow)
    } else if d == 0 {
        Err(MathError::DivisionByZero)
    } else {
        Ok(((a * b) / (d as int)) as u128)
    }
}

/// Multiplies, then divides, rounding toward zero.
pub fn checked_mul_div(a: u128, b: u128, d: u128) -> (r: Result<u128, MathError>)
    ensures
        r == mul_div(a, b, d),
{
    match a.checked_mul(b) {
        None => Err(MathError::Overflow),
        Some(p) => {
            if d == 0 {
                Err(MathError::DivisionByZero)
            } else {
                Ok(p / d)
            }
        },
    }
}

/// Ten to the power `n`, as a natural number.
pub open spec fn power_of_ten(n: nat) -> nat {
    pow(10, n) as nat
}

/// `10^n` where it fits 128 bits.
pub open spec fn pow10(n: u32) -> Result<u128, MathError> {
    if power_of_ten(n as nat) > u128::MAX {
        Err(MathError::Overflow)
    } else {
        Ok(power_of_ten(n as nat) as u128)
    }
}

/// Each further factor of ten multiplies the power by ten.
pub proof fn lemma_power_of_ten_step(n: nat)
    ensures
        power_of_ten(0) == 1,
        power_of_ten(n + 1) == 10 * power_of_ten(n),
        power_of_ten(n) > 0,
{
    reveal(pow);
    lemma_pow0(10);
    lemma_pow_positive(10, n);
    lemma_pow_positive(10, n + 1);
}

/// Powers of ten never shrink as the exponent grows.
pub proof fn lemma_power_of_ten_monotonic(m: nat, n: nat)
    requires
        m <= n,
    ensures
        power_of_ten(m) <= power_of_ten(n),
{
    lemma_pow_increases(10, m, n);
    lemma_pow_positive(10, m);
    lemma_pow_positive(10, n);
}

/// Raises ten to the power `n`, failing once the power outgrows 128 bits.
pub fn checked_pow10(n: u32) -> (r: Result<u128, MathError>)
    ensures
        r == pow10(n),
{
    let mut acc: u128 = 1;
    let mut i: u32 = 0;
    proof {
        lemma_power_of_ten_step(0);
    }
    while i < n
        invariant
            i <= n,
            acc == power_of_ten(i as nat),
        decreases n - i,
    {
        proof {
            lemma_power_of_ten_step(i as nat);
        }
        match acc.checked_mul(10) {
            None => {
                proof {
                    lemma_power_of_ten_monotonic((i + 1) as nat, n as nat);
                }
                return Err(MathError::Overflow);
            },
            Some(next) => {
                acc = next;
            },
        }
        i = i + 1;
    }
    Ok(acc)
}

/// The magnitude of a signed quantity. The least 64-bit value has none that
/// a signed 64-bit value could hold.
pub open spec fn magnitude(x: i64) -> Result<u128, MathError> {
    if x == i64::MIN {
        Err(MathError::Overflow)
    } else if x < 0 {
        Ok((-x) as u128)
    } else {
        Ok(x as u128)
    }
}

/// Takes the magnitude of a signed quantity.
pub fn checked_magnitude(x: i64) -> (r: Result<u128, MathError>)
    ensures
        r == magnitude(x),
{
    if x == i64::MIN {
        Err(MathError::Overflow)
    } else if x < 0 {
        Ok((-x) as u128)
    } else {
        Ok(x as u128)
    }
}

} // verus!
