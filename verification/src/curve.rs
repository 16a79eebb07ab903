//! The time-weighted bonding curve between the two claims of a pool.
//!
//! The curve keeps the sum of the two reserves, scaled by the part of a
//! year that is left until maturity, at a constant `k`. A trade adds
//! `amount_in` to one reserve; the other reserve becomes what is left of
//! `k`, and the trade pays out the difference.

use crate::fixed_point::checked_mul_div;
use crate::pool::YieldErrors;
use vstd::prelude::*;

verus! {

/// Scale of the time ratio: nine decimal places.
pub const PRECISION: u128 = 1_000_000_000;

/// A year of 365 days, in seconds.
pub const SECONDS_PER_YEAR: i64 = 31_536_000;

/// One day: the least time to maturity that the curve prices with.
pub const MIN_TIME_TO_MATURITY: i64 = 86_400;

/// The time to maturity that the curve prices with: the time left, but no
/// less than [`MIN_TIME_TO_MATURITY`].
pub open spec fn time_factor(time_to_maturity: i64) -> int {
    if time_to_maturity < MIN_TIME_TO_MATURITY {
        MIN_TIME_TO_MATURITY as int
    } else {
        time_to_maturity as int
    }
}

/// The part of a year that is left until maturity, scaled by
/// [`PRECISION`] and rounded toward zero.
pub open spec fn time_ratio(time_to_maturity: i64) -> int {
    time_factor(time_to_maturity) * PRECISION / (SECONDS_PER_YEAR as int)
}

/// The curve's constant for the given reserves: their sum, scaled by the
/// time ratio and rounded toward zero.
pub open spec fn invariant_k(reserve_in: u64, reserve_out: u64, time_to_maturity: i64) -> int {
    (reserve_in + reserve_out) * time_ratio(time_to_maturity) / (PRECISION as int)
}

/// What a trade of `amount_in` pays out before fees.
///
/// The scaled sum of the reserves must fit 128 bits. The reserve that the
/// trade adds to may not outgrow `k`, and what is then left of `k` for the
/// other reserve may not exceed what that reserve holds.
pub open spec fn yieldspace_out(
    reserve_in: u64,
    reserve_out: u64,
    amount_in: u64,
    time_to_maturity: i64,
) -> Result<u64, YieldErrors> {
    let k = invariant_k(reserve_in, reserve_out, time_to_maturity);
    let new_reserve_in = reserve_in + amount_in;
    if (reserve_in + reserve_out) * time_ratio(time_to_maturity) > u128::MAX {
        Err(YieldErrors::MathOverflow)
    } else if new_reserve_in > k || k - new_reserve_in > reserve_out {
        Err(YieldErrors::InsufficientLiquidity)
    } else {
        Ok((reserve_out - (k - new_reserve_in)) as u64)
    }
}

/// Prices a trade of `amount_in` into a pool side holding `reserve_in`
/// against the side holding `reserve_out`.
pub fn calculate_yieldspace_out(
    reserve_in: u64,
    reserve_out: u64,
    amount_in: u64,
    time_to_maturity: i64,
) -> (r: Result<u64, YieldErrors>)
    ensures
        r == yieldspace_out(reserve_in, reserve_out, amount_in, time_to_maturity),
        r matches Ok(amount_out) ==> amount_out <= reserve_out,
{
    let time_factor: i64 = if time_to_maturity < MIN_TIME_TO_MATURITY {
        MIN_TIME_TO_MATURITY
    } else {
        time_to_maturity
    };
    let time_ratio: u128 = (time_factor as u128) * PRECISION / (SECONDS_PER_YEAR as u128);
    let reserves: u128 = reserve_in as u128 + reserve_out as u128;
    let k: u128 = match checked_mul_div(reserves, time_ratio, PRECISION) {
        Ok(k) => k,
        Err(_) => {
            return Err(YieldErrors::MathOverflow);
        },
    };
    let new_reserve_in: u128 = reserve_in as u128 + amount_in as u128;
    if new_reserve_in > k {
        return Err(YieldErrors::InsufficientLiquidity);
    }
    let new_reserve_out: u128 = k - new_reserve_in;
    if new_reserve_out > reserve_out as u128 {
        return Err(YieldErrors::InsufficientLiquidity);
    }
    Ok((reserve_out as u128 - new_reserve_out) as u64)
}

} // verus!
