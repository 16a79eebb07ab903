//! Collateral liquidation against oracle prices.
//!
//! A position is a collateral amount and a debt amount. Both are valued with
//! an oracle price `price * 10^exponent`; a position whose collateral, cut
//! to the liquidation threshold, is worth less than its debt may have up to
//! half of the debt repaid by a liquidator, who seizes collateral worth the
//! repaid debt plus a bonus.

use crate::fixed_point::{
    checked_magnitude, checked_mul_div, checked_pow10, magnitude, mul_div, power_of_ten, MathError,
};
use crate::oracle::{
    feed_id_of_name, get_price_no_older_than, parse_feed_id, price_no_older_than, Price,
    PriceError, PriceUpdate,
};
use anchor_lang::prelude::Pubkey;
use vstd::prelude::*;

verus! {

/// Largest liquidation bonus, in basis points.
pub const MAX_LIQUIDATION_INCENTIVE_BPS: u16 = 500;

/// Share of the collateral value that counts against the debt, in basis
/// points.
pub const LIQUIDATION_THRESHOLD: u16 = 8000;

/// Scale of values and of the health factor: six decimal places.
pub const PRECISION: u128 = 1_000_000;

/// One whole, in basis points.
pub const BPS_DENOMINATOR: u128 = 10_000;

/// Oldest price, in seconds, that a liquidation accepts.
pub const MAX_PRICE_AGE: u64 = 60;

/// Why a lending operation fails.
#[derive(Clone, Copy, Debug, PartialEq, Eq, Structural)]
pub enum ErrorCode {
    PositionHealthy,
    InvalidLiquidationAmount,
    InsufficientCollateral,
    MathOverflow,
    InvalidFeedId,
    NoDebt,
}

impl ErrorCode {
    /// The text that explains the error.
    pub open spec fn message_text(self) -> Seq<char> {
        match self {
            ErrorCode::PositionHealthy => "Position is healthy and cannot be liquidated"@,
            ErrorCode::InvalidLiquidationAmount => "Invalid liquidation amount"@,
            ErrorCode::InsufficientCollateral => "Insufficient collateral to seize"@,
            ErrorCode::MathOverflow => "Math overflow"@,
            ErrorCode::InvalidFeedId => "Invalid Pyth feed ID"@,
            ErrorCode::NoDebt => "User has no debt"@,
        }
    }

    /// Explains the error in words.
    pub fn message(&self) -> (text: &'static str)
        ensures
            text@ == self.message_text(),
    {
        match self {
            ErrorCode::PositionHealthy => "Position is healthy and cannot be liquidated",
            ErrorCode::InvalidLiquidationAmount => "Invalid liquidation amount",
            ErrorCode::InsufficientCollateral => "Insufficient collateral to seize",
            ErrorCode::MathOverflow => "Math overflow",
            ErrorCode::InvalidFeedId => "Invalid Pyth feed ID",
            ErrorCode::NoDebt => "User has no debt",
        }
    }
}

/// Why a liquidation fails: by the protocol's own rules, or because the
/// oracle yields no price.
#[derive(Clone, Copy, Debug, PartialEq, Eq, Structural)]
pub enum LiquidationError {
    Program(ErrorCode),
    Oracle(PriceError),
}

/// A lending pool's configuration.
#[derive(Clone, Debug, PartialEq, Eq)]
pub struct LendingPool {
    pub authority: Pubkey,
    /// Hexadecimal name of the collateral's price feed.
    pub collateral_feed_id: String,
    /// Hexadecimal name of the debt's price feed.
    pub debt_feed_id: String,
    /// In basis points.
    pub liquidation_threshold: u16,
    /// In basis points.
    pub liquidation_bonus_bps: u16,
}

/// One borrower's position in a pool.
#[derive(Clone, Copy, Debug, PartialEq, Eq)]
pub struct UserAccount {
    pub owner: Pubkey,
    pub pool: Pubkey,
    pub collateral_amount: u64,
    pub debt_amount: u64,
}

/// What a liquidation moved.
#[derive(Clone, Copy, Debug, PartialEq, Eq, Structural)]
pub struct Liquidation {
    pub debt_repaid: u64,
    pub collateral_seized: u64,
}

/// The accounts that creating a pool names.
#[derive(Clone, Copy, Debug, PartialEq, Eq)]
pub struct InitializePool {
    pub authority: Pubkey,
}

/// The accounts that opening a position names.
#[derive(Clone, Copy, Debug, PartialEq, Eq)]
pub struct InitializeUser {
    /// Address of the pool the position belongs to.
    pub pool: Pubkey,
    pub owner: Pubkey,
}

/// The position that a deposit or a loan changes.
#[derive(Clone, Copy, Debug, PartialEq, Eq)]
pub struct UpdatePosition {
    pub user_account: UserAccount,
}

/// The records that a liquidation works on.
#[derive(Clone, Debug, PartialEq, Eq)]
pub struct ExecuteLiquidation {
    pub pool: LendingPool,
    pub user_account: UserAccount,
    pub price_update: PriceUpdate,
}

/// Creates a pool with the standard threshold and bonus.
pub fn initialize_pool(
    ctx: &InitializePool,
    collateral_feed_id: String,
    debt_feed_id: String,
) -> (pool: LendingPool)
    ensures
        pool.authority == ctx.authority,
        pool.collateral_feed_id@ == collateral_feed_id@,
        pool.debt_feed_id@ == debt_feed_id@,
        pool.liquidation_threshold == LIQUIDATION_THRESHOLD,
        pool.liquidation_bonus_bps == MAX_LIQUIDATION_INCENTIVE_BPS,
{
    LendingPool {
        authority: ctx.authority,
        collateral_feed_id,
        debt_feed_id,
        liquidation_threshold: LIQUIDATION_THRESHOLD,
        liquidation_bonus_bps: MAX_LIQUIDATION_INCENTIVE_BPS,
    }
}

/// Opens an empty position.
pub fn initialize_user(ctx: &InitializeUser) -> (account: UserAccount)
    ensures
        account == (UserAccount {
            owner: ctx.owner,
            pool: ctx.pool,
            collateral_amount: 0,
            debt_amount: 0,
        }),
{
    UserAccount { owner: ctx.owner, pool: ctx.pool, collateral_amount: 0, debt_amount: 0 }
}

/// Adds `amount` to the position's collateral, or changes nothing where the
/// sum does not fit.
pub fn deposit_collateral(ctx: &mut UpdatePosition, amount: u64) -> (r: Result<(), ErrorCode>)
    ensures
        old(ctx).user_account.collateral_amount + amount <= u64::MAX ==> r == Ok::<
            (),
            ErrorCode,
        >(()) && final(ctx).user_account == (UserAccount {
            collateral_amount: (old(ctx).user_account.collateral_amount + amount) as u64,
            ..old(ctx).user_account
        }),
        old(ctx).user_account.collateral_amount + amount > u64::MAX ==> r == Err::<(), ErrorCode>(
            ErrorCode::MathOverflow,
        ) && *final(ctx) == *old(ctx),
{
    match ctx.user_account.collateral_amount.checked_add(amount) {
        Some(total) => {
            ctx.user_account.collateral_amount = total;
            Ok(())
        },
        None => Err(ErrorCode::MathOverflow),
    }
}

/// Adds `amount` to the position's debt, or changes nothing where the sum
/// does not fit.
pub fn borrow(ctx: &mut UpdatePosition, amount: u64) -> (r: Result<(), ErrorCode>)
    ensures
        old(ctx).user_account.debt_amount + amount <= u64::MAX ==> r == Ok::<(), ErrorCode>(())
            && final(ctx).user_account == (UserAccount {
            debt_amount: (old(ctx).user_account.debt_amount + amount) as u64,
            ..old(ctx).user_account
        }),
        old(ctx).user_account.debt_amount + amount > u64::MAX ==> r == Err::<(), ErrorCode>(
            ErrorCode::MathOverflow,
        ) && *final(ctx) == *old(ctx),
{
    match ctx.user_account.debt_amount.checked_add(amount) {
        Some(total) => {
            ctx.user_account.debt_amount = total;
            Ok(())
        },
        None => Err(ErrorCode::MathOverflow),
    }
}

/// The number of decimal places that an exponent shifts by.
pub open spec fn decimal_shift(exponent: i32) -> nat {
    if exponent < 0 {
        (-exponent) as nat
    } else {
        exponent as nat
    }
}

/// The value of `amount` tokens at `price * 10^exponent`, scaled by
/// [`PRECISION`] and rounded toward zero. The sign of the price is ignored.
/// There is no value where the price has no magnitude, or where the power
/// of ten or a product on the way does not fit 128 bits.
pub open spec fn value_of(amount: u64, price: i64, exponent: i32) -> Result<u128, ErrorCode> {
    let scale = power_of_ten(decimal_shift(exponent));
    match magnitude(price) {
        Err(_) => Err(ErrorCode::MathOverflow),
        Ok(p) => if scale > u128::MAX || amount * PRECISION * p > u128::MAX {
            Err(ErrorCode::MathOverflow)
        } else if exponent < 0 {
            Ok(((amount * PRECISION * p) / (scale as int)) as u128)
        } else if amount * PRECISION * p * scale > u128::MAX {
            Err(ErrorCode::MathOverflow)
        } else {
            Ok((amount * PRECISION * p * scale) as u128)
        },
    }
}

/// The power of ten that an exponent shifts by, where it fits 128 bits.
fn shift_scale(exponent: i32) -> (r: Result<u128, MathError>)
    ensures
        power_of_ten(decimal_shift(exponent)) <= u128::MAX ==> r == Ok::<u128, MathError>(
            power_of_ten(decimal_shift(exponent)) as u128,
        ),
        power_of_ten(decimal_shift(exponent)) > u128::MAX ==> r is Err,
{
    let places: u32 = if exponent >= 0 {
        exponent as u32
    } else if exponent == i32::MIN {
        2147483648u32
    } else {
        (-exponent) as u32
    };
    checked_pow10(places)
}

/// Values `amount` tokens at `price * 10^exponent`.
pub fn calculate_value(amount: u64, price: i64, exponent: i32) -> (r: Result<u128, ErrorCode>)
    ensures
        r == value_of(amount, price, exponent),
{
    let amount_scaled: u128 = (amount as u128) * PRECISION;
    let price_abs: u128 = match checked_magnitude(price) {
        Ok(p) => p,
        Err(_) => {
            return Err(ErrorCode::MathOverflow);
        },
    };
    let scale: u128 = match shift_scale(exponent) {
        Ok(s) => s,
        Err(_) => {
            return Err(ErrorCode::MathOverflow);
        },
    };
    let product: u128 = match amount_scaled.checked_mul(price_abs) {
        Some(v) => v,
        None => {
            return Err(ErrorCode::MathOverflow);
        },
    };
    if exponent < 0 {
        proof {
            crate::fixed_point::lemma_power_of_ten_step(decimal_shift(exponent));
        }
        Ok(product / scale)
    } else {
        match product.checked_mul(scale) {
            Some(v) => Ok(v),
            None => Err(ErrorCode::MathOverflow),
        }
    }
}

/// The number of tokens worth `value` at `price * 10^exponent`, each
/// division rounded toward zero. The sign of the price is ignored. There is
/// no amount where the price is zero or has no magnitude, where the power
/// of ten or the scaled value does not fit 128 bits, or where the amount
/// does not fit 64 bits.
pub open spec fn amount_of(value: u128, price: i64, exponent: i32) -> Result<u64, ErrorCode> {
    let scale = power_of_ten(decimal_shift(exponent));
    match magnitude(price) {
        Err(_) => Err(ErrorCode::MathOverflow),
        Ok(p) => if scale > u128::MAX || p == 0 || (exponent < 0 && value * scale > u128::MAX) {
            Err(ErrorCode::MathOverflow)
        } else {
            let tokens = if exponent < 0 {
                (value * scale) / (p as int) / (PRECISION as int)
            } else {
                (value as int) / (p as int) / (scale as int) / (PRECISION as int)
            };
            if tokens > u64::MAX {
                Err(ErrorCode::MathOverflow)
            } else {
                Ok(tokens as u64)
            }
        },
    }
}

/// Converts a value back to a token amount at `price * 10^exponent`.
pub fn calculate_amount_from_value(value: u128, price: i64, exponent: i32) -> (r: Result<
    u64,
    ErrorCode,
>)
    ensures
        r == amount_of(value, price, exponent),
{
    let price_abs: u128 = match checked_magnitude(price) {
        Ok(p) => p,
        Err(_) => {
            return Err(ErrorCode::MathOverflow);
        },
    };
    let scale: u128 = match shift_scale(exponent) {
        Ok(s) => s,
        Err(_) => {
            return Err(ErrorCode::MathOverflow);
        },
    };
    proof {
        crate::fixed_point::lemma_power_of_ten_step(decimal_shift(exponent));
    }
    let amount: u128 = if exponent < 0 {
        match checked_mul_div(value, scale, price_abs) {
            Ok(q) => q,
            Err(_) => {
                return Err(ErrorCode::MathOverflow);
            },
        }
    } else {
        if price_abs == 0 {
            return Err(ErrorCode::MathOverflow);
        }
        value / price_abs / scale
    };
    let tokens: u128 = amount / PRECISION;
    if tokens > u64::MAX as u128 {
        Err(ErrorCode::MathOverflow)
    } else {
        Ok(tokens as u64)
    }
}

/// The health factor of a position, scaled by [`PRECISION`]: the value of
/// the collateral, cut to the pool's liquidation threshold, over the value
/// of the debt. A position without debt value has none.
pub open spec fn health_factor(
    pool: LendingPool,
    account: UserAccount,
    collateral_price: Price,
    debt_price: Price,
) -> Result<u128, ErrorCode> {
    match value_of(account.collateral_amount, collateral_price.price, collateral_price.exponent) {
        Err(e) => Err(e),
        Ok(collateral_value) => match value_of(
            account.debt_amount,
            debt_price.price,
            debt_price.exponent,
        ) {
            Err(e) => Err(e),
            Ok(debt_value) => match mul_div(
                collateral_value,
                pool.liquidation_threshold as u128,
                BPS_DENOMINATOR,
            ) {
                Err(_) => Err(ErrorCode::MathOverflow),
                Ok(adjusted) => if debt_value == 0 {
                    Err(ErrorCode::NoDebt)
                } else {
                    match mul_div(adjusted, PRECISION, debt_value) {
                        Err(_) => Err(ErrorCode::MathOverflow),
                        Ok(factor) => Ok(factor),
                    }
                },
            },
        },
    }
}

/// The debt that one liquidation repays: what the liquidator offers, but no
/// more than half of the position's debt.
pub open spec fn repayable_debt(account: UserAccount, amount_to_liquidate: u64) -> u64 {
    if amount_to_liquidate <= account.debt_amount / 2 {
        amount_to_liquidate
    } else {
        account.debt_amount / 2
    }
}

/// The collateral that repaying `repaid` debt seizes: the amount worth the
/// repaid debt's value plus the pool's bonus.
pub open spec fn collateral_to_seize(
    pool: LendingPool,
    repaid: u64,
    collateral_price: Price,
    debt_price: Price,
) -> Result<u64, ErrorCode> {
    match value_of(repaid, debt_price.price, debt_price.exponent) {
        Err(e) => Err(e),
        Ok(repaid_value) => match mul_div(
            repaid_value,
            (BPS_DENOMINATOR + pool.liquidation_bonus_bps) as u128,
            BPS_DENOMINATOR,
        ) {
            Err(_) => Err(ErrorCode::MathOverflow),
            Ok(seized_value) => amount_of(
                seized_value,
                collateral_price.price,
                collateral_price.exponent,
            ),
        },
    }
}

/// What liquidating `account` at the given prices does: the position
/// afterwards and what was moved, or the first rule that refuses. Only a
/// position whose health factor is below one is liquidated; it must have
/// something to repay and enough collateral for the seizure.
pub open spec fn liquidation_at_prices(
    pool: LendingPool,
    account: UserAccount,
    collateral_price: Price,
    debt_price: Price,
    amount_to_liquidate: u64,
) -> Result<(UserAccount, Liquidation), ErrorCode> {
    match health_factor(pool, account, collateral_price, debt_price) {
        Err(e) => Err(e),
        Ok(factor) => {
            let repaid = repayable_debt(account, amount_to_liquidate);
            if factor >= PRECISION {
                Err(ErrorCode::PositionHealthy)
            } else if repaid == 0 {
                Err(ErrorCode::InvalidLiquidationAmount)
            } else {
                match collateral_to_seize(pool, repaid, collateral_price, debt_price) {
                    Err(e) => Err(e),
                    Ok(seized) => if seized > account.collateral_amount {
                        Err(ErrorCode::InsufficientCollateral)
                    } else {
                        Ok(
                            (
                                UserAccount {
                                    debt_amount: (account.debt_amount - repaid) as u64,
                                    collateral_amount: (account.collateral_amount - seized) as u64,
                                    ..account
                                },
                                Liquidation { debt_repaid: repaid, collateral_seized: seized },
                            ),
                        )
                    },
                }
            }
        },
    }
}

/// Computes the health factor of a position at the given prices.
pub fn calculate_health_factor(
    pool: &LendingPool,
    account: &UserAccount,
    collateral_price: &Price,
    debt_price: &Price,
) -> (r: Result<u128, ErrorCode>)
    ensures
        r == health_factor(*pool, *account, *collateral_price, *debt_price),
{
    let collateral_value: u128 = match calculate_value(
        account.collateral_amount,
        collateral_price.price,
        collateral_price.exponent,
    ) {
        Ok(v) => v,
        Err(e) => {
            return Err(e);
        },
    };
    let debt_value: u128 = match calculate_value(
        account.debt_amount,
        debt_price.price,
        debt_price.exponent,
    ) {
        Ok(v) => v,
        Err(e) => {
            return Err(e);
        },
    };
    let threshold_adjusted_collateral: u128 = match checked_mul_div(
        collateral_value,
        pool.liquidation_threshold as u128,
        BPS_DENOMINATOR,
    ) {
        Ok(v) => v,
        Err(_) => {
            return Err(ErrorCode::MathOverflow);
        },
    };
    if debt_value == 0 {
        return Err(ErrorCode::NoDebt);
    }
    match checked_mul_div(threshold_adjusted_collateral, PRECISION, debt_value) {
        Ok(factor) => Ok(factor),
        Err(_) => Err(ErrorCode::MathOverflow),
    }
}

/// Computes the collateral that repaying `repaid` debt seizes.
pub fn calculate_collateral_to_seize(
    pool: &LendingPool,
    repaid: u64,
    collateral_price: &Price,
    debt_price: &Price,
) -> (r: Result<u64, ErrorCode>)
    ensures
        r == collateral_to_seize(*pool, repaid, *collateral_price, *debt_price),
{
    let debt_value_liquidated: u128 = match calculate_value(
        repaid,
        debt_price.price,
        debt_price.exponent,
    ) {
        Ok(v) => v,
        Err(e) => {
            return Err(e);
        },
    };
    let collateral_value_to_seize: u128 = match checked_mul_div(
        debt_value_liquidated,
        BPS_DENOMINATOR + pool.liquidation_bonus_bps as u128,
        BPS_DENOMINATOR,
    ) {
        Ok(v) => v,
        Err(_) => {
            return Err(ErrorCode::MathOverflow);
        },
    };
    calculate_amount_from_value(
        collateral_value_to_seize,
        collateral_price.price,
        collateral_price.exponent,
    )
}

/// Liquidates part of a position at the given prices, or leaves it as it
/// is and says which rule refused.
pub fn liquidate_at_prices(
    pool: &LendingPool,
    user_account: &mut UserAccount,
    collateral_price: &Price,
    debt_price: &Price,
    amount_to_liquidate: u64,
) -> (r: Result<Liquidation, ErrorCode>)
    ensures
        match liquidation_at_prices(
            *pool,
            *old(user_account),
            *collateral_price,
            *debt_price,
            amount_to_liquidate,
        ) {
            Ok((next, moved)) => r == Ok::<Liquidation, ErrorCode>(moved) && *final(user_account)
                == next,
            Err(e) => r == Err::<Liquidation, ErrorCode>(e) && *final(user_account) == *old(
                user_account,
            ),
        },
{
    let factor: u128 = match calculate_health_factor(
        pool,
        user_account,
        collateral_price,
        debt_price,
    ) {
        Ok(v) => v,
        Err(e) => {
            return Err(e);
        },
    };
    if factor >= PRECISION {
        return Err(ErrorCode::PositionHealthy);
    }
    let max_liquidatable: u64 = user_account.debt_amount / 2;
    let actual_liquidation: u64 = if amount_to_liquidate <= max_liquidatable {
        amount_to_liquidate
    } else {
        max_liquidatable
    };
    if actual_liquidation == 0 {
        return Err(ErrorCode::InvalidLiquidationAmount);
    }
    let seized: u64 = match calculate_collateral_to_seize(
        pool,
        actual_liquidation,
        collateral_price,
        debt_price,
    ) {
        Ok(v) => v,
        Err(e) => {
            return Err(e);
        },
    };
    if seized > user_account.collateral_amount {
        return Err(ErrorCode::InsufficientCollateral);
    }
    user_account.debt_amount = user_account.debt_amount - actual_liquidation;
    user_account.collateral_amount = user_account.collateral_amount - seized;
    Ok(Liquidation { debt_repaid: actual_liquidation, collateral_seized: seized })
}

/// What a liquidation does once the pool's two feed names have been read:
/// the collateral feed must name a feed and the update must yield a fresh
/// price for it, then the same for the debt feed, and then the position is
/// liquidated at those two prices.
pub open spec fn liquidation_with_feeds(
    ctx: ExecuteLiquidation,
    collateral_feed: Option<Seq<u8>>,
    debt_feed: Option<Seq<u8>>,
    now: i64,
    amount_to_liquidate: u64,
) -> Result<(UserAccount, Liquidation), LiquidationError> {
    match collateral_feed {
        None => Err(LiquidationError::Program(ErrorCode::InvalidFeedId)),
        Some(collateral_id) => match price_no_older_than(
            ctx.price_update,
            now,
            MAX_PRICE_AGE,
            collateral_id,
        ) {
            Err(e) => Err(LiquidationError::Oracle(e)),
            Ok(collateral_price) => match debt_feed {
                None => Err(LiquidationError::Program(ErrorCode::InvalidFeedId)),
                Some(debt_id) => match price_no_older_than(
                    ctx.price_update,
                    now,
                    MAX_PRICE_AGE,
                    debt_id,
                ) {
                    Err(e) => Err(LiquidationError::Oracle(e)),
                    Ok(debt_price) => match liquidation_at_prices(
                        ctx.pool,
                        ctx.user_account,
                        collateral_price,
                        debt_price,
                        amount_to_liquidate,
                    ) {
                        Err(e) => Err(LiquidationError::Program(e)),
                        Ok(done) => Ok(done),
                    },
                },
            },
        },
    }
}

/// A feed identifier as a sequence of bytes.
pub open spec fn feed_bytes(feed: Option<[u8; 32]>) -> Option<Seq<u8>> {
    match feed {
        None => None,
        Some(id) => Some(id@),
    }
}

/// Liquidates part of the position in `ctx`, given what the pool's two
/// feed names stand for. Only the position changes, and only on success.
pub fn liquidate_with_feeds(
    ctx: &mut ExecuteLiquidation,
    collateral_feed: Option<[u8; 32]>,
    debt_feed: Option<[u8; 32]>,
    now: i64,
    amount_to_liquidate: u64,
) -> (r: Result<Liquidation, LiquidationError>)
    ensures
        final(ctx).pool == old(ctx).pool,
        final(ctx).price_update == old(ctx).price_update,
        match liquidation_with_feeds(
            *old(ctx),
            feed_bytes(collateral_feed),
            feed_bytes(debt_feed),
            now,
            amount_to_liquidate,
        ) {
            Ok((next, moved)) => r == Ok::<Liquidation, LiquidationError>(moved)
                && final(ctx).user_account == next,
            Err(e) => r == Err::<Liquidation, LiquidationError>(e) && final(ctx).user_account
                == old(ctx).user_account,
        },
{
    let collateral_id: [u8; 32] = match collateral_feed {
        Some(id) => id,
        None => {
            return Err(LiquidationError::Program(ErrorCode::InvalidFeedId));
        },
    };
    let collateral_price: Price = match get_price_no_older_than(
        &ctx.price_update,
        now,
        MAX_PRICE_AGE,
        &collateral_id,
    ) {
        Ok(p) => p,
        Err(e) => {
            return Err(LiquidationError::Oracle(e));
        },
    };
    let debt_id: [u8; 32] = match debt_feed {
        Some(id) => id,
        None => {
            return Err(LiquidationError::Program(ErrorCode::InvalidFeedId));
        },
    };
    let debt_price: Price = match get_price_no_older_than(
        &ctx.price_update,
        now,
        MAX_PRICE_AGE,
        &debt_id,
    ) {
        Ok(p) => p,
        Err(e) => {
            return Err(LiquidationError::Oracle(e));
        },
    };
    match liquidate_at_prices(
        &ctx.pool,
        &mut ctx.user_account,
        &collateral_price,
        &debt_price,
        amount_to_liquidate,
    ) {
        Ok(moved) => Ok(moved),
        Err(e) => Err(LiquidationError::Program(e)),
    }
}

/// Liquidates part of the position in `ctx` at the prices that its price
/// update yields at time `now` for the pool's collateral and debt feeds.
/// Only the position changes, and only on success.
pub fn execute_liquidation(ctx: &mut ExecuteLiquidation, now: i64, amount_to_liquidate: u64) -> (r:
    Result<Liquidation, LiquidationError>)
    ensures
        final(ctx).pool == old(ctx).pool,
        final(ctx).price_update == old(ctx).price_update,
        match liquidation_with_feeds(
            *old(ctx),
            feed_id_of_name(old(ctx).pool.collateral_feed_id@),
            feed_id_of_name(old(ctx).pool.debt_feed_id@),
            now,
            amount_to_liquidate,
        ) {
            Ok((next, moved)) => r == Ok::<Liquidation, LiquidationError>(moved)
                && final(ctx).user_account == next,
            Err(e) => r == Err::<Liquidation, LiquidationError>(e) && final(ctx).user_account
                == old(ctx).user_account,
        },
{
    let collateral_feed: Option<[u8; 32]> = parse_feed_id(ctx.pool.collateral_feed_id.as_str());
    let debt_feed: Option<[u8; 32]> = parse_feed_id(ctx.pool.debt_feed_id.as_str());
    liquidate_with_feeds(ctx, collateral_feed, debt_feed, now, amount_to_liquidate)
}

} // verus!
