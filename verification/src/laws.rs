//! What holds of the operations on every input.
//!
//! Each law is stated over the outcome functions that the operations'
//! contracts are written in, so it holds of every call of the operation.
//! An operation that fails leaves its records as they were: that part of
//! each law is in the operation's own contract.

use crate::atomliq::{
    amount_of, decimal_shift, health_factor, liquidation_at_prices, value_of, ErrorCode,
    LendingPool, Liquidation, UserAccount, PRECISION as LIQUIDATION_PRECISION,
};
use crate::curve::{
    invariant_k, time_factor, time_ratio, yieldspace_out, MIN_TIME_TO_MATURITY, PRECISION,
    SECONDS_PER_YEAR,
};
use crate::fixed_point::{lemma_power_of_ten_step, magnitude, mul_div, power_of_ten};
use crate::ledger::{apply_all, balance_of, LedgerAction};
use crate::oracle::Price;
use crate::pool::{
    add_liquidity_outcome, claim_outcome, initialize_outcome, mark_matured_outcome,
    quote_outcome, redeem_actions, redeem_outcome, reserve_in, reserve_out, swap_outcome,
    tokenize_actions, tokenize_outcome, yield_share, AddLiquidity, AmmPool, ClaimYield,
    InitializeAmm, MarkMatured, RedeemPt, Swap, SwapReceipt, TokenizeYield, YieldErrors,
};
use anchor_lang::prelude::Pubkey;
use vstd::arithmetic::div_mod::{
    lemma_div_by_multiple, lemma_div_is_ordered, lemma_div_nonincreasing, lemma_div_pos_is_pos,
    lemma_fundamental_div_mod, lemma_mod_pos_bound,
};
use vstd::prelude::*;

verus! {

/// A pool initialized with a maturity in the future is active and has no
/// reserves.
pub proof fn law_initialize_active_and_empty(
    ctx: InitializeAmm,
    now: i64,
    maturity_timestamp: i64,
    underlying_mint: Pubkey,
)
    requires
        maturity_timestamp > now,
    ensures
        initialize_outcome(ctx, now, maturity_timestamp, underlying_mint) matches Ok(pool)
            && !pool.is_matured && pool.pt_reserve == 0 && pool.yt_reserve == 0
            && pool.maturity == maturity_timestamp,
{
}

/// Initializing with a maturity that is not in the future fails with
/// `InvalidMaturity`, and no pool record comes into being.
pub proof fn law_initialize_rejects_past_maturity(
    ctx: InitializeAmm,
    now: i64,
    maturity_timestamp: i64,
    underlying_mint: Pubkey,
)
    requires
        maturity_timestamp <= now,
    ensures
        initialize_outcome(ctx, now, maturity_timestamp, underlying_mint) == Err::<
            AmmPool,
            YieldErrors,
        >(YieldErrors::InvalidMaturity),
{
}

/// A deposit of a positive amount into an active pool, whose total still
/// fits, raises the recorded total by exactly that amount, changes nothing
/// else of the pool but the time of its last update, and asks the ledger
/// to take in exactly that amount and to issue exactly that amount of each
/// claim.
pub proof fn law_tokenize_records_deposit(ctx: TokenizeYield, now: i64, amount: u64)
    requires
        !ctx.amm.is_matured,
        amount > 0,
        ctx.amm.total_underlying + amount <= u64::MAX,
    ensures
        tokenize_outcome(ctx, now, amount) matches Ok((next, actions)) && next.amm.total_underlying
            == ctx.amm.total_underlying + amount && next == (TokenizeYield {
            amm: AmmPool {
                total_underlying: next.amm.total_underlying,
                last_yield_update: now,
                ..ctx.amm
            },
            ..ctx
        }) && actions == tokenize_actions(ctx, amount),
{
}

/// The accounts of a deposit are told apart: neither of the depositor's
/// two claim balances is the other one, the balance the deposit is taken
/// from, or the custody balance.
pub open spec fn tokenize_balances_distinct(ctx: TokenizeYield) -> bool {
    let principal = (ctx.amm.pt_mint, ctx.user_pt);
    let yield_claim = (ctx.amm.yt_mint, ctx.user_yt);
    let source = (ctx.amm.underlying_mint, ctx.user_underlying);
    let custody = (ctx.amm.underlying_mint, ctx.amm.vault);
    principal != yield_claim && principal != source && principal != custody && yield_claim
        != source && yield_claim != custody
}

/// Where the ledger performs the instructions of a deposit, the
/// depositor's balance of the principal claim and their balance of the
/// yield claim each grow by exactly the deposited amount.
pub proof fn law_tokenize_credits_both_claims(
    ctx: TokenizeYield,
    amount: u64,
    balances: Map<(Pubkey, Pubkey), nat>,
)
    requires
        tokenize_balances_distinct(ctx),
        apply_all(balances, tokenize_actions(ctx, amount)) is Some,
    ensures
        ({
            let after = apply_all(balances, tokenize_actions(ctx, amount))->Some_0;
            balance_of(after, ctx.amm.pt_mint, ctx.user_pt) == balance_of(
                balances,
                ctx.amm.pt_mint,
                ctx.user_pt,
            ) + amount && balance_of(after, ctx.amm.yt_mint, ctx.user_yt) == balance_of(
                balances,
                ctx.amm.yt_mint,
                ctx.user_yt,
            ) + amount
        }),
{
    let actions = tokenize_actions(ctx, amount);
    let rest1 = actions.subrange(1, 3);
    let rest2 = rest1.subrange(1, 2);
    let rest3 = rest2.subrange(1, 1);
    assert(rest1.len() == 2 && rest1[0] == actions[1]);
    assert(rest2.len() == 1 && rest2[0] == actions[2]);
    assert(rest3.len() == 0);
    reveal_with_fuel(apply_all, 4);
}

/// A deposit into a matured pool fails with `PoolMatured`.
pub proof fn law_tokenize_rejected_when_matured(ctx: TokenizeYield, now: i64, amount: u64)
    requires
        ctx.amm.is_matured,
    ensures
        tokenize_outcome(ctx, now, amount) == Err::<
            (TokenizeYield, Seq<LedgerAction>),
            YieldErrors,
        >(YieldErrors::PoolMatured),
{
}

/// A trade that goes through adds exactly `amount_in` to the reserve it
/// pays into and takes exactly the net output out of the other, so the sum
/// of the two reserves moves by their difference; nothing else of the pool
/// changes. The net output is never more than the gross output, and never
/// less than the trader's floor.
pub proof fn law_swap_moves_reserves(
    ctx: Swap,
    now: i64,
    amount_in: u64,
    min_amount_out: u64,
    is_pt_to_yt: bool,
)
    ensures
        swap_outcome(ctx, now, amount_in, min_amount_out, is_pt_to_yt) matches Ok((next, receipt))
            ==> {
            &&& reserve_in(next.amm, is_pt_to_yt) == reserve_in(ctx.amm, is_pt_to_yt) + amount_in
            &&& reserve_out(next.amm, is_pt_to_yt) == reserve_out(ctx.amm, is_pt_to_yt)
                - receipt.amount_out_net
            &&& next.amm.pt_reserve + next.amm.yt_reserve == ctx.amm.pt_reserve
                + ctx.amm.yt_reserve + amount_in - receipt.amount_out_net
            &&& receipt.amount_out_net + receipt.fee == receipt.amount_out_gross
            &&& receipt.amount_out_net <= receipt.amount_out_gross
            &&& receipt.amount_out_gross <= reserve_out(ctx.amm, is_pt_to_yt)
            &&& receipt.amount_out_net >= min_amount_out
            &&& next.amm == (AmmPool {
                pt_reserve: next.amm.pt_reserve,
                yt_reserve: next.amm.yt_reserve,
                ..ctx.amm
            })
        },
{
}

/// A trade whose net output is below the trader's floor fails with
/// `SlippageExceeded`.
pub proof fn law_swap_respects_floor(
    ctx: Swap,
    now: i64,
    amount_in: u64,
    min_amount_out: u64,
    is_pt_to_yt: bool,
)
    requires
        quote_outcome(ctx.amm, now, amount_in, is_pt_to_yt) matches Ok(receipt) && min_amount_out
            > receipt.amount_out_net,
    ensures
        swap_outcome(ctx, now, amount_in, min_amount_out, is_pt_to_yt) == Err::<
            (Swap, SwapReceipt),
            YieldErrors,
        >(YieldErrors::SlippageExceeded),
{
}

/// A trade against a pool with an empty reserve fails with
/// `InsufficientLiquidity`, whatever the curve would say.
pub proof fn law_swap_needs_both_reserves(
    ctx: Swap,
    now: i64,
    amount_in: u64,
    min_amount_out: u64,
    is_pt_to_yt: bool,
)
    requires
        !ctx.amm.is_matured,
        amount_in > 0,
        ctx.amm.pt_reserve == 0 || ctx.amm.yt_reserve == 0,
    ensures
        swap_outcome(ctx, now, amount_in, min_amount_out, is_pt_to_yt) == Err::<
            (Swap, SwapReceipt),
            YieldErrors,
        >(YieldErrors::InsufficientLiquidity),
{
}

/// Marking a pool as matured works exactly once: after the maturity, the
/// first call sets the flag, and any later call fails with
/// `AlreadyMatured` on a pool whose flag is still set.
pub proof fn law_mark_matured_once(ctx: MarkMatured, now: i64, later: i64)
    requires
        !ctx.amm.is_matured,
        now >= ctx.amm.maturity,
        later >= ctx.amm.maturity,
    ensures
        mark_matured_outcome(ctx, now) matches Ok(next) && next.amm.is_matured
            && next.amm == (AmmPool { is_matured: true, ..ctx.amm })
            && mark_matured_outcome(next, later) == Err::<MarkMatured, YieldErrors>(
            YieldErrors::AlreadyMatured,
        ),
{
}

/// Before the maturity no pool can be marked as matured.
pub proof fn law_mark_matured_waits_for_maturity(ctx: MarkMatured, now: i64)
    requires
        now < ctx.amm.maturity,
    ensures
        mark_matured_outcome(ctx, now) == Err::<MarkMatured, YieldErrors>(YieldErrors::NotMatured),
{
}

/// The matured flag is a latch: no operation clears it, and only
/// `mark_matured` sets it.
pub proof fn law_matured_never_reverts(
    tokenize: TokenizeYield,
    swap: Swap,
    liquidity: AddLiquidity,
    claim: ClaimYield,
    mark: MarkMatured,
    now: i64,
    amount: u64,
    other_amount: u64,
    is_pt_to_yt: bool,
)
    ensures
        tokenize_outcome(tokenize, now, amount) matches Ok((next, _)) ==> next.amm.is_matured
            == tokenize.amm.is_matured,
        swap_outcome(swap, now, amount, other_amount, is_pt_to_yt) matches Ok((next, _))
            ==> next.amm.is_matured == swap.amm.is_matured,
        add_liquidity_outcome(liquidity, amount, other_amount) matches Ok(next)
            ==> next.amm.is_matured == liquidity.amm.is_matured,
        claim_outcome(claim, now, amount) matches Ok((next, _)) ==> next.amm.is_matured
            == claim.amm.is_matured,
        mark_matured_outcome(mark, now) matches Ok(next) ==> next.amm.is_matured && now
            >= mark.amm.maturity,
{
}

/// What identifies a pool and what it was configured with.
pub open spec fn configuration(pool: AmmPool) -> (
    Pubkey,
    Pubkey,
    Pubkey,
    Pubkey,
    Pubkey,
    i64,
    u16,
) {
    (
        pool.authority,
        pool.underlying_mint,
        pool.vault,
        pool.pt_mint,
        pool.yt_mint,
        pool.maturity,
        pool.fee_basis_points,
    )
}

/// No operation changes a pool's identifiers, its maturity or its fee, the
/// recorded deposits never shrink, and the accrued yield never grows.
pub proof fn law_pool_configuration_is_fixed(
    tokenize: TokenizeYield,
    swap: Swap,
    liquidity: AddLiquidity,
    claim: ClaimYield,
    mark: MarkMatured,
    now: i64,
    amount: u64,
    other_amount: u64,
    is_pt_to_yt: bool,
)
    ensures
        tokenize_outcome(tokenize, now, amount) matches Ok((next, _)) ==> configuration(next.amm)
            == configuration(tokenize.amm) && next.amm.total_underlying
            >= tokenize.amm.total_underlying && next.amm.total_yield_accrued
            == tokenize.amm.total_yield_accrued,
        swap_outcome(swap, now, amount, other_amount, is_pt_to_yt) matches Ok((next, _))
            ==> configuration(next.amm) == configuration(swap.amm) && next.amm.total_underlying
            == swap.amm.total_underlying && next.amm.total_yield_accrued
            == swap.amm.total_yield_accrued,
        add_liquidity_outcome(liquidity, amount, other_amount) matches Ok(next) ==> configuration(
            next.amm,
        ) == configuration(liquidity.amm) && next.amm.total_underlying
            == liquidity.amm.total_underlying && next.amm.total_yield_accrued
            == liquidity.amm.total_yield_accrued,
        claim_outcome(claim, now, amount) matches Ok((next, _)) ==> configuration(next.amm)
            == configuration(claim.amm) && next.amm.total_underlying == claim.amm.total_underlying
            && next.amm.total_yield_accrued <= claim.amm.total_yield_accrued,
        mark_matured_outcome(mark, now) matches Ok(next) ==> configuration(next.amm)
            == configuration(mark.amm) && next.amm.total_underlying == mark.amm.total_underlying
            && next.amm.total_yield_accrued == mark.amm.total_yield_accrued,
{
    if claim.amm.yt_reserve > 0 {
        assert(0 <= (amount * claim.user_yt_amount) / (claim.amm.yt_reserve as int))
            by (nonlinear_arith)
            requires
                0 <= amount,
                0 <= claim.user_yt_amount,
                0 < claim.amm.yt_reserve,
        ;
    }
}

/// Once a pool is matured it takes no deposit, no trade and no liquidity.
pub proof fn law_matured_pool_is_frozen(
    tokenize: TokenizeYield,
    swap: Swap,
    liquidity: AddLiquidity,
    now: i64,
    amount: u64,
    other_amount: u64,
    is_pt_to_yt: bool,
)
    requires
        tokenize.amm.is_matured,
        swap.amm.is_matured,
        liquidity.amm.is_matured,
    ensures
        tokenize_outcome(tokenize, now, amount) matches Err(e) && e == YieldErrors::PoolMatured,
        swap_outcome(swap, now, amount, other_amount, is_pt_to_yt) matches Err(e) && e
            == YieldErrors::PoolMatured,
        add_liquidity_outcome(liquidity, amount, other_amount) matches Err(e) && e
            == YieldErrors::PoolMatured,
{
}

/// Redemption is open exactly on a matured pool: before, it fails with
/// `NotMatured`; after, a positive amount is redeemed by destroying exactly
/// that amount of the principal claim and paying exactly that amount of
/// the underlying out of custody.
pub proof fn law_redeem_gated_by_maturity(ctx: RedeemPt, amount: u64)
    ensures
        !ctx.amm.is_matured ==> redeem_outcome(ctx, amount) == Err::<
            Seq<LedgerAction>,
            YieldErrors,
        >(YieldErrors::NotMatured),
        ctx.amm.is_matured && amount > 0 ==> redeem_outcome(ctx, amount) == Ok::<
            Seq<LedgerAction>,
            YieldErrors,
        >(
            seq![
                LedgerAction::Burn { claim: ctx.amm.pt_mint, from: ctx.user_pt, amount },
                LedgerAction::Transfer {
                    asset: ctx.amm.underlying_mint,
                    from: ctx.amm.vault,
                    to: ctx.user_underlying,
                    amount,
                },
            ],
        ),
{
}

/// The accounts of a redemption are told apart: the redeemer's balance of
/// the principal claim, the custody balance and the balance that is paid
/// are three balances.
pub open spec fn redeem_balances_distinct(ctx: RedeemPt) -> bool {
    let principal = (ctx.amm.pt_mint, ctx.user_pt);
    let custody = (ctx.amm.underlying_mint, ctx.amm.vault);
    let target = (ctx.amm.underlying_mint, ctx.user_underlying);
    principal != custody && principal != target && custody != target
}

/// Where the ledger performs the instructions of a redemption, the
/// redeemer's balance of the principal claim shrinks by exactly the
/// redeemed amount, custody shrinks by it, and the redeemer's balance of
/// the underlying grows by it.
pub proof fn law_redeem_is_one_for_one(
    ctx: RedeemPt,
    amount: u64,
    balances: Map<(Pubkey, Pubkey), nat>,
)
    requires
        redeem_balances_distinct(ctx),
        apply_all(balances, redeem_actions(ctx, amount)) is Some,
    ensures
        ({
            let after = apply_all(balances, redeem_actions(ctx, amount))->Some_0;
            &&& balance_of(after, ctx.amm.pt_mint, ctx.user_pt) + amount == balance_of(
                balances,
                ctx.amm.pt_mint,
                ctx.user_pt,
            )
            &&& balance_of(after, ctx.amm.underlying_mint, ctx.amm.vault) + amount == balance_of(
                balances,
                ctx.amm.underlying_mint,
                ctx.amm.vault,
            )
            &&& balance_of(after, ctx.amm.underlying_mint, ctx.user_underlying) == balance_of(
                balances,
                ctx.amm.underlying_mint,
                ctx.user_underlying,
            ) + amount
        }),
{
    let actions = redeem_actions(ctx, amount);
    let rest1 = actions.subrange(1, 2);
    let rest2 = rest1.subrange(1, 1);
    assert(rest1.len() == 1 && rest1[0] == actions[1]);
    assert(rest2.len() == 0);
    reveal_with_fuel(apply_all, 3);
}

/// A claim never takes more than the pool has accrued: where it goes
/// through, the share it pays is the claimant's proportional share, it is
/// covered by the accrued yield, and the accrued yield shrinks by exactly
/// the share.
pub proof fn law_claim_bounded_by_accrued_yield(ctx: ClaimYield, now: i64, amount: u64)
    ensures
        claim_outcome(ctx, now, amount) matches Ok((next, actions)) ==> {
            let share = yield_share(amount, ctx.user_yt_amount, ctx.amm.yt_reserve);
            &&& 0 <= share <= ctx.amm.total_yield_accrued
            &&& next.amm.total_yield_accrued + share == ctx.amm.total_yield_accrued
            &&& actions == seq![
                LedgerAction::Transfer {
                    asset: ctx.amm.underlying_mint,
                    from: ctx.amm.vault,
                    to: ctx.user_underlying,
                    amount: share as u64,
                },
            ]
        },
        amount > 0 && ctx.user_yt_amount > 0 && ctx.amm.yt_reserve > 0 && yield_share(
            amount,
            ctx.user_yt_amount,
            ctx.amm.yt_reserve,
        ) > ctx.amm.total_yield_accrued ==> (claim_outcome(ctx, now, amount) matches Err(e) && e
            == YieldErrors::InsufficientYield),
{
    if ctx.amm.yt_reserve > 0 {
        assert(0 <= (amount * ctx.user_yt_amount) / (ctx.amm.yt_reserve as int))
            by (nonlinear_arith)
            requires
                0 <= amount,
                0 <= ctx.user_yt_amount,
                0 < ctx.amm.yt_reserve,
        ;
    }
}

/// One year before maturity the curve is flat: a trade that the paying
/// reserve can cover is priced one for one.
pub proof fn law_curve_flat_at_one_year(reserve_in: u64, reserve_out: u64, amount_in: u64)
    requires
        amount_in <= reserve_out,
    ensures
        time_ratio(SECONDS_PER_YEAR) == PRECISION,
        invariant_k(reserve_in, reserve_out, SECONDS_PER_YEAR) == reserve_in + reserve_out,
        yieldspace_out(reserve_in, reserve_out, amount_in, SECONDS_PER_YEAR) == Ok::<
            u64,
            YieldErrors,
        >(amount_in),
{
}

/// Within a day of the maturity, and past it, the curve prices as it does
/// one day before the maturity.
pub proof fn law_curve_floor_is_one_day(
    reserve_in: u64,
    reserve_out: u64,
    amount_in: u64,
    time_to_maturity: i64,
)
    requires
        time_to_maturity <= MIN_TIME_TO_MATURITY,
    ensures
        time_factor(time_to_maturity) == MIN_TIME_TO_MATURITY,
        yieldspace_out(reserve_in, reserve_out, amount_in, time_to_maturity) == yieldspace_out(
            reserve_in,
            reserve_out,
            amount_in,
            MIN_TIME_TO_MATURITY,
        ),
{
}

/// A trade moves the reserves onto the curve: before fees, the reserve
/// that took `amount_in` and the reserve that paid the output sum to `k`.
/// The output is therefore never more than the paying reserve holds.
pub proof fn law_curve_moves_reserves_onto_k(
    reserve_in: u64,
    reserve_out: u64,
    amount_in: u64,
    time_to_maturity: i64,
)
    ensures
        yieldspace_out(reserve_in, reserve_out, amount_in, time_to_maturity) matches Ok(amount_out)
            ==> amount_out <= reserve_out && (reserve_in + amount_in) + (reserve_out - amount_out)
            == invariant_k(reserve_in, reserve_out, time_to_maturity),
{
}

/// A liquidation that goes through repays something, but no more than the
/// liquidator offered and no more than half of the debt; it seizes no more
/// collateral than the position holds; and it happens only to a position
/// whose health factor is below one. Nothing else of the position changes.
pub proof fn law_liquidation_is_bounded(
    pool: LendingPool,
    account: UserAccount,
    collateral_price: Price,
    debt_price: Price,
    amount_to_liquidate: u64,
)
    ensures
        liquidation_at_prices(pool, account, collateral_price, debt_price, amount_to_liquidate)
            matches Ok((next, moved)) ==> {
            &&& 0 < moved.debt_repaid <= amount_to_liquidate
            &&& moved.debt_repaid <= account.debt_amount / 2
            &&& moved.collateral_seized <= account.collateral_amount
            &&& next.debt_amount + moved.debt_repaid == account.debt_amount
            &&& next.collateral_amount + moved.collateral_seized == account.collateral_amount
            &&& next.owner == account.owner
            &&& next.pool == account.pool
            &&& health_factor(pool, account, collateral_price, debt_price) matches Ok(factor)
                && factor < LIQUIDATION_PRECISION
        },
{
}

/// A position whose health factor is one or more cannot be liquidated.
pub proof fn law_healthy_position_is_safe(
    pool: LendingPool,
    account: UserAccount,
    collateral_price: Price,
    debt_price: Price,
    amount_to_liquidate: u64,
)
    requires
        health_factor(pool, account, collateral_price, debt_price) matches Ok(factor) && factor
            >= LIQUIDATION_PRECISION,
    ensures
        liquidation_at_prices(pool, account, collateral_price, debt_price, amount_to_liquidate)
            == Err::<(UserAccount, Liquidation), ErrorCode>(ErrorCode::PositionHealthy),
{
}

/// Multiplying and dividing rounds toward zero: the quotient is the
/// largest whole number whose product with the divisor does not exceed the
/// product of the two factors.
pub proof fn law_mul_div_rounds_toward_zero(a: u128, b: u128, d: u128)
    ensures
        mul_div(a, b, d) matches Ok(q) ==> q * d <= a * b < (q + 1) * d,
{
    if a * b <= u128::MAX && d != 0 {
        let x: int = a * b;
        let q: int = x / (d as int);
        lemma_fundamental_div_mod(x, d as int);
        lemma_mod_pos_bound(x, d as int);
        lemma_div_pos_is_pos(x, d as int);
        lemma_div_nonincreasing(x, d as int);
        assert(q * d == d * q && (q + 1) * d == d * q + d) by (nonlinear_arith);
    }
}

/// At a price with a non-negative exponent, valuing an amount and
/// converting the value back yields the amount: nothing is lost to
/// rounding.
pub proof fn law_value_converts_back(amount: u64, price: i64, exponent: i32)
    requires
        exponent >= 0,
        price != 0,
        value_of(amount, price, exponent) is Ok,
    ensures
        amount_of(value_of(amount, price, exponent)->Ok_0, price, exponent) == Ok::<
            u64,
            ErrorCode,
        >(amount),
{
    let p: int = magnitude(price)->Ok_0 as int;
    let s: int = power_of_ten(decimal_shift(exponent)) as int;
    let scaled: int = amount * LIQUIDATION_PRECISION;
    lemma_power_of_ten_step(decimal_shift(exponent));
    assert(scaled * p * s == (scaled * s) * p) by (nonlinear_arith);
    assert(0 <= scaled * s) by (nonlinear_arith)
        requires
            0 <= scaled,
            0 <= s,
    ;
    lemma_div_by_multiple(scaled * s, p);
    lemma_div_by_multiple(scaled, s);
}

/// At any price, converting the value of an amount back never yields more
/// than the amount: rounding works against whoever converts.
pub proof fn law_value_never_converts_to_more(amount: u64, price: i64, exponent: i32)
    requires
        value_of(amount, price, exponent) is Ok,
        amount_of(value_of(amount, price, exponent)->Ok_0, price, exponent) is Ok,
    ensures
        amount_of(value_of(amount, price, exponent)->Ok_0, price, exponent)->Ok_0 <= amount,
{
    if exponent >= 0 {
        law_value_converts_back(amount, price, exponent);
    } else {
        let p: int = magnitude(price)->Ok_0 as int;
        let s: int = power_of_ten(decimal_shift(exponent)) as int;
        let scaled: int = amount * LIQUIDATION_PRECISION;
        let product: int = scaled * p;
        let value: int = product / s;
        lemma_power_of_ten_step(decimal_shift(exponent));
        assert(0 <= scaled * p) by (nonlinear_arith)
            requires
                0 <= scaled,
                0 <= p,
        ;
        lemma_fundamental_div_mod(product, s);
        lemma_mod_pos_bound(product, s);
        lemma_div_pos_is_pos(product, s);
        assert(value * s == s * value) by (nonlinear_arith);
        assert(value * s <= scaled * p);
        assert(0 <= value * s) by (nonlinear_arith)
            requires
                0 <= value,
                0 <= s,
        ;
        lemma_div_is_ordered(value * s, scaled * p, p);
        lemma_div_by_multiple(scaled, p);
        lemma_div_pos_is_pos(value * s, p);
        lemma_div_is_ordered((value * s) / p, scaled, LIQUIDATION_PRECISION as int);
    }
}

} // verus!
