//! The pool record and its lifecycle: initialize, tokenize, trade, add
//! liquidity, mature, redeem, claim.
//!
//! Every operation is one step of a state machine over the pool record. It
//! takes the records it works on by exclusive reference, together with the
//! current time where it depends on it, and either commits a fully computed
//! update or leaves every record as it found it. What an operation asks of
//! the ledger it returns as a list of instructions.

use crate::curve::{calculate_yieldspace_out, yieldspace_out};
use crate::fixed_point::checked_mul_div;
use crate::ledger::LedgerAction;
use anchor_lang::prelude::Pubkey;
use vstd::prelude::*;

verus! {

/// The fee of a new pool: 0.3% of a trade's gross output.
pub const DEFAULT_FEE_BASIS_POINTS: u16 = 30;

/// One whole, in basis points.
pub const BPS_DENOMINATOR: u128 = 10_000;

/// Why a pool operation fails.
#[derive(Clone, Copy, Debug, PartialEq, Eq, Structural)]
pub enum YieldErrors {
    SlippageExceeded,
    MathOverflow,
    InvalidMaturity,
    NotMatured,
    AlreadyMatured,
    PoolMatured,
    InvalidAmount,
    InsufficientLiquidity,
    NoYtBalance,
    InsufficientYield,
}

impl YieldErrors {
    /// The text that explains the error.
    pub open spec fn message_text(self) -> Seq<char> {
        match self {
            YieldErrors::SlippageExceeded => "Slippage limit exceeded"@,
            YieldErrors::MathOverflow => "Math overflow"@,
            YieldErrors::InvalidMaturity => "Invalid maturity timestamp"@,
            YieldErrors::NotMatured => "Pool has not matured yet"@,
            YieldErrors::AlreadyMatured => "Pool is already matured"@,
            YieldErrors::PoolMatured => "Pool has matured, no new operations allowed"@,
            YieldErrors::InvalidAmount => "Invalid amount"@,
            YieldErrors::InsufficientLiquidity => "Insufficient liquidity"@,
            YieldErrors::NoYtBalance => "No YT balance"@,
            YieldErrors::InsufficientYield => "Insufficient yield available"@,
        }
    }

    /// Explains the error in words.
    pub fn message(&self) -> (text: &'static str)
        ensures
            text@ == self.message_text(),
    {
        match self {
            YieldErrors::SlippageExceeded => "Slippage limit exceeded",
            YieldErrors::MathOverflow => "Math overflow",
            YieldErrors::InvalidMaturity => "Invalid maturity timestamp",
            YieldErrors::NotMatured => "Pool has not matured yet",
            YieldErrors::AlreadyMatured => "Pool is already matured",
            YieldErrors::PoolMatured => "Pool has matured, no new operations allowed",
            YieldErrors::InvalidAmount => "Invalid amount",
            YieldErrors::InsufficientLiquidity => "Insufficient liquidity",
            YieldErrors::NoYtBalance => "No YT balance",
            YieldErrors::InsufficientYield => "Insufficient yield available",
        }
    }
}

/// The record of one pool: one underlying asset and one maturity.
#[derive(Clone, Copy, Debug, PartialEq, Eq)]
pub struct AmmPool {
    pub authority: Pubkey,
    /// The deposited asset.
    pub underlying_mint: Pubkey,
    /// The custody account that holds the deposits.
    pub vault: Pubkey,
    /// The principal claim.
    pub pt_mint: Pubkey,
    /// The yield claim.
    pub yt_mint: Pubkey,
    /// When trading stops and redemption opens.
    pub maturity: i64,
    /// Curve liquidity of the principal claim.
    pub pt_reserve: u64,
    /// Curve liquidity of the yield claim.
    pub yt_reserve: u64,
    pub total_underlying: u64,
    pub total_yield_accrued: u64,
    pub fee_basis_points: u16,
    pub last_yield_update: i64,
    /// Set once, by `mark_matured`, and never cleared.
    pub is_matured: bool,
}

/// The accounts that creating a pool names.
#[derive(Clone, Copy, Debug, PartialEq, Eq)]
pub struct InitializeAmm {
    pub vault: Pubkey,
    pub pt_mint: Pubkey,
    pub yt_mint: Pubkey,
    pub authority: Pubkey,
}

/// The pool and the depositor's three accounts.
#[derive(Clone, Copy, Debug, PartialEq, Eq)]
pub struct TokenizeYield {
    pub amm: AmmPool,
    pub user_underlying: Pubkey,
    pub user_pt: Pubkey,
    pub user_yt: Pubkey,
}

/// The pool that a trade runs against.
#[derive(Clone, Copy, Debug, PartialEq, Eq)]
pub struct Swap {
    pub amm: AmmPool,
}

/// The pool and the redeemer's two accounts.
#[derive(Clone, Copy, Debug, PartialEq, Eq)]
pub struct RedeemPt {
    pub amm: AmmPool,
    pub user_pt: Pubkey,
    pub user_underlying: Pubkey,
}

/// The pool, the claimant's holding of the yield claim, and the account
/// that the claimed yield goes to.
#[derive(Clone, Copy, Debug, PartialEq, Eq)]
pub struct ClaimYield {
    pub amm: AmmPool,
    pub user_yt_amount: u64,
    pub user_underlying: Pubkey,
}

/// The pool that receives liquidity.
#[derive(Clone, Copy, Debug, PartialEq, Eq)]
pub struct AddLiquidity {
    pub amm: AmmPool,
}

/// The pool to be marked as matured.
#[derive(Clone, Copy, Debug, PartialEq, Eq)]
pub struct MarkMatured {
    pub amm: AmmPool,
}

/// What a trade paid: the curve's output, the fee taken from it, and what
/// is left for the trader.
#[derive(Clone, Copy, Debug, PartialEq, Eq, Structural)]
pub struct SwapReceipt {
    pub amount_out_gross: u64,
    pub fee: u64,
    pub amount_out_net: u64,
}

/// The pool that `initialize_amm` creates: no reserves, nothing deposited
/// or accrued, the default fee, not matured.
pub open spec fn initialize_outcome(
    ctx: InitializeAmm,
    now: i64,
    maturity_timestamp: i64,
    underlying_mint: Pubkey,
) -> Result<AmmPool, YieldErrors> {
    if maturity_timestamp <= now {
        Err(YieldErrors::InvalidMaturity)
    } else {
        Ok(
            AmmPool {
                authority: ctx.authority,
                underlying_mint,
                vault: ctx.vault,
                pt_mint: ctx.pt_mint,
                yt_mint: ctx.yt_mint,
                maturity: maturity_timestamp,
                pt_reserve: 0,
                yt_reserve: 0,
                total_underlying: 0,
                total_yield_accrued: 0,
                fee_basis_points: DEFAULT_FEE_BASIS_POINTS,
                last_yield_update: now,
                is_matured: false,
            },
        )
    }
}

/// Creates the record of a pool that matures at `maturity_timestamp`,
/// which must lie after `now`.
pub fn initialize_amm(
    ctx: &InitializeAmm,
    now: i64,
    maturity_timestamp: i64,
    underlying_mint: Pubkey,
) -> (r: Result<AmmPool, YieldErrors>)
    ensures
        r == initialize_outcome(*ctx, now, maturity_timestamp, underlying_mint),
{
    if maturity_timestamp <= now {
        return Err(YieldErrors::InvalidMaturity);
    }
    Ok(
        AmmPool {
            authority: ctx.authority,
            underlying_mint,
            vault: ctx.vault,
            pt_mint: ctx.pt_mint,
            yt_mint: ctx.yt_mint,
            maturity: maturity_timestamp,
            pt_reserve: 0,
            yt_reserve: 0,
            total_underlying: 0,
            total_yield_accrued: 0,
            fee_basis_points: DEFAULT_FEE_BASIS_POINTS,
            last_yield_update: now,
            is_matured: false,
        },
    )
}

/// What a deposit of `amount` asks of the ledger: the underlying moves from
/// the depositor into custody, and the depositor is issued the same amount
/// of each claim.
pub open spec fn tokenize_actions(ctx: TokenizeYield, amount: u64) -> Seq<LedgerAction> {
    seq![
        LedgerAction::Transfer {
            asset: ctx.amm.underlying_mint,
            from: ctx.user_underlying,
            to: ctx.amm.vault,
            amount,
        },
        LedgerAction::Mint { claim: ctx.amm.pt_mint, to: ctx.user_pt, amount },
        LedgerAction::Mint { claim: ctx.amm.yt_mint, to: ctx.user_yt, amount },
    ]
}

/// What `tokenize_yield` does: on an active pool, a deposit of a positive
/// amount whose total fits is recorded, the time of the update is noted,
/// and the ledger is asked for [`tokenize_actions`].
pub open spec fn tokenize_outcome(ctx: TokenizeYield, now: i64, amount: u64) -> Result<
    (TokenizeYield, Seq<LedgerAction>),
    YieldErrors,
> {
    if ctx.amm.is_matured {
        Err(YieldErrors::PoolMatured)
    } else if amount == 0 {
        Err(YieldErrors::InvalidAmount)
    } else if ctx.amm.total_underlying + amount > u64::MAX {
        Err(YieldErrors::MathOverflow)
    } else {
        Ok(
            (
                TokenizeYield {
                    amm: AmmPool {
                        total_underlying: (ctx.amm.total_underlying + amount) as u64,
                        last_yield_update: now,
                        ..ctx.amm
                    },
                    ..ctx
                },
                tokenize_actions(ctx, amount),
            ),
        )
    }
}

/// Deposits `amount` of the underlying and splits it into the two claims.
pub fn tokenize_yield(ctx: &mut TokenizeYield, now: i64, amount: u64) -> (r: Result<
    Vec<LedgerAction>,
    YieldErrors,
>)
    ensures
        match tokenize_outcome(*old(ctx), now, amount) {
            Ok((next, actions)) => r matches Ok(v) && v@ == actions && *final(ctx) == next,
            Err(e) => r matches Err(x) && x == e && *final(ctx) == *old(ctx),
        },
{
    if ctx.amm.is_matured {
        return Err(YieldErrors::PoolMatured);
    }
    if amount == 0 {
        return Err(YieldErrors::InvalidAmount);
    }
    let total: u64 = match ctx.amm.total_underlying.checked_add(amount) {
        Some(total) => total,
        None => {
            return Err(YieldErrors::MathOverflow);
        },
    };
    let actions: Vec<LedgerAction> = vec![
        LedgerAction::Transfer {
            asset: ctx.amm.underlying_mint,
            from: ctx.user_underlying,
            to: ctx.amm.vault,
            amount,
        },
        LedgerAction::Mint { claim: ctx.amm.pt_mint, to: ctx.user_pt, amount },
        LedgerAction::Mint { claim: ctx.amm.yt_mint, to: ctx.user_yt, amount },
    ];
    assert(actions@ =~= tokenize_actions(*old(ctx), amount));
    ctx.amm.total_underlying = total;
    ctx.amm.last_yield_update = now;
    Ok(actions)
}

/// The fee on a trade's gross output, rounded toward zero.
pub open spec fn trade_fee(amount_out_gross: u64, fee_basis_points: u16) -> int {
    (amount_out_gross * fee_basis_points) / (BPS_DENOMINATOR as int)
}

/// The reserve that a trade adds to.
pub open spec fn reserve_in(pool: AmmPool, is_pt_to_yt: bool) -> u64 {
    if is_pt_to_yt {
        pool.pt_reserve
    } else {
        pool.yt_reserve
    }
}

/// The reserve that a trade pays out of.
pub open spec fn reserve_out(pool: AmmPool, is_pt_to_yt: bool) -> u64 {
    if is_pt_to_yt {
        pool.yt_reserve
    } else {
        pool.pt_reserve
    }
}

/// What a trade of `amount_in` would pay at time `now`.
///
/// The pool must be active, the amount positive and both reserves funded;
/// the time to maturity must fit 64 bits; the curve prices the trade; and
/// the fee may not exceed the gross output.
pub open spec fn quote_outcome(
    pool: AmmPool,
    now: i64,
    amount_in: u64,
    is_pt_to_yt: bool,
) -> Result<SwapReceipt, YieldErrors> {
    if pool.is_matured {
        Err(YieldErrors::PoolMatured)
    } else if amount_in == 0 {
        Err(YieldErrors::InvalidAmount)
    } else if pool.pt_reserve == 0 || pool.yt_reserve == 0 {
        Err(YieldErrors::InsufficientLiquidity)
    } else if pool.maturity - now > i64::MAX || pool.maturity - now < i64::MIN {
        Err(YieldErrors::MathOverflow)
    } else {
        match yieldspace_out(
            reserve_in(pool, is_pt_to_yt),
            reserve_out(pool, is_pt_to_yt),
            amount_in,
            (pool.maturity - now) as i64,
        ) {
            Err(e) => Err(e),
            Ok(gross) => if trade_fee(gross, pool.fee_basis_points) > gross {
                Err(YieldErrors::MathOverflow)
            } else {
                Ok(
                    SwapReceipt {
                        amount_out_gross: gross,
                        fee: trade_fee(gross, pool.fee_basis_points) as u64,
                        amount_out_net: (gross - trade_fee(gross, pool.fee_basis_points)) as u64,
                    },
                )
            },
        }
    }
}

/// What `swap` does: the quoted trade goes through where it pays at least
/// `min_amount_out` and the growing reserve fits; then `amount_in` is added
/// to the one reserve and the net output leaves the other.
pub open spec fn swap_outcome(
    ctx: Swap,
    now: i64,
    amount_in: u64,
    min_amount_out: u64,
    is_pt_to_yt: bool,
) -> Result<(Swap, SwapReceipt), YieldErrors> {
    match quote_outcome(ctx.amm, now, amount_in, is_pt_to_yt) {
        Err(e) => Err(e),
        Ok(receipt) => if receipt.amount_out_net < min_amount_out {
            Err(YieldErrors::SlippageExceeded)
        } else if reserve_in(ctx.amm, is_pt_to_yt) + amount_in > u64::MAX {
            Err(YieldErrors::MathOverflow)
        } else if is_pt_to_yt {
            Ok(
                (
                    Swap {
                        amm: AmmPool {
                            pt_reserve: (ctx.amm.pt_reserve + amount_in) as u64,
                            yt_reserve: (ctx.amm.yt_reserve - receipt.amount_out_net) as u64,
                            ..ctx.amm
                        },
                    },
                    receipt,
                ),
            )
        } else {
            Ok(
                (
                    Swap {
                        amm: AmmPool {
                            yt_reserve: (ctx.amm.yt_reserve + amount_in) as u64,
                            pt_reserve: (ctx.amm.pt_reserve - receipt.amount_out_net) as u64,
                            ..ctx.amm
                        },
                    },
                    receipt,
                ),
            )
        },
    }
}

/// The product of two 64-bit quantities fits 128 bits.
proof fn lemma_product_fits(a: u64, b: u64)
    ensures
        a * b <= u128::MAX,
{
    assert(a * b <= 0xffff_ffff_ffff_ffff * 0xffff_ffff_ffff_ffff) by (nonlinear_arith)
        requires
            0 <= a <= 0xffff_ffff_ffff_ffff,
            0 <= b <= 0xffff_ffff_ffff_ffff,
    ;
}

/// Prices a trade of `amount_in` at time `now` without changing the pool.
pub fn quote_swap(pool: &AmmPool, now: i64, amount_in: u64, is_pt_to_yt: bool) -> (r: Result<
    SwapReceipt,
    YieldErrors,
>)
    ensures
        r == quote_outcome(*pool, now, amount_in, is_pt_to_yt),
        r matches Ok(receipt) ==> receipt.amount_out_net + receipt.fee == receipt.amount_out_gross
            && receipt.amount_out_gross <= reserve_out(*pool, is_pt_to_yt),
{
    if pool.is_matured {
        return Err(YieldErrors::PoolMatured);
    }
    if amount_in == 0 {
        return Err(YieldErrors::InvalidAmount);
    }
    if pool.pt_reserve == 0 || pool.yt_reserve == 0 {
        return Err(YieldErrors::InsufficientLiquidity);
    }
    let (reserve_in, reserve_out): (u64, u64) = if is_pt_to_yt {
        (pool.pt_reserve, pool.yt_reserve)
    } else {
        (pool.yt_reserve, pool.pt_reserve)
    };
    let time_to_maturity: i64 = match pool.maturity.checked_sub(now) {
        Some(t) => t,
        None => {
            return Err(YieldErrors::MathOverflow);
        },
    };
    let amount_out_gross: u64 = match calculate_yieldspace_out(
        reserve_in,
        reserve_out,
        amount_in,
        time_to_maturity,
    ) {
        Ok(gross) => gross,
        Err(e) => {
            return Err(e);
        },
    };
    proof {
        lemma_product_fits(amount_out_gross, pool.fee_basis_points as u64);
    }
    let fee: u128 = match checked_mul_div(
        amount_out_gross as u128,
        pool.fee_basis_points as u128,
        BPS_DENOMINATOR,
    ) {
        Ok(fee) => fee,
        Err(_) => {
            return Err(YieldErrors::MathOverflow);
        },
    };
    if fee > amount_out_gross as u128 {
        return Err(YieldErrors::MathOverflow);
    }
    Ok(
        SwapReceipt {
            amount_out_gross,
            fee: fee as u64,
            amount_out_net: amount_out_gross - fee as u64,
        },
    )
}

/// Trades `amount_in` of one claim for the other along the curve, for no
/// less than `min_amount_out` after the fee.
pub fn swap(
    ctx: &mut Swap,
    now: i64,
    amount_in: u64,
    min_amount_out: u64,
    is_pt_to_yt: bool,
) -> (r: Result<SwapReceipt, YieldErrors>)
    ensures
        match swap_outcome(*old(ctx), now, amount_in, min_amount_out, is_pt_to_yt) {
            Ok((next, receipt)) => *final(ctx) == next && r == Ok::<SwapReceipt, YieldErrors>(
                receipt,
            ),
            Err(e) => *final(ctx) == *old(ctx) && r == Err::<SwapReceipt, YieldErrors>(e),
        },
{
    let receipt: SwapReceipt = match quote_swap(&ctx.amm, now, amount_in, is_pt_to_yt) {
        Ok(receipt) => receipt,
        Err(e) => {
            return Err(e);
        },
    };
    if receipt.amount_out_net < min_amount_out {
        return Err(YieldErrors::SlippageExceeded);
    }
    if is_pt_to_yt {
        let pt_reserve: u64 = match ctx.amm.pt_reserve.checked_add(amount_in) {
            Some(v) => v,
            None => {
                return Err(YieldErrors::MathOverflow);
            },
        };
        ctx.amm.pt_reserve = pt_reserve;
        ctx.amm.yt_reserve = ctx.amm.yt_reserve - receipt.amount_out_net;
    } else {
        let yt_reserve: u64 = match ctx.amm.yt_reserve.checked_add(amount_in) {
            Some(v) => v,
            None => {
                return Err(YieldErrors::MathOverflow);
            },
        };
        ctx.amm.yt_reserve = yt_reserve;
        ctx.amm.pt_reserve = ctx.amm.pt_reserve - receipt.amount_out_net;
    }
    Ok(receipt)
}

/// What a redemption of `amount` asks of the ledger: the principal claims
/// are destroyed and the same amount of the underlying leaves custody.
pub open spec fn redeem_actions(ctx: RedeemPt, amount: u64) -> Seq<LedgerAction> {
    seq![
        LedgerAction::Burn { claim: ctx.amm.pt_mint, from: ctx.user_pt, amount },
        LedgerAction::Transfer {
            asset: ctx.amm.underlying_mint,
            from: ctx.amm.vault,
            to: ctx.user_underlying,
            amount,
        },
    ]
}

/// What `redeem_pt` does: on a matured pool, a positive amount of the
/// principal claim is redeemed one for one.
pub open spec fn redeem_outcome(ctx: RedeemPt, amount: u64) -> Result<
    Seq<LedgerAction>,
    YieldErrors,
> {
    if !ctx.amm.is_matured {
        Err(YieldErrors::NotMatured)
    } else if amount == 0 {
        Err(YieldErrors::InvalidAmount)
    } else {
        Ok(redeem_actions(ctx, amount))
    }
}

/// Redeems `amount` of the principal claim for the underlying. The pool
/// record is not changed.
pub fn redeem_pt(ctx: &RedeemPt, amount: u64) -> (r: Result<Vec<LedgerAction>, YieldErrors>)
    ensures
        match redeem_outcome(*ctx, amount) {
            Ok(actions) => r matches Ok(v) && v@ == actions,
            Err(e) => r matches Err(x) && x == e,
        },
{
    if !ctx.amm.is_matured {
        return Err(YieldErrors::NotMatured);
    }
    if amount == 0 {
        return Err(YieldErrors::InvalidAmount);
    }
    let actions: Vec<LedgerAction> = vec![
        LedgerAction::Burn { claim: ctx.amm.pt_mint, from: ctx.user_pt, amount },
        LedgerAction::Transfer {
            asset: ctx.amm.underlying_mint,
            from: ctx.amm.vault,
            to: ctx.user_underlying,
            amount,
        },
    ];
    assert(actions@ =~= redeem_actions(*ctx, amount));
    Ok(actions)
}

/// The share of the accrued yield that a claim of `amount` stands for: the
/// amount times the claimant's holding over the yield-claim reserve,
/// rounded toward zero.
pub open spec fn yield_share(amount: u64, user_yt_amount: u64, yt_reserve: u64) -> int {
    (amount * user_yt_amount) / (yt_reserve as int)
}

/// What a claim of `amount` asks of the ledger: the claimant's share
/// leaves custody.
pub open spec fn claim_actions(ctx: ClaimYield, amount: u64) -> Seq<LedgerAction> {
    seq![
        LedgerAction::Transfer {
            asset: ctx.amm.underlying_mint,
            from: ctx.amm.vault,
            to: ctx.user_underlying,
            amount: yield_share(amount, ctx.user_yt_amount, ctx.amm.yt_reserve) as u64,
        },
    ]
}

/// What `claim_yield` does: for a positive amount and a claimant who holds
/// yield claims, the share is taken out of the accrued yield, which must
/// cover it, and the ledger is asked for [`claim_actions`]. A pool without
/// yield-claim reserve has no share to compute.
pub open spec fn claim_outcome(ctx: ClaimYield, now: i64, amount: u64) -> Result<
    (ClaimYield, Seq<LedgerAction>),
    YieldErrors,
> {
    let share = yield_share(amount, ctx.user_yt_amount, ctx.amm.yt_reserve);
    if amount == 0 {
        Err(YieldErrors::InvalidAmount)
    } else if ctx.user_yt_amount == 0 {
        Err(YieldErrors::NoYtBalance)
    } else if ctx.amm.yt_reserve == 0 {
        Err(YieldErrors::MathOverflow)
    } else if share > ctx.amm.total_yield_accrued {
        Err(YieldErrors::InsufficientYield)
    } else {
        Ok(
            (
                ClaimYield {
                    amm: AmmPool {
                        total_yield_accrued: (ctx.amm.total_yield_accrued - share) as u64,
                        last_yield_update: now,
                        ..ctx.amm
                    },
                    ..ctx
                },
                claim_actions(ctx, amount),
            ),
        )
    }
}

/// Pays the claimant their share of the accrued yield.
pub fn claim_yield(ctx: &mut ClaimYield, now: i64, amount: u64) -> (r: Result<
    Vec<LedgerAction>,
    YieldErrors,
>)
    ensures
        match claim_outcome(*old(ctx), now, amount) {
            Ok((next, actions)) => r matches Ok(v) && v@ == actions && *final(ctx) == next,
            Err(e) => r matches Err(x) && x == e && *final(ctx) == *old(ctx),
        },
{
    if amount == 0 {
        return Err(YieldErrors::InvalidAmount);
    }
    if ctx.user_yt_amount == 0 {
        return Err(YieldErrors::NoYtBalance);
    }
    proof {
        lemma_product_fits(amount, ctx.user_yt_amount);
    }
    let yield_share: u128 = match checked_mul_div(
        amount as u128,
        ctx.user_yt_amount as u128,
        ctx.amm.yt_reserve as u128,
    ) {
        Ok(share) => share,
        Err(_) => {
            return Err(YieldErrors::MathOverflow);
        },
    };
    if yield_share > ctx.amm.total_yield_accrued as u128 {
        return Err(YieldErrors::InsufficientYield);
    }
    let actions: Vec<LedgerAction> = vec![
        LedgerAction::Transfer {
            asset: ctx.amm.underlying_mint,
            from: ctx.amm.vault,
            to: ctx.user_underlying,
            amount: yield_share as u64,
        },
    ];
    assert(actions@ =~= claim_actions(*old(ctx), amount));
    ctx.amm.total_yield_accrued = ctx.amm.total_yield_accrued - yield_share as u64;
    ctx.amm.last_yield_update = now;
    Ok(actions)
}

/// What `add_liquidity` does: on an active pool, two positive amounts are
/// added to the two reserves, which must both still fit.
pub open spec fn add_liquidity_outcome(ctx: AddLiquidity, pt_amount: u64, yt_amount: u64) -> Result<
    AddLiquidity,
    YieldErrors,
> {
    if ctx.amm.is_matured {
        Err(YieldErrors::PoolMatured)
    } else if pt_amount == 0 || yt_amount == 0 {
        Err(YieldErrors::InvalidAmount)
    } else if ctx.amm.pt_reserve + pt_amount > u64::MAX || ctx.amm.yt_reserve + yt_amount
        > u64::MAX {
        Err(YieldErrors::MathOverflow)
    } else {
        Ok(
            AddLiquidity {
                amm: AmmPool {
                    pt_reserve: (ctx.amm.pt_reserve + pt_amount) as u64,
                    yt_reserve: (ctx.amm.yt_reserve + yt_amount) as u64,
                    ..ctx.amm
                },
            },
        )
    }
}

/// Adds liquidity to both sides of the curve.
pub fn add_liquidity(ctx: &mut AddLiquidity, pt_amount: u64, yt_amount: u64) -> (r: Result<
    (),
    YieldErrors,
>)
    ensures
        match add_liquidity_outcome(*old(ctx), pt_amount, yt_amount) {
            Ok(next) => *final(ctx) == next && r == Ok::<(), YieldErrors>(()),
            Err(e) => *final(ctx) == *old(ctx) && r == Err::<(), YieldErrors>(e),
        },
{
    if ctx.amm.is_matured {
        return Err(YieldErrors::PoolMatured);
    }
    if pt_amount == 0 || yt_amount == 0 {
        return Err(YieldErrors::InvalidAmount);
    }
    let pt_reserve: u64 = match ctx.amm.pt_reserve.checked_add(pt_amount) {
        Some(v) => v,
        None => {
            return Err(YieldErrors::MathOverflow);
        },
    };
    let yt_reserve: u64 = match ctx.amm.yt_reserve.checked_add(yt_amount) {
        Some(v) => v,
        None => {
            return Err(YieldErrors::MathOverflow);
        },
    };
    ctx.amm.pt_reserve = pt_reserve;
    ctx.amm.yt_reserve = yt_reserve;
    Ok(())
}

/// What `mark_matured` does: once the maturity is reached, a pool that is
/// not yet marked becomes matured.
pub open spec fn mark_matured_outcome(ctx: MarkMatured, now: i64) -> Result<
    MarkMatured,
    YieldErrors,
> {
    if now < ctx.amm.maturity {
        Err(YieldErrors::NotMatured)
    } else if ctx.amm.is_matured {
        Err(YieldErrors::AlreadyMatured)
    } else {
        Ok(MarkMatured { amm: AmmPool { is_matured: true, ..ctx.amm } })
    }
}

/// Marks the pool as matured. Anyone may do so once the maturity is
/// reached; it succeeds exactly once.
pub fn mark_matured(ctx: &mut MarkMatured, now: i64) -> (r: Result<(), YieldErrors>)
    ensures
        match mark_matured_outcome(*old(ctx), now) {
            Ok(next) => *final(ctx) == next && r == Ok::<(), YieldErrors>(()),
            Err(e) => *final(ctx) == *old(ctx) && r == Err::<(), YieldErrors>(e),
        },
{
    if now < ctx.amm.maturity {
        return Err(YieldErrors::NotMatured);
    }
    if ctx.amm.is_matured {
        return Err(YieldErrors::AlreadyMatured);
    }
    ctx.amm.is_matured = true;
    Ok(())
}

} // verus!
