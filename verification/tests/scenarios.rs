use anchor_lang::prelude::Pubkey;
use std::collections::HashMap;
use yield_splitter::ledger::LedgerAction;
use yield_splitter::pool::{
    add_liquidity, claim_yield, initialize_amm, mark_matured, redeem_pt, swap, tokenize_yield,
    AddLiquidity, AmmPool, ClaimYield, InitializeAmm, MarkMatured, RedeemPt, Swap, SwapReceipt,
    TokenizeYield, YieldErrors,
};

const YEAR: i64 = 31_536_000;
const NOW: i64 = 1_700_000_000;

fn address(n: u8) -> Pubkey {
    Pubkey::new_from_array([n; 32])
}

const AUTHORITY: u8 = 1;
const UNDERLYING: u8 = 2;
const VAULT: u8 = 3;
const PT: u8 = 4;
const YT: u8 = 5;
const USER_UNDERLYING: u8 = 10;
const USER_PT: u8 = 11;
const USER_YT: u8 = 12;

fn new_pool(now: i64, maturity: i64) -> Result<AmmPool, YieldErrors> {
    let accounts = InitializeAmm {
        vault: address(VAULT),
        pt_mint: address(PT),
        yt_mint: address(YT),
        authority: address(AUTHORITY),
    };
    initialize_amm(&accounts, now, maturity, address(UNDERLYING))
}

/// A ledger that performs instructions as a token program would: a holder
/// cannot give what it does not hold.
struct Balances(HashMap<(Pubkey, Pubkey), u64>);

impl Balances {
    fn of(&self, asset: u8, holder: u8) -> u64 {
        *self.0.get(&(address(asset), address(holder))).unwrap_or(&0)
    }

    fn set(&mut self, asset: u8, holder: u8, amount: u64) {
        self.0.insert((address(asset), address(holder)), amount);
    }

    fn perform(&mut self, actions: &[LedgerAction]) -> bool {
        let mut next = self.0.clone();
        for action in actions {
            match *action {
                LedgerAction::Mint { claim, to, amount } => {
                    *next.entry((claim, to)).or_insert(0) += amount;
                }
                LedgerAction::Burn { claim, from, amount } => {
                    let held = next.entry((claim, from)).or_insert(0);
                    if *held < amount {
                        return false;
                    }
                    *held -= amount;
                }
                LedgerAction::Transfer { asset, from, to, amount } => {
                    let held = next.entry((asset, from)).or_insert(0);
                    if *held < amount {
                        return false;
                    }
                    *held -= amount;
                    *next.entry((asset, to)).or_insert(0) += amount;
                }
            }
        }
        self.0 = next;
        true
    }
}

#[test]
fn scenario_tokenize_one_million() {
    let pool = new_pool(NOW, NOW + 31_536_000).unwrap();
    let mut ledger = Balances(HashMap::new());
    ledger.set(UNDERLYING, USER_UNDERLYING, 5_000_000);

    let mut ctx = TokenizeYield {
        amm: pool,
        user_underlying: address(USER_UNDERLYING),
        user_pt: address(USER_PT),
        user_yt: address(USER_YT),
    };
    let actions = tokenize_yield(&mut ctx, NOW, 1_000_000).unwrap();
    assert!(ledger.perform(&actions));

    assert_eq!(ledger.of(PT, USER_PT), 1_000_000);
    assert_eq!(ledger.of(YT, USER_YT), 1_000_000);
    assert_eq!(ctx.amm.total_underlying, 1_000_000);
    assert_eq!(ledger.of(UNDERLYING, VAULT), 1_000_000);
    assert_eq!(ledger.of(UNDERLYING, USER_UNDERLYING), 4_000_000);
}

#[test]
fn scenario_swap_one_year_out() {
    let pool = AmmPool {
        pt_reserve: 1_000_000_000,
        yt_reserve: 1_000_000_000,
        ..new_pool(NOW, NOW + YEAR).unwrap()
    };
    assert_eq!(pool.fee_basis_points, 30);
    let mut ctx = Swap { amm: pool };
    let receipt = swap(&mut ctx, NOW, 1_000_000, 0, true).unwrap();

    assert_eq!(
        receipt,
        SwapReceipt { amount_out_gross: 1_000_000, fee: 3_000, amount_out_net: 997_000 }
    );
    assert!(receipt.amount_out_net > 0);
    assert!(receipt.amount_out_net < 1_000_000);
    assert_eq!(ctx.amm.pt_reserve, 1_001_000_000);
    assert_eq!(ctx.amm.yt_reserve, 999_003_000);
    // the curve equation: k = (x + y) * ratio / precision with ratio = precision
    let k: u128 = (1_000_000_000u128 + 1_000_000_000) * 1_000_000_000 / 1_000_000_000;
    assert_eq!(k - ctx.amm.pt_reserve as u128, 1_000_000_000 - receipt.amount_out_gross as u128);
    assert_eq!(ctx.amm, AmmPool { pt_reserve: 1_001_000_000, yt_reserve: 999_003_000, ..pool });
}

#[test]
fn scenario_swap_with_empty_input_reserve() {
    let pool =
        AmmPool { pt_reserve: 0, yt_reserve: 1_000_000_000, ..new_pool(NOW, NOW + YEAR).unwrap() };
    let mut ctx = Swap { amm: pool };
    assert_eq!(swap(&mut ctx, NOW, 1_000, 0, true), Err(YieldErrors::InsufficientLiquidity));
    assert_eq!(ctx.amm, pool);
    // even where the time to maturity could not be computed at all
    let pool = AmmPool { maturity: i64::MAX, ..pool };
    let mut ctx = Swap { amm: pool };
    assert_eq!(swap(&mut ctx, -10, 1_000, 0, true), Err(YieldErrors::InsufficientLiquidity));
    assert_eq!(ctx.amm, pool);
}

#[test]
fn scenario_redeem_only_after_mark_matured() {
    let pool = new_pool(NOW, NOW + YEAR).unwrap();
    let mut ledger = Balances(HashMap::new());
    ledger.set(UNDERLYING, USER_UNDERLYING, 1_000);

    let mut deposit = TokenizeYield {
        amm: pool,
        user_underlying: address(USER_UNDERLYING),
        user_pt: address(USER_PT),
        user_yt: address(USER_YT),
    };
    let actions = tokenize_yield(&mut deposit, NOW, 1_000).unwrap();
    assert!(ledger.perform(&actions));
    let pool = deposit.amm;

    let early = RedeemPt {
        amm: pool,
        user_pt: address(USER_PT),
        user_underlying: address(USER_UNDERLYING),
    };
    assert_eq!(redeem_pt(&early, 400), Err(YieldErrors::NotMatured));

    let mut mark = MarkMatured { amm: pool };
    assert_eq!(mark_matured(&mut mark, NOW + YEAR), Ok(()));
    let pool = mark.amm;

    let late = RedeemPt { amm: pool, ..early };
    let actions = redeem_pt(&late, 400).unwrap();
    assert_eq!(
        actions,
        vec![
            LedgerAction::Burn { claim: address(PT), from: address(USER_PT), amount: 400 },
            LedgerAction::Transfer {
                asset: address(UNDERLYING),
                from: address(VAULT),
                to: address(USER_UNDERLYING),
                amount: 400
            },
        ]
    );
    assert!(ledger.perform(&actions));
    assert_eq!(ledger.of(PT, USER_PT), 600);
    assert_eq!(ledger.of(UNDERLYING, USER_UNDERLYING), 400);
    assert_eq!(ledger.of(UNDERLYING, VAULT), 600);
    assert_eq!(ledger.of(YT, USER_YT), 1_000);

    // more than is held: the ledger refuses, and nothing moves
    let actions = redeem_pt(&late, 601).unwrap();
    assert!(!ledger.perform(&actions));
    assert_eq!(ledger.of(PT, USER_PT), 600);
    assert_eq!(ledger.of(UNDERLYING, VAULT), 600);
}

#[test]
fn scenario_claim_with_nothing_accrued() {
    let pool = AmmPool { yt_reserve: 1_000, ..new_pool(NOW, NOW + YEAR).unwrap() };
    assert_eq!(pool.total_yield_accrued, 0);
    let before =
        ClaimYield { amm: pool, user_yt_amount: 500, user_underlying: address(USER_UNDERLYING) };
    let mut ctx = before;
    // 10 * 500 / 1000 = 5 > 0
    assert_eq!(claim_yield(&mut ctx, NOW, 10), Err(YieldErrors::InsufficientYield));
    assert_eq!(ctx, before);
    assert_eq!(claim_yield(&mut ctx, NOW, 2), Err(YieldErrors::InsufficientYield));
    assert_eq!(ctx, before);
}

#[test]
fn claim_whose_share_rounds_to_nothing_pays_nothing() {
    let pool = AmmPool { yt_reserve: 1_000, ..new_pool(NOW, NOW + YEAR).unwrap() };
    let mut ctx =
        ClaimYield { amm: pool, user_yt_amount: 500, user_underlying: address(USER_UNDERLYING) };
    // 1 * 500 / 1000 = 0
    assert_eq!(
        claim_yield(&mut ctx, NOW + 3, 1),
        Ok(vec![LedgerAction::Transfer {
            asset: address(UNDERLYING),
            from: address(VAULT),
            to: address(USER_UNDERLYING),
            amount: 0
        }])
    );
    assert_eq!(ctx.amm, AmmPool { last_yield_update: NOW + 3, ..pool });
}

#[test]
fn lifecycle_from_creation_to_redemption() {
    let mut ledger = Balances(HashMap::new());
    ledger.set(UNDERLYING, USER_UNDERLYING, 10_000);

    let pool = new_pool(NOW, NOW + YEAR).unwrap();

    let mut deposit = TokenizeYield {
        amm: pool,
        user_underlying: address(USER_UNDERLYING),
        user_pt: address(USER_PT),
        user_yt: address(USER_YT),
    };
    let actions = tokenize_yield(&mut deposit, NOW + 1, 10_000).unwrap();
    assert!(ledger.perform(&actions));

    let mut liquidity = AddLiquidity { amm: deposit.amm };
    assert_eq!(add_liquidity(&mut liquidity, 4_000, 4_000), Ok(()));

    let mut trade = Swap { amm: liquidity.amm };
    let receipt = swap(&mut trade, NOW, 1_000, 990, false).unwrap();
    assert_eq!(receipt, SwapReceipt { amount_out_gross: 1_000, fee: 3, amount_out_net: 997 });
    assert_eq!(trade.amm.yt_reserve, 5_000);
    assert_eq!(trade.amm.pt_reserve, 3_003);
    assert_eq!(trade.amm.total_underlying, 10_000);

    let mut mark = MarkMatured { amm: trade.amm };
    assert_eq!(mark_matured(&mut mark, NOW + YEAR - 1), Err(YieldErrors::NotMatured));
    assert_eq!(mark_matured(&mut mark, NOW + YEAR), Ok(()));
    assert_eq!(mark_matured(&mut mark, NOW + YEAR + 1), Err(YieldErrors::AlreadyMatured));

    let mut frozen = Swap { amm: mark.amm };
    assert_eq!(swap(&mut frozen, NOW + YEAR, 10, 0, true), Err(YieldErrors::PoolMatured));
    let mut frozen = AddLiquidity { amm: mark.amm };
    assert_eq!(add_liquidity(&mut frozen, 1, 1), Err(YieldErrors::PoolMatured));
    let mut frozen = TokenizeYield { amm: mark.amm, ..deposit };
    assert_eq!(tokenize_yield(&mut frozen, NOW + YEAR, 1), Err(YieldErrors::PoolMatured));

    let redemption = RedeemPt {
        amm: mark.amm,
        user_pt: address(USER_PT),
        user_underlying: address(USER_UNDERLYING),
    };
    let actions = redeem_pt(&redemption, 10_000).unwrap();
    assert!(ledger.perform(&actions));
    assert_eq!(ledger.of(PT, USER_PT), 0);
    assert_eq!(ledger.of(UNDERLYING, VAULT), 0);
    assert_eq!(ledger.of(UNDERLYING, USER_UNDERLYING), 10_000);
    assert_eq!(ledger.of(YT, USER_YT), 10_000);
}

#[test]
fn tokenize_credits_each_claim_once_for_distinct_accounts() {
    let mut ledger = Balances(HashMap::new());
    ledger.set(UNDERLYING, USER_UNDERLYING, 900);
    ledger.set(PT, USER_PT, 7);
    ledger.set(YT, USER_YT, 9);
    let mut ctx = TokenizeYield {
        amm: new_pool(NOW, NOW + YEAR).unwrap(),
        user_underlying: address(USER_UNDERLYING),
        user_pt: address(USER_PT),
        user_yt: address(USER_YT),
    };
    let actions = tokenize_yield(&mut ctx, NOW, 300).unwrap();
    assert!(ledger.perform(&actions));
    assert_eq!(ledger.of(PT, USER_PT), 307);
    assert_eq!(ledger.of(YT, USER_YT), 309);
    assert_eq!(ledger.of(UNDERLYING, USER_UNDERLYING), 600);
    assert_eq!(ledger.of(UNDERLYING, VAULT), 300);
}

#[test]
fn tokenize_without_funds_is_refused_by_the_ledger() {
    let mut ledger = Balances(HashMap::new());
    ledger.set(UNDERLYING, USER_UNDERLYING, 299);
    let mut ctx = TokenizeYield {
        amm: new_pool(NOW, NOW + YEAR).unwrap(),
        user_underlying: address(USER_UNDERLYING),
        user_pt: address(USER_PT),
        user_yt: address(USER_YT),
    };
    let actions = tokenize_yield(&mut ctx, NOW, 300).unwrap();
    assert!(!ledger.perform(&actions));
    assert_eq!(ledger.of(PT, USER_PT), 0);
    assert_eq!(ledger.of(YT, USER_YT), 0);
    assert_eq!(ledger.of(UNDERLYING, USER_UNDERLYING), 299);
}
