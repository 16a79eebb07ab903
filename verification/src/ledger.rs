//! The ledger the pool operations speak to: account addresses, the
//! instructions an operation hands to the ledger, and what those
//! instructions do to balances.
//!
//! The library never moves a balance itself. An operation that succeeds
//! returns the instructions that belong to it; whoever runs the operation
//! performs them in order, in one atomic unit with the operation's own
//! update. The balances below are the mathematical model against which the
//! operations are judged.

use anchor_lang::prelude::Pubkey;
use vstd::prelude::*;

verus! {

/// `anchor_lang::prelude::Pubkey`, an account address. The library stores
/// addresses and names them in ledger instructions, but never looks inside
/// one.
#[verifier::external_type_specification]
#[verifier::external_body]
pub struct ExPubkey(Pubkey);

/// `Clone::clone` of `anchor_lang::prelude::Pubkey`, which the address
/// type derives. Trusted: the copy is the address itself.
pub assume_specification[ <Pubkey as Clone>::clone ](address: &Pubkey) -> (copy: Pubkey)
    ensures
        copy == *address,
;

/// One instruction to the ledger.
#[derive(Clone, Copy, Debug, PartialEq, Eq)]
pub enum LedgerAction {
    /// Move `amount` of `asset` from one holder to another.
    Transfer { asset: Pubkey, from: Pubkey, to: Pubkey, amount: u64 },
    /// Issue `amount` of `claim` to a holder.
    Mint { claim: Pubkey, to: Pubkey, amount: u64 },
    /// Destroy `amount` of `claim` held by a holder.
    Burn { claim: Pubkey, from: Pubkey, amount: u64 },
}

/// What `holder` holds of `asset`; nothing where the ledger has no entry.
pub open spec fn balance_of(
    balances: Map<(Pubkey, Pubkey), nat>,
    asset: Pubkey,
    holder: Pubkey,
) -> nat {
    if balances.dom().contains((asset, holder)) {
        balances[(asset, holder)]
    } else {
        0
    }
}

/// The balances after `holder` receives `amount` of `asset`.
pub open spec fn credit(
    balances: Map<(Pubkey, Pubkey), nat>,
    asset: Pubkey,
    holder: Pubkey,
    amount: nat,
) -> Map<(Pubkey, Pubkey), nat> {
    balances.insert((asset, holder), balance_of(balances, asset, holder) + amount)
}

/// The balances after `holder` gives up `amount` of `asset`, which it must
/// hold.
pub open spec fn debit(
    balances: Map<(Pubkey, Pubkey), nat>,
    asset: Pubkey,
    holder: Pubkey,
    amount: nat,
) -> Map<(Pubkey, Pubkey), nat> {
    balances.insert((asset, holder), (balance_of(balances, asset, holder) - amount) as nat)
}

/// The balances after one instruction, or `None` where the ledger refuses
/// it because the giving holder holds too little.
pub open spec fn apply(balances: Map<(Pubkey, Pubkey), nat>, action: LedgerAction) -> Option<
    Map<(Pubkey, Pubkey), nat>,
> {
    match action {
        LedgerAction::Mint { claim, to, amount } => Some(
            credit(balances, claim, to, amount as nat),
        ),
        LedgerAction::Burn { claim, from, amount } => if balance_of(balances, claim, from)
            >= amount {
            Some(debit(balances, claim, from, amount as nat))
        } else {
            None
        },
        LedgerAction::Transfer { asset, from, to, amount } => if balance_of(balances, asset, from)
            >= amount {
            Some(credit(debit(balances, asset, from, amount as nat), asset, to, amount as nat))
        } else {
            None
        },
    }
}

/// The balances after a run of instructions performed in order, or `None`
/// where the ledger refuses one of them.
pub open spec fn apply_all(
    balances: Map<(Pubkey, Pubkey), nat>,
    actions: Seq<LedgerAction>,
) -> Option<Map<(Pubkey, Pubkey), nat>>
    decreases actions.len(),
{
    if actions.len() == 0 {
        Some(balances)
    } else {
        match apply(balances, actions[0]) {
            None => None,
            Some(next) => apply_all(next, actions.subrange(1, actions.len() as int)),
        }
    }
}

} // verus!
