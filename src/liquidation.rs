//! Seizing the escrow of an account the health check found liquidatable.
use vstd::prelude::*;
use crate::custody::CustodyAction;
use crate::envelope::Pubkey;
use crate::error::ErrorCode;
use crate::lifecycle::Registry;
use crate::state::{Ledger, MarginAccount};

verus! {

/// The fact a liquidation emits.
#[derive(Clone, Copy, Debug, PartialEq, Eq)]
pub struct Liquidated {
    pub liquidator: Pubkey,
    pub margin_account_owner: Pubkey,
    pub collateral_seized: u64,
    pub timestamp: i64,
}

/// Why `owner`'s account cannot be liquidated, if it cannot: it is missing,
/// not flagged liquidatable, or its vault is empty; or a deposit, withdrawal
/// or settlement on it is still pending, whose result would otherwise land on
/// the reset account and revive the seized balance. A pending health check
/// does not hold liquidation back: its result finds the account reset to
/// encrypted zeros and is not written.
pub open spec fn liquidation_error(
    l: Map<Pubkey, MarginAccount>,
    reg: Registry,
    owner: Pubkey,
    vault_balance: u64,
) -> Option<ErrorCode> {
    if !l.contains_key(owner) {
        Some(ErrorCode::AccountNotFound)
    } else if !l[owner].is_liquidatable {
        Some(ErrorCode::HealthyPosition)
    } else if vault_balance == 0 {
        Some(ErrorCode::InvalidAmount)
    } else if reg.balance_busy(owner) {
        Some(ErrorCode::AccountBusy)
    } else {
        None
    }
}

/// Liquidates `owner`'s account: anyone may, once the account is flagged.
/// The whole vault balance goes to the liquidator and the account is reset
/// to encrypted zeros with its flag cleared; on an error nothing changes.
pub fn liquidate(
    ledger: &mut Ledger,
    registry: &Registry,
    owner: &Pubkey,
    liquidator: &Pubkey,
    vault_balance: u64,
    now: i64,
) -> (r: Result<(Liquidated, CustodyAction), ErrorCode>)
    requires
        old(ledger).wf(),
    ensures
        final(ledger).wf(),
        match liquidation_error(old(ledger)@, *registry, *owner, vault_balance) {
            Some(e) => r == Err::<(Liquidated, CustodyAction), ErrorCode>(e) && final(ledger)@ == old(ledger)@,
            None => r == Ok::<(Liquidated, CustodyAction), ErrorCode>(
                (
                    Liquidated {
                        liquidator: *liquidator,
                        margin_account_owner: *owner,
                        collateral_seized: vault_balance,
                        timestamp: now,
                    },
                    CustodyAction::SeizeVault { owner: *owner, liquidator: *liquidator, amount: vault_balance },
                ),
            ) && final(ledger)@.contains_key(*owner) && final(ledger)@.remove(*owner) == old(ledger)@.remove(*owner)
                && final(ledger)@[*owner].owner == *owner
                && final(ledger)@[*owner].bump == old(ledger)@[*owner].bump
                && final(ledger)@[*owner].is_zeroed(),
        },
{
    let a = match ledger.read(owner) {
        Some(a) => a,
        None => return Err(ErrorCode::AccountNotFound),
    };
    if !a.is_liquidatable {
        return Err(ErrorCode::HealthyPosition);
    }
    if vault_balance == 0 {
        return Err(ErrorCode::InvalidAmount);
    }
    if registry.is_balance_busy(owner) {
        return Err(ErrorCode::AccountBusy);
    }
    let _ = ledger.reset(owner);
    Ok((
        Liquidated {
            liquidator: *liquidator,
            margin_account_owner: *owner,
            collateral_seized: vault_balance,
            timestamp: now,
        },
        CustodyAction::SeizeVault { owner: *owner, liquidator: *liquidator, amount: vault_balance },
    ))
}

/// Liquidation is gated on the flag: an account that is not flagged is
/// refused with `HealthyPosition`, and an account that a liquidation has just
/// reset is refused the same way, whatever its vault holds.
pub proof fn lemma_liquidation_gated(
    l: Map<Pubkey, MarginAccount>,
    reg: Registry,
    owner: Pubkey,
    vault_balance: u64,
)
    requires
        l.contains_key(owner),
        !l[owner].is_liquidatable || l[owner].is_zeroed(),
    ensures
        liquidation_error(l, reg, owner, vault_balance) == Some(ErrorCode::HealthyPosition),
{
}

} // verus!
