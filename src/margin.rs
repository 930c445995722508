//! Opening margin accounts and moving collateral into and out of escrow.
use vstd::prelude::*;
use crate::custody::CustodyAction;
use crate::envelope::Pubkey;
use crate::error::ErrorCode;
use crate::lifecycle::Registry;
use crate::state::Ledger;

verus! {

/// Opens `owner`'s margin account with encrypted zeros; refused with
/// `AlreadyExists` where the owner has one.
pub fn initialize_margin_account(ledger: &mut Ledger, owner: Pubkey, bump: u8) -> (r: Result<(), ErrorCode>)
    requires
        old(ledger).wf(),
    ensures
        final(ledger).wf(),
        old(ledger)@.contains_key(owner) ==> r == Err::<(), ErrorCode>(ErrorCode::AlreadyExists)
            && final(ledger)@ == old(ledger)@,
        !old(ledger)@.contains_key(owner) ==> r is Ok && final(ledger)@.contains_key(owner)
            && final(ledger)@.remove(owner) == old(ledger)@ && final(ledger)@[owner].owner == owner
            && final(ledger)@[owner].bump == bump && final(ledger)@[owner].is_zeroed(),
{
    ledger.create(owner, bump)
}

/// The escrow transfer of a deposit of `amount` by `owner`. The encrypted
/// balance follows through `queue_deposit`.
pub fn deposit_collateral(ledger: &Ledger, owner: &Pubkey, amount: u64) -> (r: Result<CustodyAction, ErrorCode>)
    requires
        ledger.wf(),
    ensures
        r == (if amount == 0 {
            Err::<CustodyAction, ErrorCode>(ErrorCode::InvalidAmount)
        } else if !ledger@.contains_key(*owner) {
            Err(ErrorCode::AccountNotFound)
        } else {
            Ok(CustodyAction::DepositToVault { owner: *owner, amount })
        }),
{
    if amount == 0 {
        return Err(ErrorCode::InvalidAmount);
    }
    if ledger.read(owner).is_none() {
        return Err(ErrorCode::AccountNotFound);
    }
    Ok(CustodyAction::DepositToVault { owner: *owner, amount })
}

/// Why collateral cannot leave escrow, if it cannot: the amount is zero, the
/// account is missing, a request on it is pending, the account is flagged
/// liquidatable, or the vault holds less than asked for.
pub open spec fn withdrawal_error(
    l: Map<Pubkey, crate::state::MarginAccount>,
    reg: Registry,
    owner: Pubkey,
    amount: u64,
    vault_balance: u64,
) -> Option<ErrorCode> {
    if amount == 0 {
        Some(ErrorCode::InvalidAmount)
    } else if !l.contains_key(owner) {
        Some(ErrorCode::AccountNotFound)
    } else if reg.busy(owner) {
        Some(ErrorCode::AccountBusy)
    } else if l[owner].is_liquidatable || amount > vault_balance {
        Some(ErrorCode::InsufficientCollateral)
    } else {
        None
    }
}

/// The escrow transfer of a withdrawal of `amount` to `owner`, whose vault
/// holds `vault_balance`. The encrypted balance follows through `queue_withdraw`.
pub fn withdraw_collateral(
    ledger: &Ledger,
    registry: &Registry,
    owner: &Pubkey,
    amount: u64,
    vault_balance: u64,
) -> (r: Result<CustodyAction, ErrorCode>)
    requires
        ledger.wf(),
    ensures
        r == match withdrawal_error(ledger@, *registry, *owner, amount, vault_balance) {
            Some(e) => Err::<CustodyAction, ErrorCode>(e),
            None => Ok(CustodyAction::WithdrawFromVault { owner: *owner, amount }),
        },
{
    if amount == 0 {
        return Err(ErrorCode::InvalidAmount);
    }
    let a = match ledger.read(owner) {
        Some(a) => a,
        None => return Err(ErrorCode::AccountNotFound),
    };
    if registry.is_busy(owner) {
        return Err(ErrorCode::AccountBusy);
    }
    if a.is_liquidatable || amount > vault_balance {
        return Err(ErrorCode::InsufficientCollateral);
    }
    Ok(CustodyAction::WithdrawFromVault { owner: *owner, amount })
}

} // verus!
