//! Token movements the ledger decides on and the custody program carries out.
use vstd::prelude::*;
use crate::envelope::Pubkey;

verus! {

/// One debit, credit, mint or burn of the wrapped asset, all public amounts.
#[derive(Clone, Copy, Debug, PartialEq, Eq)]
pub enum CustodyAction {
    /// From the owner's token account into the owner's margin vault.
    DepositToVault { owner: Pubkey, amount: u64 },
    /// From the owner's margin vault back to the owner's token account.
    WithdrawFromVault { owner: Pubkey, amount: u64 },
    /// Everything in the owner's margin vault, to the liquidator.
    SeizeVault { owner: Pubkey, liquidator: Pubkey, amount: u64 },
    /// Newly minted to the recipient.
    Mint { recipient: Pubkey, amount: u64 },
    /// Burnt from the user's token account.
    Burn { user: Pubkey, amount: u64 },
}

} // verus!
