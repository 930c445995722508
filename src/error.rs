//! The ways an operation of the ledger, the computation lifecycle or the bridge can fail.
use vstd::prelude::*;

verus! {

/// Failures of the margin ledger, the computation lifecycle, liquidation and minting.
#[derive(Clone, Copy, Debug, PartialEq, Eq, Structural)]
pub enum ErrorCode {
    /// An amount, a price or a size is zero.
    InvalidAmount,
    /// An arithmetic result does not fit its type.
    MathOverflow,
    /// More collateral is asked for than the escrow holds.
    InsufficientCollateral,
    /// The cluster reported that a computation was aborted.
    AbortedComputation,
    /// The caller may not liquidate this account.
    UnauthorizedLiquidation,
    /// Liquidation was attempted on an account that is not liquidatable.
    HealthyPosition,
    /// Fewer than two configured validators signed a mint.
    InsufficientSignatures,
    /// A signer is not one of the configured validators.
    UnauthorizedValidator,
    /// The external deposit transaction was already minted against.
    DepositAlreadyProcessed,
    /// The external transaction identifier is malformed.
    InvalidZcashTxid,
    /// No computation definition is registered for the requested kind.
    ClusterNotSet,
    /// A request with this identifier is already pending.
    DuplicateRequest,
    /// No pending request of this kind has this identifier.
    UnknownOrAlreadyTerminal,
    /// An argument list or a result does not have the shape its kind requires.
    InvalidArguments,
    /// The record to be created exists already.
    AlreadyExists,
    /// No margin account belongs to this owner.
    AccountNotFound,
    /// A request touching this account is still pending.
    AccountBusy,
    /// A callback did not come from the cluster's own signer or definition.
    UnauthorizedCallback,
}

/// Failures of a withdrawal request on the bridge.
#[derive(Clone, Copy, Debug, PartialEq, Eq, Structural)]
pub enum BridgeError {
    /// The amount is zero.
    InvalidAmount,
    /// The external address is empty.
    InvalidZcashAddress,
    /// The external address is longer than the bound.
    ZcashAddressTooLong,
}

} // verus!
