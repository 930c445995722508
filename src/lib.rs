//! A confidential margin ledger: encrypted balances kept on a shared ledger,
//! arithmetic on them delegated to a confidential-computation cluster whose
//! results come back asynchronously, a liquidation state machine gated on a
//! private health check, and a 2-of-3 multisig bridge with replay protection.
use vstd::prelude::*;

pub mod bridge;
pub mod circuits;
pub mod custody;
pub mod envelope;
pub mod error;
pub mod keyed;
pub mod lifecycle;
pub mod liquidation;
pub mod margin;
pub mod requests;
pub mod state;
pub mod trading;

verus! {

} // verus!
