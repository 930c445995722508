//! Validating a matched trade and queueing its settlement.
use vstd::prelude::*;
use crate::envelope::{Argument, Pubkey};
use crate::error::ErrorCode;
use crate::lifecycle::{ComputationKind, Registry};
use crate::requests::{queue_settle_trade, queued, settlement_arguments, settlement_lookup};
use crate::state::Ledger;

verus! {

/// Prices and sizes are fixed-point numbers with six decimals.
pub const SCALE: u64 = 1_000_000;

/// The value of a trade: price times size, back at the fixed-point scale.
pub open spec fn spec_trade_value(price: u64, size: u64) -> int {
    (price as int * size as int) / SCALE as int
}

/// What `trade_value` returns.
pub open spec fn trade_value_result(price: u64, size: u64) -> Result<u64, ErrorCode> {
    if price == 0 || size == 0 {
        Err(ErrorCode::InvalidAmount)
    } else if spec_trade_value(price, size) > u64::MAX as int {
        Err(ErrorCode::MathOverflow)
    } else {
        Ok(spec_trade_value(price, size) as u64)
    }
}

/// The value of a trade of `size` at `price`. Zero price or size is refused
/// before any arithmetic; a value that does not fit 64 bits is refused too.
pub fn trade_value(price: u64, size: u64) -> (r: Result<u64, ErrorCode>)
    ensures
        r == trade_value_result(price, size),
{
    if price == 0 || size == 0 {
        return Err(ErrorCode::InvalidAmount);
    }
    let p = price as u128;
    let s = size as u128;
    assert(p * s <= u64::MAX as int * u64::MAX as int) by (nonlinear_arith)
        requires
            p <= u64::MAX,
            s <= u64::MAX,
    ;
    let value = (p * s) / (SCALE as u128);
    if value > u64::MAX as u128 {
        return Err(ErrorCode::MathOverflow);
    }
    Ok(value as u64)
}

/// The fact a validated trade emits.
#[derive(Clone, Copy, Debug, PartialEq, Eq)]
pub struct TradeExecuted {
    pub buyer: Pubkey,
    pub seller: Pubkey,
    pub price: u64,
    pub size: u64,
    pub trade_value: u64,
    pub timestamp: i64,
}

/// Validates a matched trade and queues its settlement as one request that
/// updates both accounts. Returns the trade fact and the arguments to send.
pub fn settle_trade(
    ledger: &Ledger,
    registry: &mut Registry,
    computation_offset: u64,
    buyer: &Pubkey,
    seller: &Pubkey,
    price: u64,
    size: u64,
    now: i64,
) -> (r: Result<(TradeExecuted, Vec<Argument>), ErrorCode>)
    requires
        ledger.wf(),
        old(registry).wf(),
    ensures
        final(registry).wf(),
        match trade_value_result(price, size) {
            Err(e) => r == Err::<(TradeExecuted, Vec<Argument>), ErrorCode>(e) && *final(registry) == *old(registry),
            Ok(v) => {
                let queued_r = match r {
                    Ok((_, args)) => Ok::<Vec<Argument>, ErrorCode>(args),
                    Err(e) => Err(e),
                };
                &&& queued(
                    *old(registry),
                    *final(registry),
                    queued_r,
                    settlement_lookup(ledger@, *buyer, *seller),
                    computation_offset,
                    ComputationKind::SettleTrade,
                    if settlement_lookup(ledger@, *buyer, *seller) is None {
                        settlement_arguments(ledger@[*buyer], ledger@[*seller], v)
                    } else {
                        Seq::empty()
                    },
                    *buyer,
                    Some(*seller),
                    now,
                )
                &&& r is Ok ==> r->Ok_0.0 == TradeExecuted {
                    buyer: *buyer,
                    seller: *seller,
                    price,
                    size,
                    trade_value: v,
                    timestamp: now,
                }
            },
        },
{
    let value = trade_value(price, size)?;
    let args = queue_settle_trade(ledger, registry, computation_offset, buyer, seller, value, now)?;
    Ok((TradeExecuted { buyer: *buyer, seller: *seller, price, size, trade_value: value, timestamp: now }, args))
}

} // verus!
