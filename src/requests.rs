//! Building the request of each kind from the ledger's current state, and the
//! entry points through which the cluster answers them.
use vstd::prelude::*;
use crate::envelope::{Argument, Ciphertext, ComputationOutputs, Pubkey};
use crate::error::ErrorCode;
use crate::lifecycle::{CallbackEffect, ComputationKind, Definition, PendingRequest, Registry, callback_settled, circuit_offset};
use crate::state::{Ledger, MarginAccount};

verus! {

/// The arguments of a deposit or a withdrawal: the account's current nonce,
/// its encrypted collateral, and the plaintext amount.
pub open spec fn balance_arguments(a: MarginAccount, amount: u64) -> Seq<Argument> {
    seq![
        Argument::PlaintextU128(a.nonce),
        Argument::EncryptedU64(a.encrypted_collateral),
        Argument::PlaintextU64(amount),
    ]
}

/// The arguments of a settlement: each account's current nonce followed by
/// its encrypted collateral, buyer first, then the plaintext trade value.
pub open spec fn settlement_arguments(buyer: MarginAccount, seller: MarginAccount, value: u64) -> Seq<Argument> {
    seq![
        Argument::PlaintextU128(buyer.nonce),
        Argument::EncryptedU64(buyer.encrypted_collateral),
        Argument::PlaintextU128(seller.nonce),
        Argument::EncryptedU64(seller.encrypted_collateral),
        Argument::PlaintextU64(value),
    ]
}

/// The arguments of a health check: the account's current nonce, its
/// encrypted collateral and debt, and the plaintext price.
pub open spec fn health_arguments(a: MarginAccount, price: u64) -> Seq<Argument> {
    seq![
        Argument::PlaintextU128(a.nonce),
        Argument::EncryptedU64(a.encrypted_collateral),
        Argument::EncryptedU64(a.encrypted_debt),
        Argument::PlaintextU64(price),
    ]
}

/// The arguments of an order its owner encrypted: the owner's public key,
/// the nonce, then the size, price and side ciphertexts.
pub open spec fn order_arguments(
    pub_key: Pubkey,
    nonce: u128,
    size: Ciphertext,
    price: Ciphertext,
    side: Ciphertext,
) -> Seq<Argument> {
    seq![
        Argument::ArcisPubkey(pub_key),
        Argument::PlaintextU128(nonce),
        Argument::EncryptedU64(size),
        Argument::EncryptedU64(price),
        Argument::EncryptedU8(side),
    ]
}

/// The registry is unchanged but for its pending requests.
pub open spec fn same_setup(a: Registry, b: Registry) -> bool {
    a.cluster == b.cluster && a.definitions == b.definitions
}

/// What a queueing function returns and leaves behind, given the argument list
/// it built and the error of the ledger lookup before it, if any.
pub open spec fn queued(
    before: Registry,
    after: Registry,
    r: Result<Vec<Argument>, ErrorCode>,
    lookup: Option<ErrorCode>,
    id: u64,
    kind: ComputationKind,
    args: Seq<Argument>,
    owner: Pubkey,
    counterparty: Option<Pubkey>,
    now: i64,
) -> bool {
    &&& after.wf()
    &&& same_setup(before, after)
    &&& match lookup {
        Some(e) => r == Err::<Vec<Argument>, ErrorCode>(e) && after.pending_map() == before.pending_map(),
        None => match before.queue_error(id, kind, args, owner, counterparty) {
            Some(e) => r == Err::<Vec<Argument>, ErrorCode>(e) && after.pending_map()
                == before.pending_map(),
            None => r is Ok && r->Ok_0@ == args && after.pending_map()
                == before.pending_map().insert(
                id,
                PendingRequest { id, kind, owner, counterparty, issued_at: now },
            ),
        },
    }
}

fn queue_balance_change(
    ledger: &Ledger,
    registry: &mut Registry,
    kind: ComputationKind,
    computation_offset: u64,
    owner: &Pubkey,
    amount: u64,
    now: i64,
) -> (r: Result<Vec<Argument>, ErrorCode>)
    requires
        ledger.wf(),
        old(registry).wf(),
    ensures
        ledger@.contains_key(*owner) ==> queued(
            *old(registry),
            *final(registry),
            r,
            None,
            computation_offset,
            kind,
            balance_arguments(ledger@[*owner], amount),
            *owner,
            None,
            now,
        ),
        !ledger@.contains_key(*owner) ==> queued(
            *old(registry),
            *final(registry),
            r,
            Some(ErrorCode::AccountNotFound),
            computation_offset,
            kind,
            Seq::empty(),
            *owner,
            None,
            now,
        ),
{
    let a = match ledger.read(owner) {
        Some(a) => a,
        None => return Err(ErrorCode::AccountNotFound),
    };
    let args = vec![
        Argument::PlaintextU128(a.nonce),
        Argument::EncryptedU64(a.encrypted_collateral),
        Argument::PlaintextU64(amount),
    ];
    assert(args@ =~= balance_arguments(a, amount));
    registry.queue(computation_offset, kind, &args, *owner, None, now)?;
    Ok(args)
}

/// Queues a deposit of `amount` into `owner`'s encrypted collateral, with the
/// account's current nonce and ciphertext, and returns the arguments to send.
pub fn queue_deposit(
    ledger: &Ledger,
    registry: &mut Registry,
    computation_offset: u64,
    owner: &Pubkey,
    amount: u64,
    now: i64,
) -> (r: Result<Vec<Argument>, ErrorCode>)
    requires
        ledger.wf(),
        old(registry).wf(),
    ensures
        ledger@.contains_key(*owner) ==> queued(
            *old(registry),
            *final(registry),
            r,
            None,
            computation_offset,
            ComputationKind::Deposit,
            balance_arguments(ledger@[*owner], amount),
            *owner,
            None,
            now,
        ),
        !ledger@.contains_key(*owner) ==> queued(
            *old(registry),
            *final(registry),
            r,
            Some(ErrorCode::AccountNotFound),
            computation_offset,
            ComputationKind::Deposit,
            Seq::empty(),
            *owner,
            None,
            now,
        ),
{
    queue_balance_change(ledger, registry, ComputationKind::Deposit, computation_offset, owner, amount, now)
}

/// Queues a withdrawal of `amount` from `owner`'s encrypted collateral, with
/// the account's current nonce and ciphertext, and returns the arguments to send.
pub fn queue_withdraw(
    ledger: &Ledger,
    registry: &mut Registry,
    computation_offset: u64,
    owner: &Pubkey,
    amount: u64,
    now: i64,
) -> (r: Result<Vec<Argument>, ErrorCode>)
    requires
        ledger.wf(),
        old(registry).wf(),
    ensures
        ledger@.contains_key(*owner) ==> queued(
            *old(registry),
            *final(registry),
            r,
            None,
            computation_offset,
            ComputationKind::Withdraw,
            balance_arguments(ledger@[*owner], amount),
            *owner,
            None,
            now,
        ),
        !ledger@.contains_key(*owner) ==> queued(
            *old(registry),
            *final(registry),
            r,
            Some(ErrorCode::AccountNotFound),
            computation_offset,
            ComputationKind::Withdraw,
            Seq::empty(),
            *owner,
            None,
            now,
        ),
{
    queue_balance_change(ledger, registry, ComputationKind::Withdraw, computation_offset, owner, amount, now)
}

/// Why a settlement between `buyer` and `seller` cannot be built from the
/// ledger, if it cannot: both accounts must exist.
pub open spec fn settlement_lookup(l: Map<Pubkey, MarginAccount>, buyer: Pubkey, seller: Pubkey) -> Option<ErrorCode> {
    if !l.contains_key(buyer) || !l.contains_key(seller) {
        Some(ErrorCode::AccountNotFound)
    } else {
        None
    }
}

/// Queues one settlement that moves `trade_value` from the buyer's encrypted
/// collateral to the seller's, and returns the arguments to send.
pub fn queue_settle_trade(
    ledger: &Ledger,
    registry: &mut Registry,
    computation_offset: u64,
    buyer: &Pubkey,
    seller: &Pubkey,
    trade_value: u64,
    now: i64,
) -> (r: Result<Vec<Argument>, ErrorCode>)
    requires
        ledger.wf(),
        old(registry).wf(),
    ensures
        settlement_lookup(ledger@, *buyer, *seller) is Some ==> queued(
            *old(registry),
            *final(registry),
            r,
            settlement_lookup(ledger@, *buyer, *seller),
            computation_offset,
            ComputationKind::SettleTrade,
            Seq::empty(),
            *buyer,
            Some(*seller),
            now,
        ),
        settlement_lookup(ledger@, *buyer, *seller) is None ==> queued(
            *old(registry),
            *final(registry),
            r,
            None,
            computation_offset,
            ComputationKind::SettleTrade,
            settlement_arguments(ledger@[*buyer], ledger@[*seller], trade_value),
            *buyer,
            Some(*seller),
            now,
        ),
{
    let b = match ledger.read(buyer) {
        Some(a) => a,
        None => return Err(ErrorCode::AccountNotFound),
    };
    let s = match ledger.read(seller) {
        Some(a) => a,
        None => return Err(ErrorCode::AccountNotFound),
    };
    let args = vec![
        Argument::PlaintextU128(b.nonce),
        Argument::EncryptedU64(b.encrypted_collateral),
        Argument::PlaintextU128(s.nonce),
        Argument::EncryptedU64(s.encrypted_collateral),
        Argument::PlaintextU64(trade_value),
    ];
    assert(args@ =~= settlement_arguments(b, s, trade_value));
    registry.queue(computation_offset, ComputationKind::SettleTrade, &args, *buyer, Some(*seller), now)?;
    Ok(args)
}

/// Queues a health check of `owner`'s position at `price`, on the account's
/// stored collateral and debt under its current nonce, and returns the
/// arguments to send.
pub fn queue_health_check(
    ledger: &Ledger,
    registry: &mut Registry,
    computation_offset: u64,
    owner: &Pubkey,
    price: u64,
    now: i64,
) -> (r: Result<Vec<Argument>, ErrorCode>)
    requires
        ledger.wf(),
        old(registry).wf(),
    ensures
        ledger@.contains_key(*owner) ==> queued(
            *old(registry),
            *final(registry),
            r,
            None,
            computation_offset,
            ComputationKind::HealthCheck,
            health_arguments(ledger@[*owner], price),
            *owner,
            None,
            now,
        ),
        !ledger@.contains_key(*owner) ==> queued(
            *old(registry),
            *final(registry),
            r,
            Some(ErrorCode::AccountNotFound),
            computation_offset,
            ComputationKind::HealthCheck,
            Seq::empty(),
            *owner,
            None,
            now,
        ),
{
    let a = match ledger.read(owner) {
        Some(a) => a,
        None => return Err(ErrorCode::AccountNotFound),
    };
    let args = vec![
        Argument::PlaintextU128(a.nonce),
        Argument::EncryptedU64(a.encrypted_collateral),
        Argument::EncryptedU64(a.encrypted_debt),
        Argument::PlaintextU64(price),
    ];
    assert(args@ =~= health_arguments(a, price));
    registry.queue(computation_offset, ComputationKind::HealthCheck, &args, *owner, None, now)?;
    Ok(args)
}

/// Queues an order that `owner` encrypted under `pub_key` and `nonce`, and
/// returns the arguments to send. No margin account is read or written.
pub fn submit_order(
    registry: &mut Registry,
    computation_offset: u64,
    owner: &Pubkey,
    ciphertext_size: Ciphertext,
    ciphertext_price: Ciphertext,
    ciphertext_side: Ciphertext,
    pub_key: Pubkey,
    nonce: u128,
    now: i64,
) -> (r: Result<Vec<Argument>, ErrorCode>)
    requires
        old(registry).wf(),
    ensures
        queued(
            *old(registry),
            *final(registry),
            r,
            None,
            computation_offset,
            ComputationKind::OrderSubmit,
            order_arguments(pub_key, nonce, ciphertext_size, ciphertext_price, ciphertext_side),
            *owner,
            None,
            now,
        ),
{
    let args = vec![
        Argument::ArcisPubkey(pub_key),
        Argument::PlaintextU128(nonce),
        Argument::EncryptedU64(ciphertext_size),
        Argument::EncryptedU64(ciphertext_price),
        Argument::EncryptedU8(ciphertext_side),
    ];
    assert(args@ =~= order_arguments(pub_key, nonce, ciphertext_size, ciphertext_price, ciphertext_side));
    registry.queue(computation_offset, ComputationKind::OrderSubmit, &args, *owner, None, now)?;
    Ok(args)
}

/// What registering the definition of `kind` returns and leaves behind.
pub open spec fn defined(before: Registry, after: Registry, r: Result<u32, ErrorCode>, kind: ComputationKind) -> bool {
    &&& after.wf()
    &&& after.cluster == before.cluster
    &&& after.pending == before.pending
    &&& if before.definition_map().contains_key(kind) {
        r == Err::<u32, ErrorCode>(ErrorCode::AlreadyExists) && after.definition_map()
            == before.definition_map()
    } else {
        r == Ok::<u32, ErrorCode>(circuit_offset(kind.spec_circuit_name())) && after.definition_map()
            == before.definition_map().insert(
            kind,
            Definition { kind, offset: circuit_offset(kind.spec_circuit_name()) },
        )
    }
}

/// Registers the deposit computation, once.
pub fn init_deposit_comp_def(registry: &mut Registry) -> (r: Result<u32, ErrorCode>)
    requires
        old(registry).wf(),
    ensures
        defined(*old(registry), *final(registry), r, ComputationKind::Deposit),
{
    registry.init_comp_def(ComputationKind::Deposit)
}

/// Registers the withdrawal computation, once.
pub fn init_withdraw_comp_def(registry: &mut Registry) -> (r: Result<u32, ErrorCode>)
    requires
        old(registry).wf(),
    ensures
        defined(*old(registry), *final(registry), r, ComputationKind::Withdraw),
{
    registry.init_comp_def(ComputationKind::Withdraw)
}

/// Registers the trade settlement computation, once.
pub fn init_settle_comp_def(registry: &mut Registry) -> (r: Result<u32, ErrorCode>)
    requires
        old(registry).wf(),
    ensures
        defined(*old(registry), *final(registry), r, ComputationKind::SettleTrade),
{
    registry.init_comp_def(ComputationKind::SettleTrade)
}

/// Registers the health check computation, once.
pub fn init_health_check_comp_def(registry: &mut Registry) -> (r: Result<u32, ErrorCode>)
    requires
        old(registry).wf(),
    ensures
        defined(*old(registry), *final(registry), r, ComputationKind::HealthCheck),
{
    registry.init_comp_def(ComputationKind::HealthCheck)
}

/// Registers the order submission computation, once.
pub fn init_submit_order_comp_def(registry: &mut Registry) -> (r: Result<u32, ErrorCode>)
    requires
        old(registry).wf(),
    ensures
        defined(*old(registry), *final(registry), r, ComputationKind::OrderSubmit),
{
    registry.init_comp_def(ComputationKind::OrderSubmit)
}

/// Accepts the cluster's answer to a deposit request; see `Registry::on_callback`.
pub fn deposit_collateral_callback(
    registry: &mut Registry,
    ledger: &mut Ledger,
    caller: &Pubkey,
    offset: u32,
    id: u64,
    output: &ComputationOutputs,
    now: i64,
) -> (r: Result<CallbackEffect, ErrorCode>)
    requires
        old(registry).wf(),
        old(ledger).wf(),
    ensures
        final(ledger).wf(),
        callback_settled(
            *old(registry),
            *final(registry),
            old(ledger)@,
            final(ledger)@,
            r,
            *caller,
            offset,
            id,
            ComputationKind::Deposit,
            *output,
            now,
        ),
{
    registry.on_callback(ledger, caller, offset, id, ComputationKind::Deposit, output, now)
}

/// Accepts the cluster's answer to a withdrawal request; see `Registry::on_callback`.
pub fn withdraw_collateral_callback(
    registry: &mut Registry,
    ledger: &mut Ledger,
    caller: &Pubkey,
    offset: u32,
    id: u64,
    output: &ComputationOutputs,
    now: i64,
) -> (r: Result<CallbackEffect, ErrorCode>)
    requires
        old(registry).wf(),
        old(ledger).wf(),
    ensures
        final(ledger).wf(),
        callback_settled(
            *old(registry),
            *final(registry),
            old(ledger)@,
            final(ledger)@,
            r,
            *caller,
            offset,
            id,
            ComputationKind::Withdraw,
            *output,
            now,
        ),
{
    registry.on_callback(ledger, caller, offset, id, ComputationKind::Withdraw, output, now)
}

/// Accepts the cluster's answer to a trade settlement request; see `Registry::on_callback`.
pub fn settle_trade_callback(
    registry: &mut Registry,
    ledger: &mut Ledger,
    caller: &Pubkey,
    offset: u32,
    id: u64,
    output: &ComputationOutputs,
    now: i64,
) -> (r: Result<CallbackEffect, ErrorCode>)
    requires
        old(registry).wf(),
        old(ledger).wf(),
    ensures
        final(ledger).wf(),
        callback_settled(
            *old(registry),
            *final(registry),
            old(ledger)@,
            final(ledger)@,
            r,
            *caller,
            offset,
            id,
            ComputationKind::SettleTrade,
            *output,
            now,
        ),
{
    registry.on_callback(ledger, caller, offset, id, ComputationKind::SettleTrade, output, now)
}

/// Accepts the cluster's answer to a health check request; see `Registry::on_callback`.
pub fn health_check_callback(
    registry: &mut Registry,
    ledger: &mut Ledger,
    caller: &Pubkey,
    offset: u32,
    id: u64,
    output: &ComputationOutputs,
    now: i64,
) -> (r: Result<CallbackEffect, ErrorCode>)
    requires
        old(registry).wf(),
        old(ledger).wf(),
    ensures
        final(ledger).wf(),
        callback_settled(
            *old(registry),
            *final(registry),
            old(ledger)@,
            final(ledger)@,
            r,
            *caller,
            offset,
            id,
            ComputationKind::HealthCheck,
            *output,
            now,
        ),
{
    registry.on_callback(ledger, caller, offset, id, ComputationKind::HealthCheck, output, now)
}

/// Accepts the cluster's answer to an order submission request; see `Registry::on_callback`.
pub fn submit_order_callback(
    registry: &mut Registry,
    ledger: &mut Ledger,
    caller: &Pubkey,
    offset: u32,
    id: u64,
    output: &ComputationOutputs,
    now: i64,
) -> (r: Result<CallbackEffect, ErrorCode>)
    requires
        old(registry).wf(),
        old(ledger).wf(),
    ensures
        final(ledger).wf(),
        callback_settled(
            *old(registry),
            *final(registry),
            old(ledger)@,
            final(ledger)@,
            r,
            *caller,
            offset,
            id,
            ComputationKind::OrderSubmit,
            *output,
            now,
        ),
{
    registry.on_callback(ledger, caller, offset, id, ComputationKind::OrderSubmit, output, now)
}

} // verus!
