//! The computation lifecycle: computation definitions registered once per
//! kind, requests queued under caller-chosen identifiers, and the callback
//! that settles each request exactly once.
use vstd::prelude::*;
use crate::envelope::{Argument, ArgumentType, Ciphertext, ComputationOutputs, EncryptedOutput, Pubkey, shape_of, keys_equal, is_zero_encoding, is_zero_ciphertext};
use crate::state::{Ledger, MarginAccount, balance_updated, leaves_stale};
use crate::circuits::{deposit_outcome, max_balance};
use crate::error::ErrorCode;
use crate::keyed::{keyed_map, unique_keys, lemma_keyed_index, lemma_keyed_push, lemma_keyed_remove};

verus! {

/// The computations the cluster offers.
#[derive(Clone, Copy, Debug, PartialEq, Eq, Structural)]
pub enum ComputationKind {
    Deposit,
    Withdraw,
    SettleTrade,
    HealthCheck,
    OrderSubmit,
}

impl ComputationKind {
    /// The argument types a request of this kind carries, in order.
    pub open spec fn spec_shape(&self) -> Seq<ArgumentType> {
        match self {
            ComputationKind::Deposit | ComputationKind::Withdraw => seq![
                ArgumentType::PlaintextU128,
                ArgumentType::EncryptedU64,
                ArgumentType::PlaintextU64,
            ],
            ComputationKind::SettleTrade => seq![
                ArgumentType::PlaintextU128,
                ArgumentType::EncryptedU64,
                ArgumentType::PlaintextU128,
                ArgumentType::EncryptedU64,
                ArgumentType::PlaintextU64,
            ],
            ComputationKind::HealthCheck => seq![
                ArgumentType::PlaintextU128,
                ArgumentType::EncryptedU64,
                ArgumentType::EncryptedU64,
                ArgumentType::PlaintextU64,
            ],
            ComputationKind::OrderSubmit => seq![
                ArgumentType::ArcisPubkey,
                ArgumentType::PlaintextU128,
                ArgumentType::EncryptedU64,
                ArgumentType::EncryptedU64,
                ArgumentType::EncryptedU8,
            ],
        }
    }

    /// The argument types a request of this kind carries, in order.
    pub fn shape(&self) -> (r: Vec<ArgumentType>)
        ensures
            r@ == self.spec_shape(),
    {
        let r = match self {
            ComputationKind::Deposit | ComputationKind::Withdraw => vec![
                ArgumentType::PlaintextU128,
                ArgumentType::EncryptedU64,
                ArgumentType::PlaintextU64,
            ],
            ComputationKind::SettleTrade => vec![
                ArgumentType::PlaintextU128,
                ArgumentType::EncryptedU64,
                ArgumentType::PlaintextU128,
                ArgumentType::EncryptedU64,
                ArgumentType::PlaintextU64,
            ],
            ComputationKind::HealthCheck => vec![
                ArgumentType::PlaintextU128,
                ArgumentType::EncryptedU64,
                ArgumentType::EncryptedU64,
                ArgumentType::PlaintextU64,
            ],
            ComputationKind::OrderSubmit => vec![
                ArgumentType::ArcisPubkey,
                ArgumentType::PlaintextU128,
                ArgumentType::EncryptedU64,
                ArgumentType::EncryptedU64,
                ArgumentType::EncryptedU8,
            ],
        };
        assert(r@ =~= self.spec_shape());
        r
    }

    /// How many result ciphertexts a successful computation of this kind returns.
    pub open spec fn spec_result_count(&self) -> usize {
        match self {
            ComputationKind::Deposit | ComputationKind::Withdraw => 2,
            ComputationKind::SettleTrade => 3,
            ComputationKind::HealthCheck | ComputationKind::OrderSubmit => 1,
        }
    }

    /// How many result ciphertexts a successful computation of this kind returns.
    #[verifier::when_used_as_spec(spec_result_count)]
    pub fn result_count(&self) -> (r: usize)
        ensures
            r == self.spec_result_count(),
    {
        match self {
            ComputationKind::Deposit | ComputationKind::Withdraw => 2,
            ComputationKind::SettleTrade => 3,
            ComputationKind::HealthCheck | ComputationKind::OrderSubmit => 1,
        }
    }

    /// Whether a request of this kind reads or writes margin accounts.
    pub open spec fn spec_touches_ledger(&self) -> bool {
        !(*self == ComputationKind::OrderSubmit)
    }

    /// Whether a request of this kind reads or writes margin accounts.
    #[verifier::when_used_as_spec(spec_touches_ledger)]
    pub fn touches_ledger(&self) -> (r: bool)
        ensures
            r == self.spec_touches_ledger(),
    {
        !(*self == ComputationKind::OrderSubmit)
    }

    /// Whether a request of this kind writes encrypted balances.
    pub open spec fn spec_mutates_balances(&self) -> bool {
        *self == ComputationKind::Deposit || *self == ComputationKind::Withdraw || *self
            == ComputationKind::SettleTrade
    }

    /// Whether a request of this kind writes encrypted balances.
    #[verifier::when_used_as_spec(spec_mutates_balances)]
    pub fn mutates_balances(&self) -> (r: bool)
        ensures
            r == self.spec_mutates_balances(),
    {
        *self == ComputationKind::Deposit || *self == ComputationKind::Withdraw || *self
            == ComputationKind::SettleTrade
    }

    /// The name of the circuit that evaluates this kind.
    pub open spec fn spec_circuit_name(&self) -> Seq<char> {
        match self {
            ComputationKind::Deposit => "deposit_collateral"@,
            ComputationKind::Withdraw => "withdraw_collateral"@,
            ComputationKind::SettleTrade => "settle_trade"@,
            ComputationKind::HealthCheck => "check_health"@,
            ComputationKind::OrderSubmit => "submit_order"@,
        }
    }

    /// The name of the circuit that evaluates this kind.
    pub fn circuit_name(&self) -> (r: &'static str)
        ensures
            r@ == self.spec_circuit_name(),
    {
        match self {
            ComputationKind::Deposit => "deposit_collateral",
            ComputationKind::Withdraw => "withdraw_collateral",
            ComputationKind::SettleTrade => "settle_trade",
            ComputationKind::HealthCheck => "check_health",
            ComputationKind::OrderSubmit => "submit_order",
        }
    }
}

/// Whether the argument list has exactly the types `shape` gives, in order.
pub fn matches_shape(args: &Vec<Argument>, shape: &Vec<ArgumentType>) -> (r: bool)
    ensures
        r == (shape_of(args@) == shape@),
{
    if args.len() != shape.len() {
        assert(shape_of(args@).len() != shape@.len());
        return false;
    }
    let mut i: usize = 0;
    while i < args.len()
        invariant
            args@.len() == shape@.len(),
            0 <= i <= args@.len(),
            forall|j: int| 0 <= j < i ==> #[trigger] args@[j].spec_type() == shape@[j],
        decreases args@.len() - i,
    {
        if args[i].arg_type() != shape[i] {
            assert(shape_of(args@)[i as int] != shape@[i as int]);
            return false;
        }
        i = i + 1;
    }
    assert(shape_of(args@) =~= shape@);
    true
}

/// The offset the cluster derives from a circuit's name.
pub uninterp spec fn circuit_offset(name: Seq<char>) -> u32;

/// Relies on arcium_anchor::comp_def_offset: the offset of a computation
/// definition is a function of the circuit's name alone.
#[verifier::external_body]
fn definition_offset(name: &str) -> (r: u32)
    ensures
        r == circuit_offset(name@),
{
    arcium_anchor::comp_def_offset(name)
}

/// A registered computation definition.
#[derive(Clone, Copy, Debug, PartialEq, Eq, Structural)]
pub struct Definition {
    pub kind: ComputationKind,
    pub offset: u32,
}

/// A request the cluster has not answered yet.
#[derive(Clone, Copy, Debug, PartialEq, Eq)]
pub struct PendingRequest {
    pub id: u64,
    pub kind: ComputationKind,
    /// The account the request is for.
    pub owner: Pubkey,
    /// The second account of a trade settlement.
    pub counterparty: Option<Pubkey>,
    pub issued_at: i64,
}

/// Whether request `r` names account `k`.
pub open spec fn names_account(r: PendingRequest, k: Pubkey) -> bool {
    r.owner == k || r.counterparty == Some(k)
}

/// Whether two requests name a common account.
pub open spec fn share_account(a: PendingRequest, b: PendingRequest) -> bool {
    names_account(b, a.owner) || (a.counterparty is Some && names_account(
        b,
        a.counterparty->Some_0,
    ))
}

pub open spec fn request_id() -> spec_fn(PendingRequest) -> u64 {
    |r: PendingRequest| r.id
}

pub open spec fn definition_kind() -> spec_fn(Definition) -> ComputationKind {
    |d: Definition| d.kind
}

/// The registered definitions and the pending requests.
pub struct Registry {
    /// The signer whose callbacks are accepted.
    pub cluster: Pubkey,
    pub definitions: Vec<Definition>,
    pub pending: Vec<PendingRequest>,
}

impl Registry {
    pub open spec fn definition_map(&self) -> Map<ComputationKind, Definition> {
        keyed_map(self.definitions@, definition_kind())
    }

    pub open spec fn pending_map(&self) -> Map<u64, PendingRequest> {
        keyed_map(self.pending@, request_id())
    }

    /// Some pending request that reads or writes margin accounts names `k`.
    pub open spec fn busy(&self, k: Pubkey) -> bool {
        exists|i: int|
            0 <= i < self.pending@.len() && (#[trigger] self.pending@[i]).kind.spec_touches_ledger()
                && names_account(self.pending@[i], k)
    }

    /// Some pending request that writes encrypted balances names `k`.
    pub open spec fn balance_busy(&self, k: Pubkey) -> bool {
        exists|i: int|
            0 <= i < self.pending@.len() && (#[trigger] self.pending@[i]).kind.spec_mutates_balances()
                && names_account(self.pending@[i], k)
    }

    /// Keys are unique, and no two pending requests that touch the ledger
    /// share an account.
    pub open spec fn wf(&self) -> bool {
        &&& unique_keys(self.definitions@, definition_kind())
        &&& unique_keys(self.pending@, request_id())
        &&& forall|i: int, j: int|
            0 <= i < self.pending@.len() && 0 <= j < self.pending@.len() && i != j
                && (#[trigger] self.pending@[i]).kind.spec_touches_ledger()
                && (#[trigger] self.pending@[j]).kind.spec_touches_ledger() ==> !share_account(
                self.pending@[i],
                self.pending@[j],
            )
    }

    /// Why `queue` refuses a request, if it does.
    pub open spec fn queue_error(
        &self,
        id: u64,
        kind: ComputationKind,
        args: Seq<Argument>,
        owner: Pubkey,
        counterparty: Option<Pubkey>,
    ) -> Option<ErrorCode> {
        if !self.definition_map().contains_key(kind) {
            Some(ErrorCode::ClusterNotSet)
        } else if self.pending_map().contains_key(id) {
            Some(ErrorCode::DuplicateRequest)
        } else if shape_of(args) != kind.spec_shape() || (counterparty is Some) != (kind
            == ComputationKind::SettleTrade) || counterparty == Some(owner) {
            Some(ErrorCode::InvalidArguments)
        } else if kind.spec_touches_ledger() && (self.busy(owner) || (counterparty is Some
            && self.busy(counterparty->Some_0))) {
            Some(ErrorCode::AccountBusy)
        } else {
            None
        }
    }

    /// A registry accepting callbacks from `cluster`, with nothing registered.
    pub fn new(cluster: Pubkey) -> (r: Registry)
        ensures
            r.wf(),
            r.cluster == cluster,
            r.definition_map() == Map::<ComputationKind, Definition>::empty(),
            r.pending_map() == Map::<u64, PendingRequest>::empty(),
    {
        let r = Registry { cluster, definitions: Vec::new(), pending: Vec::new() };
        assert(r.definition_map() =~= Map::<ComputationKind, Definition>::empty());
        assert(r.pending_map() =~= Map::<u64, PendingRequest>::empty());
        r
    }

    fn find_definition(&self, kind: ComputationKind) -> (r: Option<usize>)
        requires
            self.wf(),
        ensures
            match r {
                Some(i) => i < self.definitions@.len() && self.definitions@[i as int].kind == kind
                    && self.definition_map().contains_key(kind) && self.definition_map()[kind]
                    == self.definitions@[i as int],
                None => !self.definition_map().contains_key(kind),
            },
    {
        let mut i: usize = 0;
        while i < self.definitions.len()
            invariant
                self.wf(),
                0 <= i <= self.definitions@.len(),
                forall|j: int| 0 <= j < i ==> #[trigger] self.definitions@[j].kind != kind,
            decreases self.definitions@.len() - i,
        {
            if self.definitions[i].kind == kind {
                proof {
                    lemma_keyed_index(self.definitions@, definition_kind(), i as int);
                }
                return Some(i);
            }
            i = i + 1;
        }
        proof {
            if self.definition_map().contains_key(kind) {
                let j = choose|j: int|
                    0 <= j < self.definitions@.len() && #[trigger] definition_kind()(
                        self.definitions@[j],
                    ) == kind;
                assert(self.definitions@[j].kind == kind);
            }
        }
        None
    }

    fn find_pending(&self, id: u64) -> (r: Option<usize>)
        requires
            self.wf(),
        ensures
            match r {
                Some(i) => i < self.pending@.len() && self.pending@[i as int].id == id
                    && self.pending_map().contains_key(id) && self.pending_map()[id]
                    == self.pending@[i as int],
                None => !self.pending_map().contains_key(id),
            },
    {
        let mut i: usize = 0;
        while i < self.pending.len()
            invariant
                self.wf(),
                0 <= i <= self.pending@.len(),
                forall|j: int| 0 <= j < i ==> #[trigger] self.pending@[j].id != id,
            decreases self.pending@.len() - i,
        {
            if self.pending[i].id == id {
                proof {
                    lemma_keyed_index(self.pending@, request_id(), i as int);
                }
                return Some(i);
            }
            i = i + 1;
        }
        proof {
            if self.pending_map().contains_key(id) {
                let j = choose|j: int|
                    0 <= j < self.pending@.len() && #[trigger] request_id()(self.pending@[j]) == id;
                assert(self.pending@[j].id == id);
            }
        }
        None
    }

    /// Whether a pending request that touches the ledger names `k`.
    pub fn is_busy(&self, k: &Pubkey) -> (r: bool)
        ensures
            r == self.busy(*k),
    {
        let mut i: usize = 0;
        while i < self.pending.len()
            invariant
                0 <= i <= self.pending@.len(),
                forall|j: int|
                    0 <= j < i ==> !((#[trigger] self.pending@[j]).kind.spec_touches_ledger()
                        && names_account(self.pending@[j], *k)),
            decreases self.pending@.len() - i,
        {
            let p = &self.pending[i];
            if p.kind.touches_ledger() {
                let named = keys_equal(&p.owner, k) || match &p.counterparty {
                    Some(c) => keys_equal(c, k),
                    None => false,
                };
                if named {
                    return true;
                }
            }
            i = i + 1;
        }
        false
    }

    /// Whether a pending request that writes encrypted balances names `k`.
    pub fn is_balance_busy(&self, k: &Pubkey) -> (r: bool)
        ensures
            r == self.balance_busy(*k),
    {
        let mut i: usize = 0;
        while i < self.pending.len()
            invariant
                0 <= i <= self.pending@.len(),
                forall|j: int|
                    0 <= j < i ==> !((#[trigger] self.pending@[j]).kind.spec_mutates_balances()
                        && names_account(self.pending@[j], *k)),
            decreases self.pending@.len() - i,
        {
            let p = &self.pending[i];
            if p.kind.mutates_balances() {
                let named = keys_equal(&p.owner, k) || match &p.counterparty {
                    Some(c) => keys_equal(c, k),
                    None => false,
                };
                if named {
                    return true;
                }
            }
            i = i + 1;
        }
        false
    }

    /// Registers the computation definition of `kind`, once, and returns its offset.
    pub fn init_comp_def(&mut self, kind: ComputationKind) -> (r: Result<u32, ErrorCode>)
        requires
            old(self).wf(),
        ensures
            final(self).wf(),
            final(self).cluster == old(self).cluster,
            final(self).pending == old(self).pending,
            old(self).definition_map().contains_key(kind) ==> r == Err::<u32, ErrorCode>(
                ErrorCode::AlreadyExists,
            ) && final(self).definition_map() == old(self).definition_map(),
            !old(self).definition_map().contains_key(kind) ==> r == Ok::<u32, ErrorCode>(
                circuit_offset(kind.spec_circuit_name()),
            ) && final(self).definition_map() == old(self).definition_map().insert(
                kind,
                Definition { kind, offset: circuit_offset(kind.spec_circuit_name()) },
            ),
    {
        match self.find_definition(kind) {
            Some(_) => Err(ErrorCode::AlreadyExists),
            None => {
                let offset = definition_offset(kind.circuit_name());
                let d = Definition { kind, offset };
                proof {
                    lemma_keyed_push(self.definitions@, definition_kind(), d);
                }
                self.definitions.push(d);
                Ok(offset)
            },
        }
    }

    /// Records a request as pending, once its arguments have the shape of its
    /// kind and no other pending request touches its accounts.
    pub fn queue(
        &mut self,
        id: u64,
        kind: ComputationKind,
        args: &Vec<Argument>,
        owner: Pubkey,
        counterparty: Option<Pubkey>,
        issued_at: i64,
    ) -> (r: Result<(), ErrorCode>)
        requires
            old(self).wf(),
        ensures
            final(self).wf(),
            final(self).cluster == old(self).cluster,
            final(self).definitions == old(self).definitions,
            match old(self).queue_error(id, kind, args@, owner, counterparty) {
                Some(e) => r == Err::<(), ErrorCode>(e) && final(self).pending_map() == old(self).pending_map(),
                None => r is Ok && final(self).pending_map() == old(self).pending_map().insert(
                    id,
                    PendingRequest { id, kind, owner, counterparty, issued_at },
                ),
            },
    {
        if self.find_definition(kind).is_none() {
            return Err(ErrorCode::ClusterNotSet);
        }
        if self.find_pending(id).is_some() {
            return Err(ErrorCode::DuplicateRequest);
        }
        let is_settle = kind == ComputationKind::SettleTrade;
        let bad_counterparty = match &counterparty {
            Some(c) => !is_settle || keys_equal(c, &owner),
            None => is_settle,
        };
        if !matches_shape(args, &kind.shape()) || bad_counterparty {
            return Err(ErrorCode::InvalidArguments);
        }
        if kind.touches_ledger() {
            let busy = self.is_busy(&owner) || match &counterparty {
                Some(c) => self.is_busy(c),
                None => false,
            };
            if busy {
                return Err(ErrorCode::AccountBusy);
            }
        }
        let req = PendingRequest { id, kind, owner, counterparty, issued_at };
        proof {
            lemma_keyed_push(self.pending@, request_id(), req);
        }
        self.pending.push(req);
        proof {
            let p = self.pending@;
            let n = old(self).pending@.len() as int;
            assert forall|i: int, j: int|
                0 <= i < p.len() && 0 <= j < p.len() && i != j
                    && (#[trigger] p[i]).kind.spec_touches_ledger()
                    && (#[trigger] p[j]).kind.spec_touches_ledger() implies !share_account(p[i], p[j]) by {
                if i == n {
                    assert(p[j] == old(self).pending@[j]);
                    if share_account(p[i], p[j]) {
                        if names_account(p[j], owner) {
                            assert(old(self).busy(owner));
                        } else {
                            assert(old(self).busy(counterparty->Some_0));
                        }
                    }
                } else if j == n {
                    assert(p[i] == old(self).pending@[i]);
                    if share_account(p[i], p[j]) {
                        if names_account(p[i], owner) || p[i].owner == owner {
                            assert(old(self).busy(owner));
                        } else {
                            assert(old(self).busy(counterparty->Some_0));
                        }
                    }
                } else {
                    assert(p[i] == old(self).pending@[i]);
                    assert(p[j] == old(self).pending@[j]);
                }
            }
        }
        Ok(())
    }

    /// Why a callback is refused before its outcome is looked at, if it is:
    /// it must answer a pending request of its kind, come from the cluster's
    /// signer, and name the registered definition of that kind.
    pub open spec fn callback_rejection(&self, caller: Pubkey, offset: u32, id: u64, kind: ComputationKind) -> Option<ErrorCode> {
        if !self.pending_map().contains_key(id) || self.pending_map()[id].kind != kind {
            Some(ErrorCode::UnknownOrAlreadyTerminal)
        } else if caller != self.cluster || !self.definition_map().contains_key(kind)
            || self.definition_map()[kind].offset != offset {
            Some(ErrorCode::UnauthorizedCallback)
        } else {
            None
        }
    }

    fn remove_pending(&mut self, i: usize) -> (r: PendingRequest)
        requires
            old(self).wf(),
            i < old(self).pending@.len(),
        ensures
            final(self).wf(),
            final(self).cluster == old(self).cluster,
            final(self).definitions == old(self).definitions,
            r == old(self).pending@[i as int],
            final(self).pending_map() == old(self).pending_map().remove(r.id),
    {
        proof {
            lemma_keyed_remove(self.pending@, request_id(), i as int);
        }
        let r = self.pending.remove(i);
        proof {
            let p = self.pending@;
            let o = old(self).pending@;
            assert forall|x: int, y: int|
                0 <= x < p.len() && 0 <= y < p.len() && x != y
                    && (#[trigger] p[x]).kind.spec_touches_ledger()
                    && (#[trigger] p[y]).kind.spec_touches_ledger() implies !share_account(p[x], p[y]) by {
                let ox = if x < i { x } else { x + 1 };
                let oy = if y < i { y } else { y + 1 };
                assert(p[x] == o[ox]);
                assert(p[y] == o[oy]);
            }
        }
        r
    }

    /// Settles pending request `id` with the cluster's `outcome`, once.
    ///
    /// A callback for a request that is not pending, from another signer, or
    /// for another definition is refused with nothing changed. An aborted
    /// computation ends the request and changes no account. A successful one
    /// is applied to the ledger (both accounts of a settlement or neither) and
    /// ends the request; where it cannot be applied, nothing changes.
    pub fn on_callback(
        &mut self,
        ledger: &mut Ledger,
        caller: &Pubkey,
        offset: u32,
        id: u64,
        kind: ComputationKind,
        outcome: &ComputationOutputs,
        now: i64,
    ) -> (r: Result<CallbackEffect, ErrorCode>)
        requires
            old(self).wf(),
            old(ledger).wf(),
        ensures
            final(self).wf(),
            final(ledger).wf(),
            final(self).cluster == old(self).cluster,
            final(self).definitions == old(self).definitions,
            callback_settled(*old(self), *final(self), old(ledger)@, final(ledger)@, r, *caller, offset, id, kind, *outcome, now),
    {
        let i = match self.find_pending(id) {
            Some(i) => i,
            None => return Err(ErrorCode::UnknownOrAlreadyTerminal),
        };
        if self.pending[i].kind != kind {
            return Err(ErrorCode::UnknownOrAlreadyTerminal);
        }
        let authorized = keys_equal(caller, &self.cluster) && match self.find_definition(kind) {
            Some(d) => self.definitions[d].offset == offset,
            None => false,
        };
        if !authorized {
            return Err(ErrorCode::UnauthorizedCallback);
        }
        let req = self.pending[i];
        match outcome {
            ComputationOutputs::Aborted => {
                self.remove_pending(i);
                Err(ErrorCode::AbortedComputation)
            },
            ComputationOutputs::Success(out) => {
                let effect = apply_result(ledger, &req, out, now);
                match effect {
                    Ok(e) => {
                        self.remove_pending(i);
                        Ok(e)
                    },
                    Err(e) => Err(e),
                }
            },
        }
    }
}

/// What a deposit or a withdrawal produced: the new collateral ciphertext,
/// the nonce it is under, and the encrypted success byte.
#[derive(Clone, Copy, Debug, PartialEq, Eq)]
pub struct DepositEvent {
    pub owner: Pubkey,
    pub nonce: u128,
    pub new_balance: Ciphertext,
    pub success: u8,
    pub timestamp: i64,
}

#[derive(Clone, Copy, Debug, PartialEq, Eq)]
pub struct WithdrawEvent {
    pub owner: Pubkey,
    pub nonce: u128,
    pub new_balance: Ciphertext,
    pub success: u8,
    pub timestamp: i64,
}

/// What a trade settlement produced for both accounts.
#[derive(Clone, Copy, Debug, PartialEq, Eq)]
pub struct TradeSettledEvent {
    pub buyer: Pubkey,
    pub seller: Pubkey,
    pub nonce: u128,
    pub buyer_balance: Ciphertext,
    pub seller_balance: Ciphertext,
    pub success: u8,
    pub timestamp: i64,
}

/// The revealed health of an account, and whether it was written to the
/// ledger (it is not for an account whose balances are both encrypted zeros).
#[derive(Clone, Copy, Debug, PartialEq, Eq)]
pub struct HealthCheckResult {
    pub margin_account: Pubkey,
    pub encrypted_is_liquidatable: Ciphertext,
    pub nonce: u128,
    pub is_liquidatable: bool,
    pub applied: bool,
}

/// An order confirmation, encrypted for the order's owner.
#[derive(Clone, Copy, Debug, PartialEq, Eq)]
pub struct OrderSubmittedEvent {
    pub owner: Pubkey,
    pub encrypted_data: Ciphertext,
    pub nonce: u128,
    pub timestamp: i64,
}

/// The fact a settled request emits.
#[derive(Clone, Copy, Debug, PartialEq, Eq)]
pub enum CallbackEffect {
    Deposited(DepositEvent),
    Withdrawn(WithdrawEvent),
    TradeSettled(TradeSettledEvent),
    HealthChecked(HealthCheckResult),
    OrderSubmitted(OrderSubmittedEvent),
}

/// What `on_callback` leaves behind and returns, from registry `before` and
/// ledger `lb` to registry `after` and ledger `la`.
pub open spec fn callback_settled(
    before: Registry,
    after: Registry,
    lb: Map<Pubkey, MarginAccount>,
    la: Map<Pubkey, MarginAccount>,
    r: Result<CallbackEffect, ErrorCode>,
    caller: Pubkey,
    offset: u32,
    id: u64,
    kind: ComputationKind,
    outcome: ComputationOutputs,
    now: i64,
) -> bool {
    &&& after.wf()
    &&& after.cluster == before.cluster
    &&& after.definitions == before.definitions
    &&& match before.callback_rejection(caller, offset, id, kind) {
        Some(e) => r == Err::<CallbackEffect, ErrorCode>(e) && after.pending_map()
            == before.pending_map() && la == lb,
        None => {
            let req = before.pending_map()[id];
            match outcome {
                ComputationOutputs::Aborted => r == Err::<CallbackEffect, ErrorCode>(
                    ErrorCode::AbortedComputation,
                ) && after.pending_map() == before.pending_map().remove(id) && la == lb,
                ComputationOutputs::Success(out) => match callback_result(
                    lb,
                    req,
                    out.ciphertexts@,
                    out.nonce,
                ) {
                    Err(e) => r == Err::<CallbackEffect, ErrorCode>(e) && after.pending_map()
                        == before.pending_map() && la == lb,
                    Ok(m) => r == Ok::<CallbackEffect, ErrorCode>(
                        callback_effect(lb, req, out.ciphertexts@, out.nonce, now),
                    ) && after.pending_map() == before.pending_map().remove(id) && la == m,
                },
            }
        },
    }
}

/// The flag a health-check result reveals: its first byte is not zero.
pub open spec fn revealed_flag(c: Ciphertext) -> bool {
    c@[0] != 0
}

/// The ledger after the result ciphertexts `cts`, under nonce `n`, of request
/// `req` are applied; or why they cannot be.
pub open spec fn callback_result(
    l: Map<Pubkey, MarginAccount>,
    req: PendingRequest,
    cts: Seq<Ciphertext>,
    n: u128,
) -> Result<Map<Pubkey, MarginAccount>, ErrorCode> {
    let owner = req.owner;
    if cts.len() != req.kind.spec_result_count() {
        Err(ErrorCode::InvalidArguments)
    } else {
        match req.kind {
            ComputationKind::Deposit | ComputationKind::Withdraw => {
                if !l.contains_key(owner) {
                    Err(ErrorCode::AccountNotFound)
                } else if leaves_stale(l[owner], Some(cts[0]), None, n) {
                    Err(ErrorCode::InvalidArguments)
                } else {
                    Ok(l.insert(owner, balance_updated(l[owner], Some(cts[0]), None, n)))
                }
            },
            ComputationKind::SettleTrade => {
                match req.counterparty {
                    None => Err(ErrorCode::InvalidArguments),
                    Some(seller) => {
                        if !l.contains_key(owner) || !l.contains_key(seller) {
                            Err(ErrorCode::AccountNotFound)
                        } else if owner == seller || leaves_stale(l[owner], Some(cts[0]), None, n)
                            || leaves_stale(l[seller], Some(cts[1]), None, n) {
                            Err(ErrorCode::InvalidArguments)
                        } else {
                            Ok(
                                l.insert(
                                    owner,
                                    balance_updated(l[owner], Some(cts[0]), None, n),
                                ).insert(seller, balance_updated(l[seller], Some(cts[1]), None, n)),
                            )
                        }
                    },
                }
            },
            ComputationKind::HealthCheck => {
                if !l.contains_key(owner) {
                    Err(ErrorCode::AccountNotFound)
                } else if is_zero_encoding(l[owner].encrypted_collateral) && is_zero_encoding(
                    l[owner].encrypted_debt,
                ) {
                    Ok(l)
                } else {
                    Ok(
                        l.insert(
                            owner,
                            MarginAccount { is_liquidatable: revealed_flag(cts[0]), ..l[owner] },
                        ),
                    )
                }
            },
            ComputationKind::OrderSubmit => Ok(l),
        }
    }
}

/// The fact emitted when the results `cts` of request `req` are applied.
pub open spec fn callback_effect(
    l: Map<Pubkey, MarginAccount>,
    req: PendingRequest,
    cts: Seq<Ciphertext>,
    n: u128,
    now: i64,
) -> CallbackEffect {
    match req.kind {
        ComputationKind::Deposit => CallbackEffect::Deposited(
            DepositEvent {
                owner: req.owner,
                nonce: n,
                new_balance: cts[0],
                success: cts[1]@[0],
                timestamp: now,
            },
        ),
        ComputationKind::Withdraw => CallbackEffect::Withdrawn(
            WithdrawEvent {
                owner: req.owner,
                nonce: n,
                new_balance: cts[0],
                success: cts[1]@[0],
                timestamp: now,
            },
        ),
        ComputationKind::SettleTrade => CallbackEffect::TradeSettled(
            TradeSettledEvent {
                buyer: req.owner,
                seller: req.counterparty->Some_0,
                nonce: n,
                buyer_balance: cts[0],
                seller_balance: cts[1],
                success: cts[2]@[0],
                timestamp: now,
            },
        ),
        ComputationKind::HealthCheck => CallbackEffect::HealthChecked(
            HealthCheckResult {
                margin_account: req.owner,
                encrypted_is_liquidatable: cts[0],
                nonce: n,
                is_liquidatable: revealed_flag(cts[0]),
                applied: !(is_zero_encoding(l[req.owner].encrypted_collateral) && is_zero_encoding(
                    l[req.owner].encrypted_debt,
                )),
            },
        ),
        ComputationKind::OrderSubmit => CallbackEffect::OrderSubmitted(
            OrderSubmittedEvent {
                owner: req.owner,
                encrypted_data: cts[0],
                nonce: n,
                timestamp: now,
            },
        ),
    }
}

/// Applies the results of `req` to the ledger and returns the fact to emit;
/// on an error the ledger is unchanged.
fn apply_result(ledger: &mut Ledger, req: &PendingRequest, out: &EncryptedOutput, now: i64) -> (r: Result<CallbackEffect, ErrorCode>)
    requires
        old(ledger).wf(),
    ensures
        final(ledger).wf(),
        match callback_result(old(ledger)@, *req, out.ciphertexts@, out.nonce) {
            Err(e) => r == Err::<CallbackEffect, ErrorCode>(e) && final(ledger)@ == old(ledger)@,
            Ok(m) => r == Ok::<CallbackEffect, ErrorCode>(
                callback_effect(old(ledger)@, *req, out.ciphertexts@, out.nonce, now),
            ) && final(ledger)@ == m,
        },
{
    let cts = &out.ciphertexts;
    let n = out.nonce;
    if cts.len() != req.kind.result_count() {
        return Err(ErrorCode::InvalidArguments);
    }
    match req.kind {
        ComputationKind::Deposit => {
            let c = cts[0];
            ledger.apply_balance_update(&req.owner, Some(c), None, n)?;
            Ok(CallbackEffect::Deposited(DepositEvent {
                owner: req.owner,
                nonce: n,
                new_balance: c,
                success: cts[1][0],
                timestamp: now,
            }))
        },
        ComputationKind::Withdraw => {
            let c = cts[0];
            ledger.apply_balance_update(&req.owner, Some(c), None, n)?;
            Ok(CallbackEffect::Withdrawn(WithdrawEvent {
                owner: req.owner,
                nonce: n,
                new_balance: c,
                success: cts[1][0],
                timestamp: now,
            }))
        },
        ComputationKind::SettleTrade => {
            let seller = match req.counterparty {
                Some(s) => s,
                None => return Err(ErrorCode::InvalidArguments),
            };
            ledger.apply_pair_update(&req.owner, &seller, cts[0], cts[1], n)?;
            Ok(CallbackEffect::TradeSettled(TradeSettledEvent {
                buyer: req.owner,
                seller,
                nonce: n,
                buyer_balance: cts[0],
                seller_balance: cts[1],
                success: cts[2][0],
                timestamp: now,
            }))
        },
        ComputationKind::HealthCheck => {
            let account = match ledger.read(&req.owner) {
                Some(a) => a,
                None => return Err(ErrorCode::AccountNotFound),
            };
            let flag = cts[0][0] != 0;
            let applied = !(is_zero_ciphertext(&account.encrypted_collateral) && is_zero_ciphertext(&account.encrypted_debt));
            if applied {
                ledger.set_liquidatable(&req.owner, flag)?;
            }
            Ok(CallbackEffect::HealthChecked(HealthCheckResult {
                margin_account: req.owner,
                encrypted_is_liquidatable: cts[0],
                nonce: n,
                is_liquidatable: flag,
                applied,
            }))
        },
        ComputationKind::OrderSubmit => {
            Ok(CallbackEffect::OrderSubmitted(OrderSubmittedEvent {
                owner: req.owner,
                encrypted_data: cts[0],
                nonce: n,
                timestamp: now,
            }))
        },
    }
}

/// A request is settled at most once: once a callback has ended it (applied
/// or aborted), every later callback naming it is refused with
/// `UnknownOrAlreadyTerminal`, whoever sends it and whatever its outcome, and
/// changes neither the registry nor the ledger.
pub proof fn lemma_callback_at_most_once(
    before: Registry,
    after: Registry,
    caller: Pubkey,
    offset: u32,
    id: u64,
    kind: ComputationKind,
    again: Registry,
    lb: Map<Pubkey, MarginAccount>,
    la: Map<Pubkey, MarginAccount>,
    r: Result<CallbackEffect, ErrorCode>,
    outcome: ComputationOutputs,
    now: i64,
)
    requires
        after.pending_map() == before.pending_map().remove(id),
        callback_settled(after, again, lb, la, r, caller, offset, id, kind, outcome, now),
    ensures
        after.callback_rejection(caller, offset, id, kind) == Some(ErrorCode::UnknownOrAlreadyTerminal),
        r == Err::<CallbackEffect, ErrorCode>(ErrorCode::UnknownOrAlreadyTerminal),
        again.pending_map() == after.pending_map(),
        la == lb,
{
}

/// An aborted computation changes no account, whoever delivers it: for a
/// settlement, the buyer's and the seller's ciphertexts and nonces stay
/// exactly as they were. Delivered for a pending request of its kind by the
/// cluster, it ends that request with `AbortedComputation`.
pub proof fn lemma_abort_changes_no_account(
    before: Registry,
    after: Registry,
    lb: Map<Pubkey, MarginAccount>,
    la: Map<Pubkey, MarginAccount>,
    r: Result<CallbackEffect, ErrorCode>,
    caller: Pubkey,
    offset: u32,
    id: u64,
    kind: ComputationKind,
    now: i64,
)
    requires
        callback_settled(before, after, lb, la, r, caller, offset, id, kind, ComputationOutputs::Aborted, now),
    ensures
        la == lb,
        r is Err,
        before.callback_rejection(caller, offset, id, kind) is None ==> r == Err::<
            CallbackEffect,
            ErrorCode,
        >(ErrorCode::AbortedComputation) && after.pending_map() == before.pending_map().remove(id),
{
}

/// A deposit that would pass the largest balance comes back with success 0
/// and the balance unchanged; its result ciphertext, which encodes that same
/// balance under the cluster's fresh nonce, is still written to the account
/// together with that nonce.
pub proof fn lemma_overflowing_deposit(
    current: u64,
    amount: u64,
    l: Map<Pubkey, MarginAccount>,
    req: PendingRequest,
    cts: Seq<Ciphertext>,
    n: u128,
)
    requires
        current as nat + amount as nat > max_balance(),
        req.kind == ComputationKind::Deposit,
        cts.len() == 2,
        l.contains_key(req.owner),
        !leaves_stale(l[req.owner], Some(cts[0]), None, n),
    ensures
        deposit_outcome(current as nat, amount as nat) == (current as nat, 0u8),
        callback_result(l, req, cts, n) == Ok::<Map<Pubkey, MarginAccount>, ErrorCode>(
            l.insert(req.owner, balance_updated(l[req.owner], Some(cts[0]), None, n)),
        ),
        balance_updated(l[req.owner], Some(cts[0]), None, n).encrypted_collateral == cts[0],
        balance_updated(l[req.owner], Some(cts[0]), None, n).nonce == n,
{
}

} // verus!
