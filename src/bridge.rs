//! The bridge: minting the wrapped asset against external deposits under a
//! 2-of-3 validator multisig, at most once per external transaction, and
//! burning it for withdrawal requests.
use vstd::prelude::*;
use crate::custody::CustodyAction;
use crate::envelope::{Pubkey, keys_equal};
use crate::error::{BridgeError, ErrorCode};
use crate::keyed::{keyed_map, unique_keys, lemma_keyed_index, lemma_keyed_push};

verus! {

/// The longest external address accepted, in bytes.
pub const MAX_ADDRESS_LEN: usize = 256;

/// How many of the configured validators must sign a mint.
pub const REQUIRED_SIGNATURES: u64 = 2;

/// The bridge's configuration.
#[derive(Clone, Copy, Debug, PartialEq, Eq)]
pub struct BridgeConfig {
    /// May rotate the validators.
    pub authority: Pubkey,
    pub validator1: Pubkey,
    pub validator2: Pubkey,
    pub validator3: Pubkey,
    /// The wrapped asset's mint.
    pub wzec_mint: Pubkey,
    /// How many deposits were minted against; only observed.
    pub deposit_count: u64,
    pub bump: u8,
}

impl BridgeConfig {
    pub open spec fn spec_is_validator(&self, k: Pubkey) -> bool {
        k == self.validator1 || k == self.validator2 || k == self.validator3
    }

    /// Whether `pubkey` is one of the three validators.
    pub fn is_validator(&self, pubkey: &Pubkey) -> (r: bool)
        ensures
            r == self.spec_is_validator(*pubkey),
    {
        keys_equal(pubkey, &self.validator1) || keys_equal(pubkey, &self.validator2) || keys_equal(
            pubkey,
            &self.validator3,
        )
    }

    /// How many of the three validators are among `signers`.
    pub open spec fn signed_count(&self, signers: Seq<Pubkey>) -> nat {
        (if signers.contains(self.validator1) { 1nat } else { 0nat }) + (if signers.contains(
            self.validator2,
        ) {
            1nat
        } else {
            0nat
        }) + (if signers.contains(self.validator3) { 1nat } else { 0nat })
    }

    /// The three validators are distinct identities.
    pub open spec fn validators_distinct(&self) -> bool {
        self.validator1 != self.validator2 && self.validator1 != self.validator3 && self.validator2
            != self.validator3
    }
}

/// The replay-guard record of one external deposit.
#[derive(Clone, Copy, Debug, PartialEq, Eq)]
pub struct ProcessedDeposit {
    pub zcash_txid: [u8; 32],
    pub recipient: Pubkey,
    pub amount: u64,
    pub timestamp: i64,
    pub bump: u8,
}

pub open spec fn deposit_txid() -> spec_fn(ProcessedDeposit) -> [u8; 32] {
    |d: ProcessedDeposit| d.zcash_txid
}

/// The bridge's state: its configuration and every deposit minted against.
pub struct Bridge {
    pub config: BridgeConfig,
    pub processed: Vec<ProcessedDeposit>,
}

/// The fact a mint emits.
#[derive(Clone, Copy, Debug, PartialEq, Eq)]
pub struct DepositProcessed {
    pub zcash_txid: [u8; 32],
    pub recipient: Pubkey,
    pub amount: u64,
    pub timestamp: i64,
}

/// The fact a withdrawal request emits, for the external processor.
#[derive(Clone, Debug)]
pub struct WithdrawalRequested {
    pub user: Pubkey,
    pub amount: u64,
    pub zcash_address: String,
    pub timestamp: i64,
}

/// Whether `k` is one of `signers`.
fn signed_by(signers: &Vec<Pubkey>, k: &Pubkey) -> (r: bool)
    ensures
        r == signers@.contains(*k),
{
    let mut i: usize = 0;
    while i < signers.len()
        invariant
            0 <= i <= signers@.len(),
            forall|j: int| 0 <= j < i ==> #[trigger] signers@[j] != *k,
        decreases signers@.len() - i,
    {
        if keys_equal(&signers[i], k) {
            assert(signers@[i as int] == *k);
            return true;
        }
        i = i + 1;
    }
    false
}

impl Bridge {
    pub open spec fn processed_map(&self) -> Map<[u8; 32], ProcessedDeposit> {
        keyed_map(self.processed@, deposit_txid())
    }

    /// One record per external transaction, and three distinct validators.
    pub open spec fn wf(&self) -> bool {
        &&& unique_keys(self.processed@, deposit_txid())
        &&& self.config.validators_distinct()
    }

    /// Why a mint is refused, if it is. A zero amount is refused first; then
    /// a replay, whatever the signatures; then fewer than two validator
    /// signatures; then a deposit counter that cannot grow.
    pub open spec fn mint_error(&self, amount: u64, zcash_txid: [u8; 32], signers: Seq<Pubkey>) -> Option<ErrorCode> {
        if amount == 0 {
            Some(ErrorCode::InvalidAmount)
        } else if self.processed_map().contains_key(zcash_txid) {
            Some(ErrorCode::DepositAlreadyProcessed)
        } else if self.config.signed_count(signers) < REQUIRED_SIGNATURES {
            Some(ErrorCode::InsufficientSignatures)
        } else if self.config.deposit_count == u64::MAX {
            Some(ErrorCode::MathOverflow)
        } else {
            None
        }
    }

    fn find_deposit(&self, txid: &[u8; 32]) -> (r: bool)
        requires
            self.wf(),
        ensures
            r == self.processed_map().contains_key(*txid),
    {
        let mut i: usize = 0;
        while i < self.processed.len()
            invariant
                self.wf(),
                0 <= i <= self.processed@.len(),
                forall|j: int| 0 <= j < i ==> #[trigger] self.processed@[j].zcash_txid != *txid,
            decreases self.processed@.len() - i,
        {
            if keys_equal(&self.processed[i].zcash_txid, txid) {
                proof {
                    lemma_keyed_index(self.processed@, deposit_txid(), i as int);
                }
                return true;
            }
            i = i + 1;
        }
        proof {
            if self.processed_map().contains_key(*txid) {
                let j = choose|j: int|
                    0 <= j < self.processed@.len() && #[trigger] deposit_txid()(self.processed@[j])
                        == *txid;
                assert(self.processed@[j].zcash_txid == *txid);
            }
        }
        false
    }

    /// How many of the three validators are among `signers`.
    pub fn count_signatures(&self, signers: &Vec<Pubkey>) -> (r: u64)
        ensures
            r == self.config.signed_count(signers@),
    {
        let mut count: u64 = 0;
        if signed_by(signers, &self.config.validator1) {
            count = count + 1;
        }
        if signed_by(signers, &self.config.validator2) {
            count = count + 1;
        }
        if signed_by(signers, &self.config.validator3) {
            count = count + 1;
        }
        count
    }
}

/// A bridge with three distinct validators and no deposits; refused with
/// `InvalidArguments` where two validators are the same identity.
pub fn initialize_bridge(
    authority: Pubkey,
    validator1: Pubkey,
    validator2: Pubkey,
    validator3: Pubkey,
    wzec_mint: Pubkey,
    bump: u8,
) -> (r: Result<Bridge, ErrorCode>)
    ensures
        match r {
            Ok(b) => b.wf() && b.config == (BridgeConfig {
                authority,
                validator1,
                validator2,
                validator3,
                wzec_mint,
                deposit_count: 0,
                bump,
            }) && b.processed_map() == Map::<[u8; 32], ProcessedDeposit>::empty(),
            Err(e) => e == ErrorCode::InvalidArguments,
        },
        r is Ok <==> (validator1 != validator2 && validator1 != validator3 && validator2 != validator3),
{
    if keys_equal(&validator1, &validator2) || keys_equal(&validator1, &validator3) || keys_equal(
        &validator2,
        &validator3,
    ) {
        return Err(ErrorCode::InvalidArguments);
    }
    let b = Bridge {
        config: BridgeConfig {
            authority,
            validator1,
            validator2,
            validator3,
            wzec_mint,
            deposit_count: 0,
            bump,
        },
        processed: Vec::new(),
    };
    assert(b.processed_map() =~= Map::<[u8; 32], ProcessedDeposit>::empty());
    Ok(b)
}

/// Mints `amount` to `recipient` for the external deposit `zcash_txid`,
/// signed by `signers`. The replay record is created together with the mint,
/// and the deposit counter grows by one; on an error nothing changes.
pub fn mint_wrapped(
    bridge: &mut Bridge,
    amount: u64,
    zcash_txid: [u8; 32],
    signers: &Vec<Pubkey>,
    recipient: Pubkey,
    bump: u8,
    now: i64,
) -> (r: Result<(DepositProcessed, CustodyAction), ErrorCode>)
    requires
        old(bridge).wf(),
    ensures
        final(bridge).wf(),
        match old(bridge).mint_error(amount, zcash_txid, signers@) {
            Some(e) => r == Err::<(DepositProcessed, CustodyAction), ErrorCode>(e) && final(bridge).config
                == old(bridge).config && final(bridge).processed_map() == old(bridge).processed_map(),
            None => r == Ok::<(DepositProcessed, CustodyAction), ErrorCode>(
                (
                    DepositProcessed { zcash_txid, recipient, amount, timestamp: now },
                    CustodyAction::Mint { recipient, amount },
                ),
            ) && final(bridge).config == (BridgeConfig {
                deposit_count: (old(bridge).config.deposit_count + 1) as u64,
                ..old(bridge).config
            }) && final(bridge).processed_map() == old(bridge).processed_map().insert(
                zcash_txid,
                ProcessedDeposit { zcash_txid, recipient, amount, timestamp: now, bump },
            ),
        },
{
    if amount == 0 {
        return Err(ErrorCode::InvalidAmount);
    }
    if bridge.find_deposit(&zcash_txid) {
        return Err(ErrorCode::DepositAlreadyProcessed);
    }
    if bridge.count_signatures(signers) < REQUIRED_SIGNATURES {
        return Err(ErrorCode::InsufficientSignatures);
    }
    if bridge.config.deposit_count == u64::MAX {
        return Err(ErrorCode::MathOverflow);
    }
    let record = ProcessedDeposit { zcash_txid, recipient, amount, timestamp: now, bump };
    proof {
        lemma_keyed_push(bridge.processed@, deposit_txid(), record);
    }
    bridge.processed.push(record);
    bridge.config.deposit_count = bridge.config.deposit_count + 1;
    Ok((DepositProcessed { zcash_txid, recipient, amount, timestamp: now }, CustodyAction::Mint { recipient, amount }))
}

/// Why a withdrawal request is refused, if it is; the address is measured
/// in bytes of its UTF-8 encoding.
pub open spec fn withdrawal_request_error(amount: u64, address: &str) -> Option<BridgeError> {
    if amount == 0 {
        Some(BridgeError::InvalidAmount)
    } else if address@.len() == 0 {
        Some(BridgeError::InvalidZcashAddress)
    } else if address.len() > MAX_ADDRESS_LEN {
        Some(BridgeError::ZcashAddressTooLong)
    } else {
        None
    }
}

/// Burns `amount` from `user` and hands the external address on to the
/// withdrawal processor; nothing on the ledger tracks its completion.
pub fn request_withdrawal(user: Pubkey, amount: u64, zcash_address: &str, now: i64) -> (r: Result<(WithdrawalRequested, CustodyAction), BridgeError>)
    ensures
        match withdrawal_request_error(amount, zcash_address) {
            Some(e) => r is Err && r->Err_0 == e,
            None => r is Ok && r->Ok_0.0.user == user && r->Ok_0.0.amount == amount
                && r->Ok_0.0.zcash_address@ == zcash_address@ && r->Ok_0.0.timestamp == now
                && r->Ok_0.1 == (CustodyAction::Burn { user, amount }),
        },
{
    if amount == 0 {
        return Err(BridgeError::InvalidAmount);
    }
    if zcash_address.is_empty() {
        return Err(BridgeError::InvalidZcashAddress);
    }
    if zcash_address.len() > MAX_ADDRESS_LEN {
        return Err(BridgeError::ZcashAddressTooLong);
    }
    let event = WithdrawalRequested { user, amount, zcash_address: zcash_address.to_owned(), timestamp: now };
    Ok((event, CustodyAction::Burn { user, amount }))
}

/// A mint against an external transaction succeeds at most once: once its
/// record exists, every later mint of a non-zero amount naming it is refused
/// with `DepositAlreadyProcessed`, whatever its signatures.
pub proof fn lemma_replay_refused(
    before: Bridge,
    after: Bridge,
    zcash_txid: [u8; 32],
    record: ProcessedDeposit,
    amount: u64,
    signers: Seq<Pubkey>,
)
    requires
        after.processed_map() == before.processed_map().insert(zcash_txid, record),
        amount > 0,
    ensures
        after.mint_error(amount, zcash_txid, signers) == Some(ErrorCode::DepositAlreadyProcessed),
{
    assert(after.processed_map().contains_key(zcash_txid));
}

/// With a fresh transaction, a non-zero amount and room in the counter, a mint
/// signed by exactly one validator is refused with `InsufficientSignatures`,
/// and one signed by two or three validators succeeds.
pub proof fn lemma_multisig_threshold(b: Bridge, amount: u64, zcash_txid: [u8; 32], signers: Seq<Pubkey>)
    requires
        !b.processed_map().contains_key(zcash_txid),
        amount > 0,
        b.config.deposit_count < u64::MAX,
    ensures
        b.config.signed_count(signers) == 1 ==> b.mint_error(amount, zcash_txid, signers) == Some(
            ErrorCode::InsufficientSignatures,
        ),
        b.config.signed_count(signers) >= 2 ==> b.mint_error(amount, zcash_txid, signers) is None,
{
}

} // verus!
