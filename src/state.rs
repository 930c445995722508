//! The margin ledger: one account per owner, holding encrypted collateral and
//! debt under a single nonce, and the public liquidation flag.
use vstd::prelude::*;
use crate::envelope::{Ciphertext, Pubkey, is_zero_encoding, is_zero_ciphertext, keys_equal, zero_ciphertext};
use crate::error::ErrorCode;
use crate::keyed::{keyed_map, unique_keys, lemma_keyed_index, lemma_keyed_update, lemma_keyed_push};

verus! {

/// The margin record of one owner.
#[derive(Clone, Copy)]
pub struct MarginAccount {
    /// The controlling principal; never changes.
    pub owner: Pubkey,
    pub encrypted_collateral: Ciphertext,
    pub encrypted_debt: Ciphertext,
    /// The nonce under which both ciphertexts are to be decrypted.
    pub nonce: u128,
    /// Set by a health-check result, cleared by liquidation or a healthy result.
    pub is_liquidatable: bool,
    pub bump: u8,
    /// The nonce the collateral ciphertext was produced under.
    pub collateral_sealed_under: Ghost<u128>,
    /// The nonce the debt ciphertext was produced under.
    pub debt_sealed_under: Ghost<u128>,
}

impl MarginAccount {
    /// Both ciphertexts are valid under the stored nonce: each is either the
    /// all-zero encoding or was produced under that nonce.
    pub open spec fn coupled(&self) -> bool {
        &&& (is_zero_encoding(self.encrypted_collateral) || self.collateral_sealed_under@
            == self.nonce)
        &&& (is_zero_encoding(self.encrypted_debt) || self.debt_sealed_under@ == self.nonce)
    }

    /// Zero balances, zero nonce, not liquidatable.
    pub open spec fn is_zeroed(&self) -> bool {
        &&& is_zero_encoding(self.encrypted_collateral)
        &&& is_zero_encoding(self.encrypted_debt)
        &&& self.nonce == 0
        &&& !self.is_liquidatable
    }

    /// A new account of `owner`, with encrypted zeros.
    pub fn new(owner: Pubkey, bump: u8) -> (r: MarginAccount)
        ensures
            r.owner == owner,
            r.bump == bump,
            r.is_zeroed(),
            r.coupled(),
    {
        MarginAccount {
            owner,
            encrypted_collateral: zero_ciphertext(),
            encrypted_debt: zero_ciphertext(),
            nonce: 0,
            is_liquidatable: false,
            bump,
            collateral_sealed_under: Ghost(0),
            debt_sealed_under: Ghost(0),
        }
    }
}

/// The key of an account in the ledger.
pub open spec fn account_owner() -> spec_fn(MarginAccount) -> Pubkey {
    |a: MarginAccount| a.owner
}

/// `a` with the ciphertexts that are given replaced, and the nonce set to `n`.
pub open spec fn balance_updated(
    a: MarginAccount,
    collateral: Option<Ciphertext>,
    debt: Option<Ciphertext>,
    n: u128,
) -> MarginAccount {
    MarginAccount {
        encrypted_collateral: match collateral {
            Some(c) => c,
            None => a.encrypted_collateral,
        },
        encrypted_debt: match debt {
            Some(d) => d,
            None => a.encrypted_debt,
        },
        nonce: n,
        collateral_sealed_under: match collateral {
            Some(_) => Ghost(n),
            None => a.collateral_sealed_under,
        },
        debt_sealed_under: match debt {
            Some(_) => Ghost(n),
            None => a.debt_sealed_under,
        },
        ..a
    }
}

/// An update that gives a new nonce but leaves out a ciphertext that is not the
/// zero encoding would leave that ciphertext under a stale nonce.
pub open spec fn leaves_stale(
    a: MarginAccount,
    collateral: Option<Ciphertext>,
    debt: Option<Ciphertext>,
    n: u128,
) -> bool {
    n != a.nonce && ((collateral is None && !is_zero_encoding(a.encrypted_collateral)) || (
    debt is None && !is_zero_encoding(a.encrypted_debt)))
}

/// Every margin account, by owner.
pub struct Ledger {
    pub accounts: Vec<MarginAccount>,
}

impl View for Ledger {
    type V = Map<Pubkey, MarginAccount>;

    open spec fn view(&self) -> Map<Pubkey, MarginAccount> {
        keyed_map(self.accounts@, account_owner())
    }
}

impl Ledger {
    /// Owners are unique and every account keeps its ciphertexts coupled to its nonce.
    pub open spec fn wf(&self) -> bool {
        &&& unique_keys(self.accounts@, account_owner())
        &&& forall|i: int| 0 <= i < self.accounts@.len() ==> #[trigger] self.accounts@[i].coupled()
    }

    /// An empty ledger.
    pub fn new() -> (r: Ledger)
        ensures
            r.wf(),
            r@ == Map::<Pubkey, MarginAccount>::empty(),
    {
        let r = Ledger { accounts: Vec::new() };
        assert(r@ =~= Map::<Pubkey, MarginAccount>::empty());
        r
    }

    /// In every well-formed ledger, and every operation keeps it so, each
    /// account's collateral and debt ciphertexts are valid under its nonce.
    pub proof fn lemma_nonce_coupled(&self)
        requires
            self.wf(),
        ensures
            forall|k: Pubkey| #[trigger] self@.contains_key(k) ==> self@[k].coupled(),
    {
        assert forall|k: Pubkey| #[trigger] self@.contains_key(k) implies self@[k].coupled() by {
            let i = crate::keyed::index_of(self.accounts@, account_owner(), k);
            assert(account_owner()(self.accounts@[i]) == k);
        }
    }

    fn find(&self, owner: &Pubkey) -> (r: Option<usize>)
        requires
            self.wf(),
        ensures
            match r {
                Some(i) => i < self.accounts@.len() && self.accounts@[i as int].owner == *owner
                    && self@.contains_key(*owner) && self@[*owner] == self.accounts@[i as int],
                None => !self@.contains_key(*owner),
            },
    {
        let mut i: usize = 0;
        while i < self.accounts.len()
            invariant
                self.wf(),
                0 <= i <= self.accounts@.len(),
                forall|j: int| 0 <= j < i ==> #[trigger] self.accounts@[j].owner != *owner,
            decreases self.accounts@.len() - i,
        {
            if keys_equal(&self.accounts[i].owner, owner) {
                proof {
                    lemma_keyed_index(self.accounts@, account_owner(), i as int);
                }
                return Some(i);
            }
            i = i + 1;
        }
        proof {
            if self@.contains_key(*owner) {
                let j = choose|j: int|
                    0 <= j < self.accounts@.len() && #[trigger] account_owner()(self.accounts@[j])
                        == *owner;
                assert(self.accounts@[j].owner == *owner);
            }
        }
        None
    }

    /// The account of `owner`, if there is one.
    pub fn read(&self, owner: &Pubkey) -> (r: Option<MarginAccount>)
        requires
            self.wf(),
        ensures
            r == (if self@.contains_key(*owner) {
                Some(self@[*owner])
            } else {
                None
            }),
    {
        match self.find(owner) {
            Some(i) => Some(self.accounts[i]),
            None => None,
        }
    }

    /// Opens an account for `owner` with encrypted zeros.
    pub fn create(&mut self, owner: Pubkey, bump: u8) -> (r: Result<(), ErrorCode>)
        requires
            old(self).wf(),
        ensures
            final(self).wf(),
            old(self)@.contains_key(owner) ==> r == Err::<(), ErrorCode>(ErrorCode::AlreadyExists)
                && final(self)@ == old(self)@,
            !old(self)@.contains_key(owner) ==> r is Ok && final(self)@.contains_key(owner)
                && final(self)@.remove(owner) == old(self)@ && final(self)@[owner].owner == owner
                && final(self)@[owner].bump == bump && final(self)@[owner].is_zeroed(),
    {
        match self.find(&owner) {
            Some(_) => Err(ErrorCode::AlreadyExists),
            None => {
                let a = MarginAccount::new(owner, bump);
                proof {
                    lemma_keyed_push(self.accounts@, account_owner(), a);
                    assert(old(self)@.remove(owner) =~= old(self)@);
                }
                self.accounts.push(a);
                proof {
                    assert(self.accounts@ == old(self).accounts@.push(a));
                    assert forall|i: int| 0 <= i < self.accounts@.len() implies #[trigger] self.accounts@[i].coupled() by {
                        if i < old(self).accounts@.len() {
                            assert(self.accounts@[i] == old(self).accounts@[i]);
                        }
                    }
                    assert(self@.remove(owner) =~= old(self)@.remove(owner));
                }
                Ok(())
            }
        }
    }

    /// Puts `a` in place of the account at position `i`, which has the same owner.
    fn replace_at(&mut self, i: usize, a: MarginAccount)
        requires
            old(self).wf(),
            i < old(self).accounts@.len(),
            a.owner == old(self).accounts@[i as int].owner,
            a.coupled(),
        ensures
            final(self).wf(),
            final(self)@ == old(self)@.insert(a.owner, a),
            final(self).accounts@.len() == old(self).accounts@.len(),
            forall|j: int| 0 <= j < final(self).accounts@.len() && j != i ==> #[trigger] final(self).accounts@[j] == old(self).accounts@[j],
    {
        proof {
            lemma_keyed_update(self.accounts@, account_owner(), i as int, a);
        }
        self.accounts.set(i, a);
        proof {
            assert forall|j: int| 0 <= j < self.accounts@.len() implies #[trigger] self.accounts@[j].coupled() by {
                if j != i {
                    assert(self.accounts@[j] == old(self).accounts@[j]);
                }
            }
        }
    }

    /// Whether the update would leave a ciphertext of the account at position
    /// `i` under a stale nonce.
    fn stale_at(&self, i: usize, collateral: &Option<Ciphertext>, debt: &Option<Ciphertext>, nonce: u128) -> (r: bool)
        requires
            i < self.accounts@.len(),
        ensures
            r == leaves_stale(self.accounts@[i as int], *collateral, *debt, nonce),
    {
        let a = &self.accounts[i];
        nonce != a.nonce && ((collateral.is_none() && !is_zero_ciphertext(&a.encrypted_collateral))
            || (debt.is_none() && !is_zero_ciphertext(&a.encrypted_debt)))
    }

    /// Replaces the given ciphertexts of the account at position `i` and sets its nonce.
    fn update_at(&mut self, i: usize, collateral: Option<Ciphertext>, debt: Option<Ciphertext>, nonce: u128)
        requires
            old(self).wf(),
            i < old(self).accounts@.len(),
            !leaves_stale(old(self).accounts@[i as int], collateral, debt, nonce),
        ensures
            final(self).wf(),
            final(self)@ == old(self)@.insert(
                old(self).accounts@[i as int].owner,
                balance_updated(old(self).accounts@[i as int], collateral, debt, nonce),
            ),
            final(self).accounts@.len() == old(self).accounts@.len(),
            forall|j: int| 0 <= j < final(self).accounts@.len() && j != i ==> #[trigger] final(self).accounts@[j] == old(self).accounts@[j],
    {
        let mut a = self.accounts[i];
        assert(self.accounts@[i as int].coupled());
        match collateral {
            Some(c) => {
                a.encrypted_collateral = c;
                a.collateral_sealed_under = Ghost(nonce);
            },
            None => {},
        }
        match debt {
            Some(d) => {
                a.encrypted_debt = d;
                a.debt_sealed_under = Ghost(nonce);
            },
            None => {},
        }
        a.nonce = nonce;
        assert(a == balance_updated(self.accounts@[i as int], collateral, debt, nonce));
        self.replace_at(i, a);
    }

    /// Writes new ciphertexts of `owner`'s account together with the nonce they
    /// were produced under. Refused where a ciphertext left out would stay
    /// behind under the old nonce.
    pub fn apply_balance_update(
        &mut self,
        owner: &Pubkey,
        new_collateral: Option<Ciphertext>,
        new_debt: Option<Ciphertext>,
        new_nonce: u128,
    ) -> (r: Result<(), ErrorCode>)
        requires
            old(self).wf(),
        ensures
            final(self).wf(),
            !old(self)@.contains_key(*owner) ==> r == Err::<(), ErrorCode>(ErrorCode::AccountNotFound)
                && final(self)@ == old(self)@,
            old(self)@.contains_key(*owner) && leaves_stale(old(self)@[*owner], new_collateral, new_debt, new_nonce)
                ==> r == Err::<(), ErrorCode>(ErrorCode::InvalidArguments) && final(self)@ == old(self)@,
            old(self)@.contains_key(*owner) && !leaves_stale(old(self)@[*owner], new_collateral, new_debt, new_nonce)
                ==> r is Ok && final(self)@ == old(self)@.insert(
                *owner,
                balance_updated(old(self)@[*owner], new_collateral, new_debt, new_nonce),
            ),
    {
        match self.find(owner) {
            None => Err(ErrorCode::AccountNotFound),
            Some(i) => {
                if self.stale_at(i, &new_collateral, &new_debt, new_nonce) {
                    Err(ErrorCode::InvalidArguments)
                } else {
                    self.update_at(i, new_collateral, new_debt, new_nonce);
                    Ok(())
                }
            },
        }
    }

    /// Writes new collateral ciphertexts of two distinct accounts under one
    /// nonce: both are written, or, on any error, neither.
    pub fn apply_pair_update(
        &mut self,
        first: &Pubkey,
        second: &Pubkey,
        first_collateral: Ciphertext,
        second_collateral: Ciphertext,
        new_nonce: u128,
    ) -> (r: Result<(), ErrorCode>)
        requires
            old(self).wf(),
        ensures
            final(self).wf(),
            r is Err ==> final(self)@ == old(self)@ && (r == Err::<(), ErrorCode>(
                ErrorCode::AccountNotFound) || r == Err::<(), ErrorCode>(ErrorCode::InvalidArguments)),
            r == Err::<(), ErrorCode>(ErrorCode::AccountNotFound) <==> (!old(self)@.contains_key(*first)
                || !old(self)@.contains_key(*second)),
            r == Err::<(), ErrorCode>(ErrorCode::InvalidArguments) <==> (old(self)@.contains_key(*first)
                && old(self)@.contains_key(*second) && (*first == *second || leaves_stale(
                old(self)@[*first],
                Some(first_collateral),
                None,
                new_nonce,
            ) || leaves_stale(old(self)@[*second], Some(second_collateral), None, new_nonce))),
            r is Ok ==> final(self)@ == old(self)@.insert(
                *first,
                balance_updated(old(self)@[*first], Some(first_collateral), None, new_nonce),
            ).insert(
                *second,
                balance_updated(old(self)@[*second], Some(second_collateral), None, new_nonce),
            ),
    {
        let i = match self.find(first) {
            None => return Err(ErrorCode::AccountNotFound),
            Some(i) => i,
        };
        let j = match self.find(second) {
            None => return Err(ErrorCode::AccountNotFound),
            Some(j) => j,
        };
        if i == j {
            return Err(ErrorCode::InvalidArguments);
        }
        let c1 = Some(first_collateral);
        let c2 = Some(second_collateral);
        let none: Option<Ciphertext> = None;
        if self.stale_at(i, &c1, &none, new_nonce) || self.stale_at(j, &c2, &none, new_nonce) {
            return Err(ErrorCode::InvalidArguments);
        }
        let ghost mid_j = self.accounts@[j as int];
        self.update_at(i, c1, none, new_nonce);
        assert(self.accounts@[j as int] == mid_j);
        self.update_at(j, c2, none, new_nonce);
        Ok(())
    }

    /// Sets the public liquidation flag of `owner`'s account.
    pub fn set_liquidatable(&mut self, owner: &Pubkey, flag: bool) -> (r: Result<(), ErrorCode>)
        requires
            old(self).wf(),
        ensures
            final(self).wf(),
            !old(self)@.contains_key(*owner) ==> r == Err::<(), ErrorCode>(ErrorCode::AccountNotFound)
                && final(self)@ == old(self)@,
            old(self)@.contains_key(*owner) ==> r is Ok && final(self)@ == old(self)@.insert(
                *owner,
                MarginAccount { is_liquidatable: flag, ..old(self)@[*owner] },
            ),
    {
        match self.find(owner) {
            None => Err(ErrorCode::AccountNotFound),
            Some(i) => {
                let mut a = self.accounts[i];
                assert(self.accounts@[i as int].coupled());
                a.is_liquidatable = flag;
                self.replace_at(i, a);
                Ok(())
            },
        }
    }

    /// Zeroes both ciphertexts and the nonce of `owner`'s account and clears its flag.
    pub fn reset(&mut self, owner: &Pubkey) -> (r: Result<(), ErrorCode>)
        requires
            old(self).wf(),
        ensures
            final(self).wf(),
            !old(self)@.contains_key(*owner) ==> r == Err::<(), ErrorCode>(ErrorCode::AccountNotFound)
                && final(self)@ == old(self)@,
            old(self)@.contains_key(*owner) ==> r is Ok && final(self)@.contains_key(*owner)
                && final(self)@.remove(*owner) == old(self)@.remove(*owner)
                && final(self)@[*owner].owner == *owner
                && final(self)@[*owner].bump == old(self)@[*owner].bump
                && final(self)@[*owner].is_zeroed(),
    {
        match self.find(owner) {
            None => Err(ErrorCode::AccountNotFound),
            Some(i) => {
                let mut a = self.accounts[i];
                a.encrypted_collateral = zero_ciphertext();
                a.encrypted_debt = zero_ciphertext();
                a.nonce = 0;
                a.is_liquidatable = false;
                self.replace_at(i, a);
                proof {
                    assert(self@.remove(*owner) =~= old(self)@.remove(*owner));
                }
                Ok(())
            },
        }
    }
}

} // verus!
