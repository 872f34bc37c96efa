//! The replay ledger: claim a key once, ask whether it is claimed, and clean up what
//! has expired.

use vstd::prelude::*;

use crate::error::ContractError;
use crate::model::{
    after_claim, after_claim_pair, after_cleanup, claim_outcome, claim_pair_outcome, claimed,
    cleanup_outcome, lookup, Records,
};
use crate::record::{
    decide_claim, decide_claim_pair, decide_cleanup, new_record, same_key, slot_of,
    OperationKey, OperationRecord,
};
use crate::store::RecordStore;
use crate::text::same_text;

verus! {

/// A ledger of executed operations over a store of the caller's choice.
///
/// Time is an argument of every operation that depends on it: the ledger reads no
/// clock of its own.
pub struct ReplayGuard<S: RecordStore> {
    store: S,
}

impl<S: RecordStore> View for ReplayGuard<S> {
    type V = Records;

    closed spec fn view(&self) -> Records {
        self.store.records()
    }
}

/// The number of writes that an operation makes: `count` if it goes through, none if
/// it does not.
pub open spec fn writes_if(went_through: bool, count: nat) -> nat {
    if went_through {
        count
    } else {
        0
    }
}

impl<S: RecordStore> ReplayGuard<S> {
    /// How many times the ledger's store has been written to.
    pub closed spec fn writes(&self) -> nat {
        self.store.writes()
    }

    /// A ledger over `store`, holding whatever records the store holds.
    pub fn new(store: S) -> (guard: Self)
        ensures
            guard@ == store.records(),
            guard.writes() == store.writes(),
    {
        ReplayGuard { store }
    }

    /// Gives the store back.
    pub fn into_store(self) -> (store: S)
        ensures
            store.records() == self@,
            store.writes() == self.writes(),
    {
        self.store
    }

    /// Claims `key` under `scope` at time `now`.
    ///
    /// A zero time-to-live, or one that ends past the last instant of the clock, is
    /// refused before the store is touched. A slot held by an unexpired record refuses
    /// the claim. Otherwise a fresh record is filed, over an expired one if there is
    /// one. A claim that goes through writes to the store once; a refused claim does
    /// not write and leaves the ledger as it was.
    pub fn claim(
        &mut self,
        scope: &str,
        key: &OperationKey,
        ttl_seconds: Option<u64>,
        now: u64,
    ) -> (outcome: Result<(), ContractError>)
        ensures
            outcome == claim_outcome(old(self)@, slot_of(scope, key), ttl_seconds, now),
            final(self)@ == after_claim(old(self)@, slot_of(scope, key), ttl_seconds, now),
            final(self).writes() == old(self).writes() + writes_if(outcome is Ok, 1),
    {
        if new_record(ttl_seconds, now).is_err() {
            return Err(ContractError::InvalidArgument);
        }
        match decide_claim(self.store.get(scope, key), ttl_seconds, now) {
            Ok(record) => {
                self.store.set(scope, key, record);
                Ok(())
            },
            Err(refusal) => Err(refusal),
        }
    }

    /// How a claim of `key` under `scope` at time `now` would end, without making it.
    ///
    /// A caller with work of its own to validate asks this first, validates, and
    /// claims last, so that nothing has to be undone.
    pub fn check_claim(
        &self,
        scope: &str,
        key: &OperationKey,
        ttl_seconds: Option<u64>,
        now: u64,
    ) -> (outcome: Result<(), ContractError>)
        ensures
            outcome == claim_outcome(self@, slot_of(scope, key), ttl_seconds, now),
    {
        if new_record(ttl_seconds, now).is_err() {
            return Err(ContractError::InvalidArgument);
        }
        match decide_claim(self.store.get(scope, key), ttl_seconds, now) {
            Ok(_) => Ok(()),
            Err(refusal) => Err(refusal),
        }
    }

    /// Whether a record is on file for `key` under `scope`, expired or not.
    ///
    /// A record that has outlived its time-to-live still counts until it is cleaned
    /// up: "claimed" says that the key was used, not that it would refuse a claim.
    /// `check_claim` answers the other question.
    pub fn is_claimed(&self, scope: &str, key: &OperationKey) -> (on_file: bool)
        ensures
            on_file == claimed(self@, slot_of(scope, key)),
    {
        self.store.has(scope, key)
    }

    /// The record on file for `key` under `scope`.
    pub fn record(&self, scope: &str, key: &OperationKey) -> (found: Option<OperationRecord>)
        ensures
            found == lookup(self@, slot_of(scope, key)),
    {
        self.store.get(scope, key)
    }

    /// Removes the record for `key` under `scope` if it has expired at time `now`, and
    /// says whether it did. A missing, permanent or unexpired record is left alone,
    /// and the store is then not written to.
    pub fn cleanup(&mut self, scope: &str, key: &OperationKey, now: u64) -> (removed: bool)
        ensures
            removed == cleanup_outcome(old(self)@, slot_of(scope, key), now),
            final(self)@ == after_cleanup(old(self)@, slot_of(scope, key), now),
            final(self).writes() == old(self).writes() + writes_if(removed, 1),
    {
        if decide_cleanup(self.store.get(scope, key), now) {
            self.store.remove(scope, key);
            true
        } else {
            false
        }
    }

    /// Claims an identifier key and a content-hash key as one operation at time `now`.
    ///
    /// The time-to-live is judged first. Then the identifier slot is checked, then the
    /// hash slot: a record on file in either, expired or not, refuses the claim. Only
    /// when both checks pass is anything written: a permanent record for the
    /// identifier, then a record with the given time-to-live for the hash. A refused
    /// claim does not write and leaves the ledger as it was.
    pub fn claim_pair(
        &mut self,
        id_scope: &str,
        id_key: &OperationKey,
        hash_scope: &str,
        hash_key: &OperationKey,
        ttl_seconds: Option<u64>,
        now: u64,
    ) -> (outcome: Result<(), ContractError>)
        ensures
            outcome == claim_pair_outcome(
                old(self)@,
                slot_of(id_scope, id_key),
                slot_of(hash_scope, hash_key),
                ttl_seconds,
                now,
            ),
            final(self)@ == after_claim_pair(
                old(self)@,
                slot_of(id_scope, id_key),
                slot_of(hash_scope, hash_key),
                ttl_seconds,
                now,
            ),
            final(self).writes() == old(self).writes() + writes_if(outcome is Ok, 2),
    {
        if new_record(ttl_seconds, now).is_err() {
            return Err(ContractError::InvalidArgument);
        }
        let id_existing = self.store.get(id_scope, id_key);
        if id_existing.is_some() {
            return Err(ContractError::DuplicateOperation);
        }
        let one_slot = same_text(id_scope, hash_scope) && same_key(id_key, hash_key);
        match decide_claim_pair(
            id_existing,
            self.store.get(hash_scope, hash_key),
            one_slot,
            ttl_seconds,
            now,
        ) {
            Ok((id_record, hash_record)) => {
                self.store.set(id_scope, id_key, id_record);
                self.store.set(hash_scope, hash_key, hash_record);
                Ok(())
            },
            Err(refusal) => Err(refusal),
        }
    }
}

} // verus!
