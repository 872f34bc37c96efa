//! Claiming an identifier and a content hash together: the identifier for good, the
//! hash for a while.

use vstd::prelude::*;

use crate::error::ContractError;
use crate::guard::{writes_if, ReplayGuard};
use crate::model::{
    after_claim_pair, after_cleanup, claim_pair_outcome, claimed, cleanup_outcome, Records,
};
use crate::record::{OperationKey, Slot};
use crate::store::RecordStore;

verus! {

/// A ledger that claims two keys as one operation: an identifier under one scope,
/// never to be used again, and a content hash under another, not to be used again
/// while its record is on file. Under two different scopes the identifiers and the
/// hashes are two ledgers in one store: a key of one never meets a key of the other.
///
/// Only the hash can be cleaned up. No operation of this type removes an identifier.
pub struct TwoKeyReplayGuard<S: RecordStore> {
    guard: ReplayGuard<S>,
    id_scope: String,
    hash_scope: String,
}

impl<S: RecordStore> View for TwoKeyReplayGuard<S> {
    type V = Records;

    closed spec fn view(&self) -> Records {
        self.guard@
    }
}

impl<S: RecordStore> TwoKeyReplayGuard<S> {
    /// How many times the ledger's store has been written to.
    pub closed spec fn writes(&self) -> nat {
        self.guard.writes()
    }

    /// The scope under which identifiers are claimed.
    pub closed spec fn id_scope(&self) -> Seq<char> {
        self.id_scope@
    }

    /// The scope under which content hashes are claimed.
    pub closed spec fn hash_scope(&self) -> Seq<char> {
        self.hash_scope@
    }

    /// The slot of the identifier `key`.
    pub open spec fn id_slot(&self, key: &OperationKey) -> Slot {
        (self.id_scope(), key@)
    }

    /// The slot of the content hash `key`.
    pub open spec fn hash_slot(&self, key: &OperationKey) -> Slot {
        (self.hash_scope(), key@)
    }

    /// A paired ledger over `guard` that claims identifiers under `id_scope` and
    /// content hashes under `hash_scope`.
    pub fn new(guard: ReplayGuard<S>, id_scope: &str, hash_scope: &str) -> (pair: Self)
        ensures
            pair@ == guard@,
            pair.writes() == guard.writes(),
            pair.id_scope() == id_scope@,
            pair.hash_scope() == hash_scope@,
    {
        TwoKeyReplayGuard { guard, id_scope: id_scope.to_owned(), hash_scope: hash_scope.to_owned() }
    }

    /// Gives the underlying ledger back.
    pub fn into_guard(self) -> (guard: ReplayGuard<S>)
        ensures
            guard@ == self@,
            guard.writes() == self.writes(),
    {
        self.guard
    }

    /// Claims the identifier `id_key` for good and the content hash `hash_key` with
    /// the given time-to-live, at time `now`, or neither. The identifier is checked
    /// first, then the hash; nothing is written unless both are free.
    pub fn claim_pair(
        &mut self,
        id_key: &OperationKey,
        hash_key: &OperationKey,
        ttl_seconds: Option<u64>,
        now: u64,
    ) -> (outcome: Result<(), ContractError>)
        ensures
            outcome == claim_pair_outcome(
                old(self)@,
                old(self).id_slot(id_key),
                old(self).hash_slot(hash_key),
                ttl_seconds,
                now,
            ),
            final(self)@ == after_claim_pair(
                old(self)@,
                old(self).id_slot(id_key),
                old(self).hash_slot(hash_key),
                ttl_seconds,
                now,
            ),
            final(self).writes() == old(self).writes() + writes_if(outcome is Ok, 2),
            final(self).id_scope() == old(self).id_scope(),
            final(self).hash_scope() == old(self).hash_scope(),
    {
        self.guard.claim_pair(
            self.id_scope.as_str(),
            id_key,
            self.hash_scope.as_str(),
            hash_key,
            ttl_seconds,
            now,
        )
    }

    /// Whether a record is on file for the identifier `id_key`.
    pub fn id_is_claimed(&self, id_key: &OperationKey) -> (on_file: bool)
        ensures
            on_file == claimed(self@, self.id_slot(id_key)),
    {
        self.guard.is_claimed(self.id_scope.as_str(), id_key)
    }

    /// Whether a record is on file for the content hash `hash_key`, expired or not.
    pub fn hash_is_claimed(&self, hash_key: &OperationKey) -> (on_file: bool)
        ensures
            on_file == claimed(self@, self.hash_slot(hash_key)),
    {
        self.guard.is_claimed(self.hash_scope.as_str(), hash_key)
    }

    /// Removes the record of the content hash `hash_key` if it has expired at time
    /// `now`, and says whether it did.
    pub fn cleanup_hash(&mut self, hash_key: &OperationKey, now: u64) -> (removed: bool)
        ensures
            removed == cleanup_outcome(old(self)@, old(self).hash_slot(hash_key), now),
            final(self)@ == after_cleanup(old(self)@, old(self).hash_slot(hash_key), now),
            final(self).writes() == old(self).writes() + writes_if(removed, 1),
            final(self).id_scope() == old(self).id_scope(),
            final(self).hash_scope() == old(self).hash_scope(),
    {
        self.guard.cleanup(self.hash_scope.as_str(), hash_key, now)
    }
}

} // verus!
