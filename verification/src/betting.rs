//! Spin execution: each spin identifier runs once, and no outcome hash is paid twice
//! while its record is on file.

use vstd::prelude::*;

use crate::address::{check_party, is_party, Address};
use crate::error::ContractError;
use crate::events::SpinExecutedEvent;
use crate::guard::ReplayGuard;
use crate::laws::law_identifier_is_spent_for_good;
use crate::model::{
    after_claim_pair, after_cleanup, apply_all, claim_pair_outcome, claimed, cleanup_outcome,
    LedgerOp, Records,
};
use crate::record::{OperationKey, Slot};
use crate::store::RecordStore;
use crate::two_key::TwoKeyReplayGuard;

verus! {

/// The scope of spin identifiers.
pub const SPIN_ID_SCOPE: &'static str = "spin_id";

/// The scope of spin outcome hashes.
pub const SPIN_HASH_SCOPE: &'static str = "spin_hash";

/// What can be read of a betting contract.
pub struct BettingState {
    /// The party that may execute spins, once set.
    pub backend_signer: Option<Address>,
    /// The scope under which spin identifiers are claimed.
    pub id_scope: Seq<char>,
    /// The scope under which spin outcome hashes are claimed.
    pub hash_scope: Seq<char>,
    /// The ledger of executed spins.
    pub records: Records,
}

impl BettingState {
    /// The slot of the spin identifier `spin_id`.
    pub open spec fn id_slot(self, spin_id: &OperationKey) -> Slot {
        (self.id_scope, spin_id@)
    }

    /// The slot of the spin outcome hash `spin_hash`.
    pub open spec fn hash_slot(self, spin_hash: &OperationKey) -> Slot {
        (self.hash_scope, spin_hash@)
    }

    /// How the execution of a spin ends: the caller is judged first, then the
    /// time-to-live, then the identifier, then the hash.
    pub open spec fn spin_outcome(
        self,
        caller: Address,
        spin_id: &OperationKey,
        spin_hash: &OperationKey,
        executor: Address,
        ttl_seconds: Option<u64>,
        now: u64,
    ) -> Result<SpinExecutedEvent, ContractError> {
        if !is_party(self.backend_signer, caller) {
            Err(ContractError::Unauthorized)
        } else {
            match claim_pair_outcome(
                self.records,
                self.id_slot(spin_id),
                self.hash_slot(spin_hash),
                ttl_seconds,
                now,
            ) {
                Err(refusal) => Err(refusal),
                Ok(_) => Ok(SpinExecutedEvent { spin_id: *spin_id, executor, timestamp: now }),
            }
        }
    }

    /// The state after the execution of a spin: both keys claimed if it succeeds, no
    /// change if it fails.
    pub open spec fn after_spin(
        self,
        caller: Address,
        spin_id: &OperationKey,
        spin_hash: &OperationKey,
        executor: Address,
        ttl_seconds: Option<u64>,
        now: u64,
    ) -> BettingState {
        if self.spin_outcome(caller, spin_id, spin_hash, executor, ttl_seconds, now) is Ok {
            BettingState {
                records: after_claim_pair(
                    self.records,
                    self.id_slot(spin_id),
                    self.hash_slot(spin_hash),
                    ttl_seconds,
                    now,
                ),
                ..self
            }
        } else {
            self
        }
    }
}

/// The two scopes of a betting contract are different tags, so an identifier and a
/// hash never share a slot.
pub proof fn lemma_spin_scopes_differ()
    ensures
        "spin_id"@ != "spin_hash"@,
{
    reveal_strlit("spin_id");
    reveal_strlit("spin_hash");
    assert("spin_id"@.len() != "spin_hash"@.len());
}

/// A spin identifier runs once. After a spin has gone through, whatever is done to the
/// ledger afterwards, cleanups of hashes included, and whoever the backend signer is
/// by then, no spin with the same identifier goes through again, whatever hash comes
/// with it.
pub proof fn law_spin_id_runs_once(
    state: BettingState,
    caller: Address,
    spin_id: &OperationKey,
    spin_hash: &OperationKey,
    executor: Address,
    ttl_seconds: Option<u64>,
    now: u64,
    ops: Seq<LedgerOp>,
    later_signer: Option<Address>,
    later_caller: Address,
    later_hash: &OperationKey,
    later_executor: Address,
    later_ttl: Option<u64>,
    later: u64,
)
    requires
        state.spin_outcome(caller, spin_id, spin_hash, executor, ttl_seconds, now) is Ok,
    ensures
        ({
            let spun = state.after_spin(caller, spin_id, spin_hash, executor, ttl_seconds, now);
            let reached = BettingState {
                backend_signer: later_signer,
                records: apply_all(spun.records, ops),
                ..spun
            };
            &&& claimed(reached.records, reached.id_slot(spin_id))
            &&& reached.spin_outcome(
                later_caller,
                spin_id,
                later_hash,
                later_executor,
                later_ttl,
                later,
            ) is Err
        }),
{
    law_identifier_is_spent_for_good(
        state.records,
        state.id_slot(spin_id),
        state.hash_slot(spin_hash),
        ttl_seconds,
        now,
        ops,
        state.hash_slot(later_hash),
        later_ttl,
        later,
    );
}

/// The betting contract, keeping its ledger in a store of the caller's choice.
pub struct BettingContract<S: RecordStore> {
    backend_signer: Option<Address>,
    spins: TwoKeyReplayGuard<S>,
}

impl<S: RecordStore> View for BettingContract<S> {
    type V = BettingState;

    closed spec fn view(&self) -> BettingState {
        BettingState {
            backend_signer: self.backend_signer,
            id_scope: self.spins.id_scope(),
            hash_scope: self.spins.hash_scope(),
            records: self.spins@,
        }
    }
}

impl<S: RecordStore> BettingContract<S> {
    /// A contract with no signer, over the spins on record in `store`.
    pub fn new(store: S) -> (contract: Self)
        ensures
            contract@ == (BettingState {
                backend_signer: None,
                id_scope: "spin_id"@,
                hash_scope: "spin_hash"@,
                records: store.records(),
            }),
            contract@.id_scope != contract@.hash_scope,
    {
        proof {
            lemma_spin_scopes_differ();
        }
        BettingContract {
            backend_signer: None,
            spins: TwoKeyReplayGuard::new(ReplayGuard::new(store), SPIN_ID_SCOPE, SPIN_HASH_SCOPE),
        }
    }

    /// Names the party that may execute spins.
    pub fn initialize(&mut self, backend_signer: Address)
        ensures
            final(self)@ == (BettingState { backend_signer: Some(backend_signer), ..old(self)@ }),
    {
        self.backend_signer = Some(backend_signer);
    }

    /// Executes a spin whose outcome hash stays on record for good.
    pub fn execute_spin(
        &mut self,
        caller: &Address,
        spin_id: &OperationKey,
        spin_hash: &OperationKey,
        executor: Address,
        now: u64,
    ) -> (outcome: Result<SpinExecutedEvent, ContractError>)
        ensures
            outcome == old(self)@.spin_outcome(*caller, spin_id, spin_hash, executor, None, now),
            final(self)@ == old(self)@.after_spin(*caller, spin_id, spin_hash, executor, None, now),
    {
        self.execute_spin_with_ttl(caller, spin_id, spin_hash, executor, None, now)
    }

    /// Executes a spin at time `now`: the caller must be the backend signer, and
    /// neither the identifier nor the outcome hash may be on record. The identifier is
    /// then claimed for good and the hash with the given time-to-live, and the event
    /// to publish is returned. A refused spin changes nothing.
    pub fn execute_spin_with_ttl(
        &mut self,
        caller: &Address,
        spin_id: &OperationKey,
        spin_hash: &OperationKey,
        executor: Address,
        ttl_seconds: Option<u64>,
        now: u64,
    ) -> (outcome: Result<SpinExecutedEvent, ContractError>)
        ensures
            outcome == old(self)@.spin_outcome(
                *caller,
                spin_id,
                spin_hash,
                executor,
                ttl_seconds,
                now,
            ),
            final(self)@ == old(self)@.after_spin(
                *caller,
                spin_id,
                spin_hash,
                executor,
                ttl_seconds,
                now,
            ),
    {
        if !check_party(&self.backend_signer, caller) {
            return Err(ContractError::Unauthorized);
        }
        match self.spins.claim_pair(spin_id, spin_hash, ttl_seconds, now) {
            Err(refusal) => Err(refusal),
            Ok(_) => Ok(SpinExecutedEvent { spin_id: *spin_id, executor, timestamp: now }),
        }
    }

    /// Whether the outcome hash `spin_hash` is on record, expired or not.
    pub fn is_spin_hash_used(&self, spin_hash: &OperationKey) -> (used: bool)
        ensures
            used == claimed(self@.records, self@.hash_slot(spin_hash)),
    {
        self.spins.hash_is_claimed(spin_hash)
    }

    /// Whether the spin identifier `spin_id` is on record.
    pub fn is_spin_id_used(&self, spin_id: &OperationKey) -> (used: bool)
        ensures
            used == claimed(self@.records, self@.id_slot(spin_id)),
    {
        self.spins.id_is_claimed(spin_id)
    }

    /// Removes the record of the outcome hash `spin_hash` if it has expired at time
    /// `now`, and says whether it did. Identifiers are never removed.
    pub fn cleanup_spin_hash(&mut self, spin_hash: &OperationKey, now: u64) -> (removed: bool)
        ensures
            removed == cleanup_outcome(old(self)@.records, old(self)@.hash_slot(spin_hash), now),
            final(self)@ == (BettingState {
                records: after_cleanup(old(self)@.records, old(self)@.hash_slot(spin_hash), now),
                ..old(self)@
            }),
    {
        self.spins.cleanup_hash(spin_hash, now)
    }
}

} // verus!
