//! The ledger as mathematics: a map from slots to records, and what each operation
//! makes of it. The executable ledger is specified against these functions, and the
//! laws of the ledger are proved about them.

use vstd::prelude::*;

use crate::error::ContractError;
use crate::record::{fresh_record, ttl_accepted, OperationRecord, Slot};

verus! {

/// The records on file, by slot.
pub type Records = Map<Slot, OperationRecord>;

/// A record is on file for `slot`, expired or not.
pub open spec fn claimed(records: Records, slot: Slot) -> bool {
    records.contains_key(slot)
}

/// A record is on file for `slot` and has not expired at time `now`.
pub open spec fn held(records: Records, slot: Slot, now: u64) -> bool {
    records.contains_key(slot) && !records[slot].expired_at(now)
}

/// The record on file for `slot`, if any.
pub open spec fn lookup(records: Records, slot: Slot) -> Option<OperationRecord> {
    if records.contains_key(slot) {
        Some(records[slot])
    } else {
        None
    }
}

/// How a claim of `slot` at time `now` ends: the time-to-live is judged first, then
/// the slot.
pub open spec fn claim_outcome(
    records: Records,
    slot: Slot,
    ttl_seconds: Option<u64>,
    now: u64,
) -> Result<(), ContractError> {
    if !ttl_accepted(ttl_seconds, now) {
        Err(ContractError::InvalidArgument)
    } else if held(records, slot, now) {
        Err(ContractError::DuplicateOperation)
    } else {
        Ok(())
    }
}

/// The records after a claim of `slot` at time `now`: a fresh record in the slot if the
/// claim succeeds, no change if it fails.
pub open spec fn after_claim(
    records: Records,
    slot: Slot,
    ttl_seconds: Option<u64>,
    now: u64,
) -> Records {
    if claim_outcome(records, slot, ttl_seconds, now) is Ok {
        records.insert(slot, fresh_record(ttl_seconds, now))
    } else {
        records
    }
}

/// Whether a cleanup of `slot` at time `now` removes a record: one is on file and it
/// has expired.
pub open spec fn cleanup_outcome(records: Records, slot: Slot, now: u64) -> bool {
    records.contains_key(slot) && records[slot].expired_at(now)
}

/// The records after a cleanup of `slot` at time `now`.
pub open spec fn after_cleanup(records: Records, slot: Slot, now: u64) -> Records {
    if cleanup_outcome(records, slot, now) {
        records.remove(slot)
    } else {
        records
    }
}

/// How a paired claim at time `now` ends. The time-to-live is judged first; then the
/// identifier slot, then the hash slot, either of which refuses the claim by merely
/// being on file. Two claims aimed at one slot cannot both succeed.
pub open spec fn claim_pair_outcome(
    records: Records,
    id_slot: Slot,
    hash_slot: Slot,
    ttl_seconds: Option<u64>,
    now: u64,
) -> Result<(), ContractError> {
    if !ttl_accepted(ttl_seconds, now) {
        Err(ContractError::InvalidArgument)
    } else if claimed(records, id_slot) {
        Err(ContractError::DuplicateOperation)
    } else if claimed(records, hash_slot) {
        Err(ContractError::DuplicateOperation)
    } else if id_slot == hash_slot {
        Err(ContractError::DuplicateOperation)
    } else {
        Ok(())
    }
}

/// The records after a paired claim at time `now`: a permanent record in the identifier
/// slot and a fresh one in the hash slot if the claim succeeds, no change if it fails.
pub open spec fn after_claim_pair(
    records: Records,
    id_slot: Slot,
    hash_slot: Slot,
    ttl_seconds: Option<u64>,
    now: u64,
) -> Records {
    if claim_pair_outcome(records, id_slot, hash_slot, ttl_seconds, now) is Ok {
        records.insert(id_slot, fresh_record(None, now)).insert(
            hash_slot,
            fresh_record(ttl_seconds, now),
        )
    } else {
        records
    }
}

/// One operation on the ledger, with the time at which it is made.
pub enum LedgerOp {
    /// A claim of one slot.
    Claim { slot: Slot, ttl_seconds: Option<u64>, now: u64 },
    /// A cleanup of one slot.
    Cleanup { slot: Slot, now: u64 },
    /// A paired claim of an identifier slot and a hash slot.
    ClaimPair { id_slot: Slot, hash_slot: Slot, ttl_seconds: Option<u64>, now: u64 },
}

impl LedgerOp {
    /// The time at which the operation is made.
    pub open spec fn time(self) -> u64 {
        match self {
            LedgerOp::Claim { now, .. } => now,
            LedgerOp::Cleanup { now, .. } => now,
            LedgerOp::ClaimPair { now, .. } => now,
        }
    }

    /// The operation is a claim or a cleanup of `slot` itself.
    pub open spec fn aims_at(self, slot: Slot) -> bool {
        match self {
            LedgerOp::Claim { slot: aimed, .. } => aimed == slot,
            LedgerOp::Cleanup { slot: aimed, .. } => aimed == slot,
            LedgerOp::ClaimPair { .. } => false,
        }
    }
}

/// The records after one operation.
pub open spec fn apply(records: Records, op: LedgerOp) -> Records {
    match op {
        LedgerOp::Claim { slot, ttl_seconds, now } => after_claim(records, slot, ttl_seconds, now),
        LedgerOp::Cleanup { slot, now } => after_cleanup(records, slot, now),
        LedgerOp::ClaimPair { id_slot, hash_slot, ttl_seconds, now } => after_claim_pair(
            records,
            id_slot,
            hash_slot,
            ttl_seconds,
            now,
        ),
    }
}

/// The records after a sequence of operations, made in order.
pub open spec fn apply_all(records: Records, ops: Seq<LedgerOp>) -> Records
    decreases ops.len(),
{
    if ops.len() == 0 {
        records
    } else {
        apply(apply_all(records, ops.drop_last()), ops.last())
    }
}

} // verus!
