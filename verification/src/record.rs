//! Operation keys and records, and what a claim or a cleanup makes of one slot.

use vstd::prelude::*;

use crate::error::ContractError;

verus! {

/// Length in bytes of an operation key.
pub const KEY_LEN: usize = 32;

/// A fixed-size content hash that names one logical operation.
pub type OperationKey = [u8; 32];

/// The mathematical name of a ledger slot: a scope tag and the bytes of a key.
pub type Slot = (Seq<char>, Seq<u8>);

/// What the ledger remembers of an executed operation.
#[derive(Clone, Copy, Debug, PartialEq, Eq)]
pub struct OperationRecord {
    /// Time of the claim.
    pub recorded_at: u64,
    /// Time from which the record may be cleaned up; `None` for a permanent record.
    pub expires_at: Option<u64>,
}

/// The slot named by `scope` and `key`.
pub open spec fn slot_of(scope: &str, key: &OperationKey) -> Slot {
    (scope@, key@)
}

impl OperationRecord {
    /// The record has a time-to-live and `now` has reached its end.
    pub open spec fn expired_at(self, now: u64) -> bool {
        match self.expires_at {
            Some(end) => now >= end,
            None => false,
        }
    }

    /// The record has no time-to-live.
    pub open spec fn permanent(self) -> bool {
        self.expires_at is None
    }

    /// Whether the record may be cleaned up, or its slot claimed again, at time `now`.
    pub fn is_expired(&self, now: u64) -> (expired: bool)
        ensures
            expired == self.expired_at(now),
    {
        match self.expires_at {
            Some(end) => now >= end,
            None => false,
        }
    }

    /// Whether the record stays on file forever.
    pub fn is_permanent(&self) -> (permanent: bool)
        ensures
            permanent == self.permanent(),
    {
        self.expires_at.is_none()
    }
}

/// A time-to-live that a claim at time `now` accepts: absent, or positive with an
/// expiry that still fits the clock.
pub open spec fn ttl_accepted(ttl_seconds: Option<u64>, now: u64) -> bool {
    match ttl_seconds {
        Some(ttl) => ttl > 0 && now + ttl <= u64::MAX,
        None => true,
    }
}

/// The record that a successful claim at time `now` writes.
pub open spec fn fresh_record(ttl_seconds: Option<u64>, now: u64) -> OperationRecord {
    OperationRecord {
        recorded_at: now,
        expires_at: match ttl_seconds {
            Some(ttl) => Some((now + ttl) as u64),
            None => None,
        },
    }
}

/// Builds the record of a claim made at time `now`, or refuses the time-to-live.
pub fn new_record(ttl_seconds: Option<u64>, now: u64) -> (made: Result<OperationRecord, ContractError>)
    ensures
        ttl_accepted(ttl_seconds, now) ==> made == Ok::<OperationRecord, ContractError>(
            fresh_record(ttl_seconds, now),
        ),
        !ttl_accepted(ttl_seconds, now) ==> made == Err::<OperationRecord, ContractError>(
            ContractError::InvalidArgument,
        ),
{
    match ttl_seconds {
        None => Ok(OperationRecord { recorded_at: now, expires_at: None }),
        Some(ttl) => {
            if ttl == 0 {
                Err(ContractError::InvalidArgument)
            } else {
                match now.checked_add(ttl) {
                    Some(end) => Ok(OperationRecord { recorded_at: now, expires_at: Some(end) }),
                    None => Err(ContractError::InvalidArgument),
                }
            }
        },
    }
}

/// What a claim makes of one slot, given what the slot holds: the record to file, or
/// the refusal. The time-to-live is judged first; then a record that has not expired
/// refuses the claim; an expired record, or none, lets it through.
pub open spec fn slot_claim(
    existing: Option<OperationRecord>,
    ttl_seconds: Option<u64>,
    now: u64,
) -> Result<OperationRecord, ContractError> {
    if !ttl_accepted(ttl_seconds, now) {
        Err(ContractError::InvalidArgument)
    } else if existing is Some && !existing->Some_0.expired_at(now) {
        Err(ContractError::DuplicateOperation)
    } else {
        Ok(fresh_record(ttl_seconds, now))
    }
}

/// Decides a claim of one slot at time `now`, given what the slot holds.
pub fn decide_claim(existing: Option<OperationRecord>, ttl_seconds: Option<u64>, now: u64) -> (decision:
    Result<OperationRecord, ContractError>)
    ensures
        decision == slot_claim(existing, ttl_seconds, now),
{
    let record = match new_record(ttl_seconds, now) {
        Ok(record) => record,
        Err(refusal) => {
            return Err(refusal);
        },
    };
    match existing {
        Some(held) => {
            if held.is_expired(now) {
                Ok(record)
            } else {
                Err(ContractError::DuplicateOperation)
            }
        },
        None => Ok(record),
    }
}

/// Whether a cleanup removes what a slot holds: there is a record and it has expired.
pub open spec fn slot_cleanup(existing: Option<OperationRecord>, now: u64) -> bool {
    existing is Some && existing->Some_0.expired_at(now)
}

/// Decides a cleanup of one slot at time `now`, given what the slot holds: whether the
/// record is to be removed.
pub fn decide_cleanup(existing: Option<OperationRecord>, now: u64) -> (remove: bool)
    ensures
        remove == slot_cleanup(existing, now),
{
    match existing {
        Some(held) => held.is_expired(now),
        None => false,
    }
}

/// What a paired claim makes of its two slots, given what they hold and whether they
/// are one and the same slot: the records to file for the identifier and for the
/// hash, or the refusal. The time-to-live is judged first; then any record in the
/// identifier slot refuses the claim, then any record in the hash slot; and two claims
/// of one slot refuse each other.
pub open spec fn slot_claim_pair(
    id_existing: Option<OperationRecord>,
    hash_existing: Option<OperationRecord>,
    one_slot: bool,
    ttl_seconds: Option<u64>,
    now: u64,
) -> Result<(OperationRecord, OperationRecord), ContractError> {
    if !ttl_accepted(ttl_seconds, now) {
        Err(ContractError::InvalidArgument)
    } else if id_existing is Some || hash_existing is Some || one_slot {
        Err(ContractError::DuplicateOperation)
    } else {
        Ok((fresh_record(None, now), fresh_record(ttl_seconds, now)))
    }
}

/// Decides a paired claim at time `now`, given what the two slots hold.
pub fn decide_claim_pair(
    id_existing: Option<OperationRecord>,
    hash_existing: Option<OperationRecord>,
    one_slot: bool,
    ttl_seconds: Option<u64>,
    now: u64,
) -> (decision: Result<(OperationRecord, OperationRecord), ContractError>)
    ensures
        decision == slot_claim_pair(id_existing, hash_existing, one_slot, ttl_seconds, now),
{
    let hash_record = match new_record(ttl_seconds, now) {
        Ok(record) => record,
        Err(refusal) => {
            return Err(refusal);
        },
    };
    if id_existing.is_some() || hash_existing.is_some() || one_slot {
        return Err(ContractError::DuplicateOperation);
    }
    Ok((OperationRecord { recorded_at: now, expires_at: None }, hash_record))
}

/// Whether two keys hold the same bytes.
pub fn same_key(a: &OperationKey, b: &OperationKey) -> (same: bool)
    ensures
        same == (a@ == b@),
        same == (*a == *b),
{
    let mut i: usize = 0;
    while i < 32
        invariant
            i <= 32,
            forall|j: int| 0 <= j < i ==> a@[j] == b@[j],
        decreases 32 - i,
    {
        if a[i] != b[i] {
            return false;
        }
        i += 1;
    }
    proof {
        assert(a@ =~= b@);
        vstd::array::axiom_array_ext_equal(*a, *b);
    }
    true
}

/// Reads an operation key out of raw bytes; anything but 32 bytes is refused.
pub fn key_from_slice(bytes: &[u8]) -> (parsed: Result<OperationKey, ContractError>)
    ensures
        bytes@.len() == KEY_LEN ==> parsed is Ok && parsed->Ok_0@ == bytes@,
        bytes@.len() != KEY_LEN ==> parsed == Err::<OperationKey, ContractError>(
            ContractError::InvalidArgument,
        ),
{
    if bytes.len() != 32 {
        return Err(ContractError::InvalidArgument);
    }
    let mut key: OperationKey = [0u8; 32];
    let mut i: usize = 0;
    while i < 32
        invariant
            i <= 32,
            bytes@.len() == 32,
            forall|j: int| 0 <= j < i ==> key@[j] == bytes@[j],
        decreases 32 - i,
    {
        key[i] = bytes[i];
        i += 1;
    }
    assert(key@ =~= bytes@);
    Ok(key)
}

} // verus!
