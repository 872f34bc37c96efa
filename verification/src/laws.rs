//! What holds of the ledger whatever is asked of it.

use vstd::prelude::*;

use crate::error::ContractError;
use crate::model::{
    after_claim, after_claim_pair, after_cleanup, apply, apply_all, claim_outcome,
    claim_pair_outcome, claimed, cleanup_outcome, held, lookup, LedgerOp, Records,
};
use crate::record::{
    fresh_record, slot_claim, slot_claim_pair, slot_cleanup, ttl_accepted, OperationRecord, Slot,
};

verus! {

/// A record outlives every operation made while it is unexpired: as long as each claim
/// and each cleanup of its own slot comes at a time at which the record has not
/// expired, the slot holds that very record.
pub proof fn lemma_record_stays(records: Records, slot: Slot, ops: Seq<LedgerOp>)
    requires
        records.contains_key(slot),
        forall|i: int|
            0 <= i < ops.len() && (#[trigger] ops[i]).aims_at(slot) ==> !records[slot].expired_at(
                ops[i].time(),
            ),
    ensures
        lookup(apply_all(records, ops), slot) == Some(records[slot]),
    decreases ops.len(),
{
    if ops.len() > 0 {
        let before = ops.drop_last();
        assert forall|i: int| 0 <= i < before.len() && (#[trigger] before[i]).aims_at(slot) implies
            !records[slot].expired_at(before[i].time()) by {
            assert(before[i] == ops[i]);
        }
        lemma_record_stays(records, slot, before);
        let mid = apply_all(records, before);
        let last = ops.last();
        assert(last == ops[ops.len() - 1]);
        match last {
            LedgerOp::Claim { slot: aimed, ttl_seconds, now } => {
                if aimed == slot {
                    assert(last.aims_at(slot));
                    assert(held(mid, slot, now));
                }
            },
            LedgerOp::Cleanup { slot: aimed, now } => {
                if aimed == slot {
                    assert(last.aims_at(slot));
                }
            },
            LedgerOp::ClaimPair { id_slot, hash_slot, ttl_seconds, now } => {},
        }
    }
}

/// Uniqueness. After a successful claim of a slot, the slot holds the record of that
/// claim through every operation made while the record is unexpired, and a claim of
/// the slot made at such a time with an acceptable time-to-live is refused as a
/// duplicate and changes nothing. A permanent record never expires, so for it this
/// holds at all times.
pub proof fn law_uniqueness(
    records: Records,
    slot: Slot,
    ttl_seconds: Option<u64>,
    now: u64,
    ops: Seq<LedgerOp>,
    later_ttl: Option<u64>,
    later: u64,
)
    requires
        claim_outcome(records, slot, ttl_seconds, now) is Ok,
        forall|i: int|
            0 <= i < ops.len() && (#[trigger] ops[i]).aims_at(slot) ==> !fresh_record(
                ttl_seconds,
                now,
            ).expired_at(ops[i].time()),
        !fresh_record(ttl_seconds, now).expired_at(later),
        ttl_accepted(later_ttl, later),
    ensures
        ({
            let reached = apply_all(after_claim(records, slot, ttl_seconds, now), ops);
            &&& lookup(reached, slot) == Some(fresh_record(ttl_seconds, now))
            &&& claim_outcome(reached, slot, later_ttl, later) == Err::<(), ContractError>(
                ContractError::DuplicateOperation,
            )
            &&& after_claim(reached, slot, later_ttl, later) == reached
        }),
{
    lemma_record_stays(after_claim(records, slot, ttl_seconds, now), slot, ops);
}

/// Uniqueness, for two calls in a row: a claim that follows a successful claim of the
/// same slot, while the first record is unexpired, is refused as a duplicate.
pub proof fn law_second_claim_is_refused(
    records: Records,
    slot: Slot,
    ttl_seconds: Option<u64>,
    now: u64,
    later_ttl: Option<u64>,
    later: u64,
)
    requires
        claim_outcome(records, slot, ttl_seconds, now) is Ok,
        !fresh_record(ttl_seconds, now).expired_at(later),
        ttl_accepted(later_ttl, later),
    ensures
        claim_outcome(after_claim(records, slot, ttl_seconds, now), slot, later_ttl, later) == Err::<
            (),
            ContractError,
        >(ContractError::DuplicateOperation),
        after_claim(after_claim(records, slot, ttl_seconds, now), slot, later_ttl, later)
            == after_claim(records, slot, ttl_seconds, now),
{
}

/// Scope isolation. A claim under one scope, whatever its outcome, leaves a claim of
/// the same key bytes under another scope to end as it would have ended without it.
pub proof fn law_scope_isolation(
    records: Records,
    scope: Seq<char>,
    other_scope: Seq<char>,
    key: Seq<u8>,
    ttl_seconds: Option<u64>,
    now: u64,
    other_ttl: Option<u64>,
    other_now: u64,
)
    requires
        scope != other_scope,
    ensures
        claim_outcome(
            after_claim(records, (scope, key), ttl_seconds, now),
            (other_scope, key),
            other_ttl,
            other_now,
        ) == claim_outcome(records, (other_scope, key), other_ttl, other_now),
        lookup(after_claim(records, (scope, key), ttl_seconds, now), (other_scope, key)) == lookup(
            records,
            (other_scope, key),
        ),
{
}

/// Time-to-live eligibility. After a successful claim with a time-to-live, a cleanup
/// before the expiry removes nothing and says so; the first cleanup at or after the
/// expiry removes the record and says so; and any cleanup after that one finds
/// nothing to remove.
pub proof fn law_ttl_eligibility(
    records: Records,
    slot: Slot,
    ttl: u64,
    now: u64,
    at: u64,
    afterwards: u64,
)
    requires
        claim_outcome(records, slot, Some(ttl), now) is Ok,
    ensures
        ({
            let filed = after_claim(records, slot, Some(ttl), now);
            &&& filed[slot].expires_at == Some((now + ttl) as u64)
            &&& at < now + ttl ==> !cleanup_outcome(filed, slot, at) && after_cleanup(
                filed,
                slot,
                at,
            ) == filed
            &&& at >= now + ttl ==> cleanup_outcome(filed, slot, at) && !claimed(
                after_cleanup(filed, slot, at),
                slot,
            ) && !cleanup_outcome(after_cleanup(filed, slot, at), slot, afterwards)
        }),
{
}

/// Permanence. A record made without a time-to-live is never removed by a cleanup, at
/// any time, and no sequence of operations takes it out of its slot or replaces it.
pub proof fn law_permanence(records: Records, slot: Slot, now: u64, ops: Seq<LedgerOp>, at: u64)
    requires
        claim_outcome(records, slot, None, now) is Ok,
    ensures
        ({
            let reached = apply_all(after_claim(records, slot, None, now), ops);
            &&& lookup(reached, slot) == Some(fresh_record(None, now))
            &&& !cleanup_outcome(reached, slot, at)
            &&& after_cleanup(reached, slot, at) == reached
        }),
{
    lemma_record_stays(after_claim(records, slot, None, now), slot, ops);
}

/// Reclaim after cleanup. Once a cleanup has removed the record of a slot, a claim of
/// the slot with an acceptable time-to-live succeeds and files a fresh record.
pub proof fn law_reclaim_after_cleanup(
    records: Records,
    slot: Slot,
    cleaned_at: u64,
    ttl_seconds: Option<u64>,
    now: u64,
)
    requires
        cleanup_outcome(records, slot, cleaned_at),
        ttl_accepted(ttl_seconds, now),
    ensures
        ({
            let cleaned = after_cleanup(records, slot, cleaned_at);
            &&& claim_outcome(cleaned, slot, ttl_seconds, now) == Ok::<(), ContractError>(())
            &&& lookup(after_claim(cleaned, slot, ttl_seconds, now), slot) == Some(
                fresh_record(ttl_seconds, now),
            )
        }),
{
}

/// Reclaim of an expired slot. A record that has expired but was never cleaned up does
/// not stand in the way of a claim: the claim succeeds and its record takes the place
/// of the stale one.
pub proof fn law_expired_slot_is_free(
    records: Records,
    slot: Slot,
    ttl_seconds: Option<u64>,
    now: u64,
)
    requires
        records.contains_key(slot),
        records[slot].expired_at(now),
        ttl_accepted(ttl_seconds, now),
    ensures
        claim_outcome(records, slot, ttl_seconds, now) == Ok::<(), ContractError>(()),
        after_claim(records, slot, ttl_seconds, now) == records.insert(
            slot,
            fresh_record(ttl_seconds, now),
        ),
{
}

/// Two-key ordering. A paired claim is refused if a record is on file for the
/// identifier or for the hash; a refused paired claim changes neither slot nor any
/// other; and a paired claim that succeeds leaves a permanent record for the
/// identifier and a fresh record for the hash.
pub proof fn law_two_key_ordering(
    records: Records,
    id_slot: Slot,
    hash_slot: Slot,
    ttl_seconds: Option<u64>,
    now: u64,
)
    ensures
        claimed(records, id_slot) || claimed(records, hash_slot) ==> claim_pair_outcome(
            records,
            id_slot,
            hash_slot,
            ttl_seconds,
            now,
        ) is Err,
        ttl_accepted(ttl_seconds, now) && (claimed(records, id_slot) || claimed(records, hash_slot))
            ==> claim_pair_outcome(records, id_slot, hash_slot, ttl_seconds, now) == Err::<
            (),
            ContractError,
        >(ContractError::DuplicateOperation),
        claim_pair_outcome(records, id_slot, hash_slot, ttl_seconds, now) is Err
            ==> after_claim_pair(records, id_slot, hash_slot, ttl_seconds, now) == records,
        claim_pair_outcome(records, id_slot, hash_slot, ttl_seconds, now) is Ok ==> {
            let filed = after_claim_pair(records, id_slot, hash_slot, ttl_seconds, now);
            &&& lookup(filed, id_slot) == Some(fresh_record(None, now))
            &&& lookup(filed, hash_slot) == Some(fresh_record(ttl_seconds, now))
            &&& filed[id_slot].permanent()
        },
{
}

/// The hash decides too. After a successful paired claim, a paired claim of another
/// identifier with the same hash is refused, at any time and whatever its
/// time-to-live, until the hash is cleaned up.
pub proof fn law_same_hash_is_refused(
    records: Records,
    id_slot: Slot,
    other_id_slot: Slot,
    hash_slot: Slot,
    ttl_seconds: Option<u64>,
    now: u64,
    later_ttl: Option<u64>,
    later: u64,
)
    requires
        claim_pair_outcome(records, id_slot, hash_slot, ttl_seconds, now) is Ok,
    ensures
        claim_pair_outcome(
            after_claim_pair(records, id_slot, hash_slot, ttl_seconds, now),
            other_id_slot,
            hash_slot,
            later_ttl,
            later,
        ) is Err,
        ttl_accepted(later_ttl, later) ==> claim_pair_outcome(
            after_claim_pair(records, id_slot, hash_slot, ttl_seconds, now),
            other_id_slot,
            hash_slot,
            later_ttl,
            later,
        ) == Err::<(), ContractError>(ContractError::DuplicateOperation),
{
}

/// An identifier is spent for good. After a successful paired claim, the identifier
/// slot holds its permanent record through every sequence of operations, cleanups
/// included, and every later paired claim of that identifier is refused, whatever
/// hash comes with it.
pub proof fn law_identifier_is_spent_for_good(
    records: Records,
    id_slot: Slot,
    hash_slot: Slot,
    ttl_seconds: Option<u64>,
    now: u64,
    ops: Seq<LedgerOp>,
    other_hash_slot: Slot,
    later_ttl: Option<u64>,
    later: u64,
)
    requires
        claim_pair_outcome(records, id_slot, hash_slot, ttl_seconds, now) is Ok,
    ensures
        ({
            let reached = apply_all(
                after_claim_pair(records, id_slot, hash_slot, ttl_seconds, now),
                ops,
            );
            &&& lookup(reached, id_slot) == Some(fresh_record(None, now))
            &&& claim_pair_outcome(reached, id_slot, other_hash_slot, later_ttl, later) is Err
            &&& ttl_accepted(later_ttl, later) ==> claim_pair_outcome(
                reached,
                id_slot,
                other_hash_slot,
                later_ttl,
                later,
            ) == Err::<(), ContractError>(ContractError::DuplicateOperation)
        }),
{
    lemma_record_stays(after_claim_pair(records, id_slot, hash_slot, ttl_seconds, now), id_slot, ops);
}

/// The decision for one slot is the decision of the ledger. What a claim, a cleanup or
/// a paired claim does to the ledger is what the decisions for the slots involved
/// say, given what those slots hold.
pub proof fn law_slot_decisions_agree(
    records: Records,
    slot: Slot,
    other_slot: Slot,
    ttl_seconds: Option<u64>,
    now: u64,
)
    ensures
        claim_outcome(records, slot, ttl_seconds, now) is Ok <==> slot_claim(
            lookup(records, slot),
            ttl_seconds,
            now,
        ) is Ok,
        slot_claim(lookup(records, slot), ttl_seconds, now) matches Ok(record) ==> after_claim(
            records,
            slot,
            ttl_seconds,
            now,
        ) == records.insert(slot, record),
        slot_claim(lookup(records, slot), ttl_seconds, now) matches Err(refusal) ==> claim_outcome(
            records,
            slot,
            ttl_seconds,
            now,
        ) == Err::<(), ContractError>(refusal),
        cleanup_outcome(records, slot, now) == slot_cleanup(lookup(records, slot), now),
        claim_pair_outcome(records, slot, other_slot, ttl_seconds, now) is Ok <==> slot_claim_pair(
            lookup(records, slot),
            lookup(records, other_slot),
            slot == other_slot,
            ttl_seconds,
            now,
        ) is Ok,
        slot_claim_pair(
            lookup(records, slot),
            lookup(records, other_slot),
            slot == other_slot,
            ttl_seconds,
            now,
        ) matches Ok(pair) ==> after_claim_pair(records, slot, other_slot, ttl_seconds, now)
            == records.insert(slot, pair.0).insert(other_slot, pair.1),
        slot_claim_pair(
            lookup(records, slot),
            lookup(records, other_slot),
            slot == other_slot,
            ttl_seconds,
            now,
        ) matches Err(refusal) ==> claim_pair_outcome(records, slot, other_slot, ttl_seconds, now)
            == Err::<(), ContractError>(refusal),
{
}

/// Records are filed only by claims. Where an operation leaves a slot holding a record
/// that it did not hold before, the operation is a claim of that slot, or a paired
/// claim with that slot as one of its two, and the record is the fresh record of the
/// claim: made at the time of the claim, permanent for the identifier of a pair, and
/// otherwise expiring at that time plus the time-to-live given, if one was given.
pub proof fn law_only_claims_file(records: Records, op: LedgerOp, slot: Slot)
    requires
        lookup(apply(records, op), slot) is Some,
        lookup(apply(records, op), slot) != lookup(records, slot),
    ensures
        ({
            let written: OperationRecord = apply(records, op)[slot];
            match op {
                LedgerOp::Claim { slot: aimed, ttl_seconds, now } => aimed == slot && written
                    == fresh_record(ttl_seconds, now),
                LedgerOp::Cleanup { .. } => false,
                LedgerOp::ClaimPair { id_slot, hash_slot, ttl_seconds, now } => (slot == id_slot
                    && written == fresh_record(None, now)) || (slot == hash_slot && written
                    == fresh_record(ttl_seconds, now)),
            }
        }),
{
}

/// Records leave only by cleanup. Where an operation leaves a slot empty that held a
/// record before, the operation is a cleanup of that slot, made when the record had
/// expired.
pub proof fn law_only_cleanup_removes(records: Records, op: LedgerOp, slot: Slot)
    requires
        claimed(records, slot),
        !claimed(apply(records, op), slot),
    ensures
        op == (LedgerOp::Cleanup { slot, now: op.time() }),
        records[slot].expired_at(op.time()),
{
}

/// An unexpired record is never overwritten. Where an operation changes the record
/// that a slot holds, the record it held had expired at the time of the operation.
pub proof fn law_only_expired_records_are_replaced(records: Records, op: LedgerOp, slot: Slot)
    requires
        claimed(records, slot),
        lookup(apply(records, op), slot) != lookup(records, slot),
    ensures
        records[slot].expired_at(op.time()),
{
}

} // verus!
