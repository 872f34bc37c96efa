use drip_contracts::error::ContractError;
use drip_contracts::guard::ReplayGuard;
use drip_contracts::record::{
    decide_claim, decide_claim_pair, decide_cleanup, key_from_slice, new_record, same_key,
    OperationRecord,
};
use drip_contracts::store::{MemoryStore, RecordStore, SlotKey};
use drip_contracts::table::TableKey;
use drip_contracts::two_key::TwoKeyReplayGuard;

const H: [u8; 32] = [0x48; 32];

fn guard() -> ReplayGuard<MemoryStore> {
    ReplayGuard::new(MemoryStore::new())
}

fn key(byte: u8) -> [u8; 32] {
    [byte; 32]
}

#[test]
fn claim_then_duplicate() {
    let mut guard = guard();
    assert_eq!(guard.claim("spin", &key(7), None, 10), Ok(()));
    assert_eq!(guard.claim("spin", &key(7), None, 11), Err(ContractError::DuplicateOperation));
    assert_eq!(
        guard.claim("spin", &key(7), Some(60), u64::MAX - 60),
        Err(ContractError::DuplicateOperation)
    );
    assert!(guard.is_claimed("spin", &key(7)));
}

#[test]
fn claim_files_the_time_and_the_expiry() {
    let mut guard = guard();
    guard.claim("settlement", &key(1), Some(30), 1000).unwrap();
    guard.claim("settlement", &key(2), None, 1001).unwrap();
    assert_eq!(
        guard.record("settlement", &key(1)),
        Some(OperationRecord { recorded_at: 1000, expires_at: Some(1030) })
    );
    assert_eq!(
        guard.record("settlement", &key(2)),
        Some(OperationRecord { recorded_at: 1001, expires_at: None })
    );
    assert_eq!(guard.record("settlement", &key(3)), None);
}

#[test]
fn failed_claim_leaves_the_record_as_it_was() {
    let mut guard = guard();
    guard.claim("spin", &key(1), Some(100), 5).unwrap();
    assert_eq!(guard.claim("spin", &key(1), None, 50), Err(ContractError::DuplicateOperation));
    assert_eq!(
        guard.record("spin", &key(1)),
        Some(OperationRecord { recorded_at: 5, expires_at: Some(105) })
    );
}

#[test]
fn duplicate_holds_through_unrelated_operations() {
    let mut guard = guard();
    guard.claim("spin", &key(1), Some(100), 0).unwrap();
    guard.claim("spin", &key(2), None, 1).unwrap();
    guard.claim("mint", &key(1), Some(1), 2).unwrap();
    assert!(guard.cleanup("mint", &key(1), 3));
    assert!(!guard.cleanup("spin", &key(1), 4));
    assert_eq!(
        guard.claim_pair("a", &key(8), "b", &key(9), None, 5),
        Ok(())
    );
    assert_eq!(guard.claim("spin", &key(1), None, 99), Err(ContractError::DuplicateOperation));
    assert_eq!(
        guard.record("spin", &key(1)),
        Some(OperationRecord { recorded_at: 0, expires_at: Some(100) })
    );
}

#[test]
fn scopes_do_not_block_each_other() {
    let mut guard = guard();
    assert_eq!(guard.claim("spin", &key(5), None, 0), Ok(()));
    assert_eq!(guard.claim("settlement", &key(5), None, 0), Ok(()));
    assert_eq!(guard.claim("nft_mint", &key(5), Some(9), 0), Ok(()));
    assert!(guard.is_claimed("spin", &key(5)));
    assert!(guard.is_claimed("settlement", &key(5)));
    assert!(!guard.is_claimed("spin_hash", &key(5)));
    assert!(guard.cleanup("nft_mint", &key(5), 9));
    assert!(guard.is_claimed("spin", &key(5)));
}

#[test]
fn scope_that_extends_another_is_another_scope() {
    let mut guard = guard();
    guard.claim("spin", &key(5), None, 0).unwrap();
    assert!(!guard.is_claimed("spin_", &key(5)));
    assert!(!guard.is_claimed("spi", &key(5)));
    assert!(!guard.is_claimed("", &key(5)));
    assert_eq!(guard.claim("", &key(5), None, 0), Ok(()));
    assert!(guard.is_claimed("", &key(5)));
}

#[test]
fn keys_that_differ_in_one_byte_are_different_keys() {
    let mut guard = guard();
    let mut other = key(5);
    other[31] = 6;
    guard.claim("spin", &key(5), None, 0).unwrap();
    assert!(!guard.is_claimed("spin", &other));
    assert_eq!(guard.claim("spin", &other, None, 0), Ok(()));
}

#[test]
fn cleanup_waits_for_the_expiry() {
    let mut guard = guard();
    guard.claim("spin_hash", &H, Some(5), 100).unwrap();
    assert!(!guard.cleanup("spin_hash", &H, 100));
    assert!(!guard.cleanup("spin_hash", &H, 104));
    assert!(guard.is_claimed("spin_hash", &H));
    assert!(guard.cleanup("spin_hash", &H, 105));
    assert!(!guard.is_claimed("spin_hash", &H));
    assert!(!guard.cleanup("spin_hash", &H, 105));
    assert!(!guard.cleanup("spin_hash", &H, 1_000_000));
}

#[test]
fn cleanup_of_nothing_is_false() {
    let mut guard = guard();
    assert!(!guard.cleanup("spin_hash", &H, 0));
    assert!(!guard.cleanup("spin_hash", &H, u64::MAX));
}

#[test]
fn permanent_record_is_never_cleaned_up() {
    let mut guard = guard();
    guard.claim("spin_id", &key(1), None, 0).unwrap();
    assert!(!guard.cleanup("spin_id", &key(1), 0));
    assert!(!guard.cleanup("spin_id", &key(1), 1_000_000_000));
    assert!(!guard.cleanup("spin_id", &key(1), u64::MAX));
    assert!(guard.is_claimed("spin_id", &key(1)));
    assert_eq!(
        guard.claim("spin_id", &key(1), None, u64::MAX),
        Err(ContractError::DuplicateOperation)
    );
}

#[test]
fn claim_succeeds_again_after_cleanup() {
    let mut guard = guard();
    guard.claim("settlement", &key(3), Some(10), 0).unwrap();
    assert!(guard.cleanup("settlement", &key(3), 10));
    assert_eq!(guard.claim("settlement", &key(3), Some(20), 50), Ok(()));
    assert_eq!(
        guard.record("settlement", &key(3)),
        Some(OperationRecord { recorded_at: 50, expires_at: Some(70) })
    );
    assert_eq!(
        guard.claim("settlement", &key(3), None, 60),
        Err(ContractError::DuplicateOperation)
    );
}

#[test]
fn expired_record_is_claimed_but_does_not_block_a_claim() {
    let mut guard = guard();
    guard.claim("spin_hash", &H, Some(5), 0).unwrap();
    // past its time-to-live the record is still on file
    assert!(guard.is_claimed("spin_hash", &H));
    assert_eq!(guard.check_claim("spin_hash", &H, None, 4), Err(ContractError::DuplicateOperation));
    assert_eq!(guard.check_claim("spin_hash", &H, None, 5), Ok(()));
    // and a claim takes its place
    assert_eq!(guard.claim("spin_hash", &H, None, 5), Ok(()));
    assert_eq!(
        guard.record("spin_hash", &H),
        Some(OperationRecord { recorded_at: 5, expires_at: None })
    );
    assert!(!guard.cleanup("spin_hash", &H, 1000));
}

#[test]
fn check_claim_changes_nothing() {
    let mut guard = guard();
    assert_eq!(guard.check_claim("spin", &key(1), Some(5), 0), Ok(()));
    assert!(!guard.is_claimed("spin", &key(1)));
    assert_eq!(guard.check_claim("spin", &key(1), Some(0), 0), Err(ContractError::InvalidArgument));
    guard.claim("spin", &key(1), Some(5), 0).unwrap();
    assert_eq!(guard.check_claim("spin", &key(1), Some(5), 1), Err(ContractError::DuplicateOperation));
    assert_eq!(
        guard.record("spin", &key(1)),
        Some(OperationRecord { recorded_at: 0, expires_at: Some(5) })
    );
}

#[test]
fn zero_ttl_is_an_invalid_argument() {
    let mut guard = guard();
    assert_eq!(guard.claim("spin", &key(1), Some(0), 10), Err(ContractError::InvalidArgument));
    assert!(!guard.is_claimed("spin", &key(1)));
}

#[test]
fn zero_ttl_is_judged_before_the_slot() {
    let mut guard = guard();
    guard.claim("spin", &key(1), None, 0).unwrap();
    assert_eq!(guard.claim("spin", &key(1), Some(0), 10), Err(ContractError::InvalidArgument));
}

#[test]
fn expiry_past_the_end_of_the_clock_is_an_invalid_argument() {
    let mut guard = guard();
    assert_eq!(guard.claim("spin", &key(1), Some(2), u64::MAX - 1), Err(ContractError::InvalidArgument));
    assert_eq!(guard.claim("spin", &key(1), Some(u64::MAX), 1), Err(ContractError::InvalidArgument));
    assert!(!guard.is_claimed("spin", &key(1)));
    assert_eq!(guard.claim("spin", &key(1), Some(1), u64::MAX - 1), Ok(()));
    assert_eq!(
        guard.record("spin", &key(1)),
        Some(OperationRecord { recorded_at: u64::MAX - 1, expires_at: Some(u64::MAX) })
    );
}

#[test]
fn new_record_adds_the_ttl_to_the_time() {
    assert_eq!(new_record(None, 7), Ok(OperationRecord { recorded_at: 7, expires_at: None }));
    assert_eq!(new_record(Some(5), 7), Ok(OperationRecord { recorded_at: 7, expires_at: Some(12) }));
    assert_eq!(new_record(Some(0), 7), Err(ContractError::InvalidArgument));
    assert_eq!(new_record(Some(1), u64::MAX), Err(ContractError::InvalidArgument));
}

#[test]
fn record_expires_at_its_expiry_and_not_before() {
    let bounded = OperationRecord { recorded_at: 0, expires_at: Some(5) };
    assert!(!bounded.is_expired(0));
    assert!(!bounded.is_expired(4));
    assert!(bounded.is_expired(5));
    assert!(bounded.is_expired(6));
    assert!(!bounded.is_permanent());
    let permanent = OperationRecord { recorded_at: 0, expires_at: None };
    assert!(!permanent.is_expired(u64::MAX));
    assert!(permanent.is_permanent());
}

#[test]
fn key_from_slice_wants_thirty_two_bytes() {
    let bytes: Vec<u8> = (0u8..32).collect();
    let parsed = key_from_slice(&bytes).unwrap();
    assert_eq!(parsed.to_vec(), bytes);
    assert_eq!(key_from_slice(&bytes[..31]), Err(ContractError::InvalidArgument));
    assert_eq!(key_from_slice(&[0u8; 33]), Err(ContractError::InvalidArgument));
    assert_eq!(key_from_slice(&[]), Err(ContractError::InvalidArgument));
}

#[test]
fn same_key_compares_every_byte() {
    let a = key(1);
    let mut b = key(1);
    assert!(same_key(&a, &b));
    b[0] = 2;
    assert!(!same_key(&a, &b));
    b[0] = 1;
    b[31] = 0;
    assert!(!same_key(&a, &b));
}

#[test]
fn hash_with_ttl_is_cleaned_up_once_it_has_expired() {
    let mut guard = guard();
    assert_eq!(guard.claim("spin_hash", &H, Some(5), 0), Ok(()));
    assert!(guard.is_claimed("spin_hash", &H));
    assert!(!guard.cleanup("spin_hash", &H, 4));
    assert!(guard.is_claimed("spin_hash", &H));
    assert!(guard.cleanup("spin_hash", &H, 6));
    assert!(!guard.is_claimed("spin_hash", &H));
}

#[test]
fn same_hash_under_another_id_is_refused() {
    let a = key(b'A');
    let b = key(b'B');
    let h = key(b'H');
    let mut guard = guard();
    assert_eq!(guard.claim_pair("spin_id", &a, "spin_hash", &h, None, 0), Ok(()));
    assert_eq!(
        guard.claim_pair("spin_id", &b, "spin_hash", &h, None, 1),
        Err(ContractError::DuplicateOperation)
    );
    assert!(!guard.is_claimed("spin_id", &b));
    assert_eq!(
        guard.record("spin_hash", &h),
        Some(OperationRecord { recorded_at: 0, expires_at: None })
    );
}

#[test]
fn claim_pair_claims_the_id_for_good_and_the_hash_with_ttl() {
    let mut guard = guard();
    assert_eq!(guard.claim_pair("spin_id", &key(1), "spin_hash", &key(2), Some(30), 100), Ok(()));
    assert_eq!(
        guard.record("spin_id", &key(1)),
        Some(OperationRecord { recorded_at: 100, expires_at: None })
    );
    assert_eq!(
        guard.record("spin_hash", &key(2)),
        Some(OperationRecord { recorded_at: 100, expires_at: Some(130) })
    );
}

#[test]
fn claim_pair_fails_on_a_claimed_id_and_leaves_the_hash_free() {
    let mut guard = guard();
    guard.claim("spin_id", &key(1), None, 0).unwrap();
    assert_eq!(
        guard.claim_pair("spin_id", &key(1), "spin_hash", &key(2), None, 1),
        Err(ContractError::DuplicateOperation)
    );
    assert!(!guard.is_claimed("spin_hash", &key(2)));
    assert_eq!(
        guard.record("spin_id", &key(1)),
        Some(OperationRecord { recorded_at: 0, expires_at: None })
    );
}

#[test]
fn claim_pair_fails_on_a_claimed_hash_and_leaves_the_id_free() {
    let mut guard = guard();
    guard.claim("spin_hash", &key(2), Some(50), 0).unwrap();
    assert_eq!(
        guard.claim_pair("spin_id", &key(1), "spin_hash", &key(2), None, 1),
        Err(ContractError::DuplicateOperation)
    );
    assert!(!guard.is_claimed("spin_id", &key(1)));
    assert_eq!(
        guard.record("spin_hash", &key(2)),
        Some(OperationRecord { recorded_at: 0, expires_at: Some(50) })
    );
}

#[test]
fn claim_pair_is_blocked_by_an_expired_hash_until_cleanup() {
    let mut guard = guard();
    guard.claim_pair("spin_id", &key(1), "spin_hash", &key(2), Some(5), 0).unwrap();
    assert_eq!(
        guard.claim_pair("spin_id", &key(3), "spin_hash", &key(2), Some(5), 100),
        Err(ContractError::DuplicateOperation)
    );
    assert!(!guard.is_claimed("spin_id", &key(3)));
    assert!(guard.cleanup("spin_hash", &key(2), 100));
    assert_eq!(guard.claim_pair("spin_id", &key(3), "spin_hash", &key(2), Some(5), 100), Ok(()));
}

#[test]
fn claim_pair_refuses_a_bad_ttl_before_anything_else() {
    let mut guard = guard();
    assert_eq!(
        guard.claim_pair("spin_id", &key(1), "spin_hash", &key(2), Some(0), 0),
        Err(ContractError::InvalidArgument)
    );
    assert!(!guard.is_claimed("spin_id", &key(1)));
    assert!(!guard.is_claimed("spin_hash", &key(2)));
    guard.claim("spin_id", &key(1), None, 0).unwrap();
    assert_eq!(
        guard.claim_pair("spin_id", &key(1), "spin_hash", &key(2), Some(0), 0),
        Err(ContractError::InvalidArgument)
    );
}

#[test]
fn claim_pair_on_one_slot_is_a_duplicate() {
    let mut guard = guard();
    assert_eq!(
        guard.claim_pair("spin", &key(1), "spin", &key(1), None, 0),
        Err(ContractError::DuplicateOperation)
    );
    assert!(!guard.is_claimed("spin", &key(1)));
    assert_eq!(guard.claim_pair("spin", &key(1), "spin", &key(2), None, 0), Ok(()));
}

#[test]
fn two_key_guard_claims_under_its_scopes() {
    let mut pair = TwoKeyReplayGuard::new(guard(), "spin_id", "spin_hash");
    assert!(!pair.hash_is_claimed(&key(2)));
    assert_eq!(pair.claim_pair(&key(1), &key(2), Some(5), 0), Ok(()));
    assert!(pair.id_is_claimed(&key(1)));
    assert!(pair.hash_is_claimed(&key(2)));
    // the same bytes under the other scope are another slot
    assert!(!pair.id_is_claimed(&key(2)));
    assert!(!pair.hash_is_claimed(&key(1)));
    let inner = pair.into_guard();
    assert_eq!(
        inner.record("spin_id", &key(1)),
        Some(OperationRecord { recorded_at: 0, expires_at: None })
    );
    assert_eq!(
        inner.record("spin_hash", &key(2)),
        Some(OperationRecord { recorded_at: 0, expires_at: Some(5) })
    );
}

#[test]
fn two_key_guard_cleans_up_hashes_only() {
    let mut pair = TwoKeyReplayGuard::new(guard(), "spin_id", "spin_hash");
    pair.claim_pair(&key(1), &key(2), Some(5), 0).unwrap();
    // the identifier bytes are not a hash on file
    assert!(!pair.cleanup_hash(&key(1), 1000));
    assert!(pair.id_is_claimed(&key(1)));
    assert!(!pair.cleanup_hash(&key(2), 4));
    assert!(pair.cleanup_hash(&key(2), 5));
    assert!(!pair.hash_is_claimed(&key(2)));
    assert!(pair.id_is_claimed(&key(1)));
    assert_eq!(
        pair.claim_pair(&key(1), &key(2), Some(5), 6),
        Err(ContractError::DuplicateOperation)
    );
    assert!(!pair.hash_is_claimed(&key(2)));
}

#[test]
fn guard_works_on_the_store_it_is_given() {
    let mut store = MemoryStore::new();
    store.set("spin", &key(1), OperationRecord { recorded_at: 3, expires_at: Some(9) });
    let mut guard = ReplayGuard::new(store);
    assert!(guard.is_claimed("spin", &key(1)));
    assert_eq!(guard.claim("spin", &key(1), None, 8), Err(ContractError::DuplicateOperation));
    assert_eq!(guard.claim("spin", &key(1), None, 9), Ok(()));
    let store = guard.into_store();
    assert_eq!(
        store.get("spin", &key(1)),
        Some(OperationRecord { recorded_at: 9, expires_at: None })
    );
}

#[test]
fn memory_store_sets_gets_and_removes() {
    let mut store = MemoryStore::new();
    let first = OperationRecord { recorded_at: 1, expires_at: None };
    let second = OperationRecord { recorded_at: 2, expires_at: Some(3) };
    assert!(!store.has("a", &key(1)));
    assert_eq!(store.get("a", &key(1)), None);
    store.set("a", &key(1), first);
    store.set("b", &key(1), second);
    assert!(store.has("a", &key(1)));
    assert_eq!(store.get("a", &key(1)), Some(first));
    assert_eq!(store.get("b", &key(1)), Some(second));
    store.set("a", &key(1), second);
    assert_eq!(store.get("a", &key(1)), Some(second));
    store.remove("a", &key(1));
    assert!(!store.has("a", &key(1)));
    assert!(store.has("b", &key(1)));
    store.remove("a", &key(1));
    assert!(store.has("b", &key(1)));
}

#[test]
fn decide_claim_judges_the_ttl_then_the_slot() {
    let live = OperationRecord { recorded_at: 0, expires_at: Some(10) };
    let permanent = OperationRecord { recorded_at: 0, expires_at: None };
    assert_eq!(
        decide_claim(None, Some(5), 100),
        Ok(OperationRecord { recorded_at: 100, expires_at: Some(105) })
    );
    assert_eq!(decide_claim(Some(live), None, 9), Err(ContractError::DuplicateOperation));
    assert_eq!(
        decide_claim(Some(live), None, 10),
        Ok(OperationRecord { recorded_at: 10, expires_at: None })
    );
    assert_eq!(decide_claim(Some(permanent), None, u64::MAX), Err(ContractError::DuplicateOperation));
    assert_eq!(decide_claim(Some(permanent), Some(0), 1), Err(ContractError::InvalidArgument));
    assert_eq!(decide_claim(None, Some(0), 1), Err(ContractError::InvalidArgument));
}

#[test]
fn decide_cleanup_removes_only_what_has_expired() {
    let live = OperationRecord { recorded_at: 0, expires_at: Some(10) };
    let permanent = OperationRecord { recorded_at: 0, expires_at: None };
    assert!(!decide_cleanup(None, 100));
    assert!(!decide_cleanup(Some(live), 9));
    assert!(decide_cleanup(Some(live), 10));
    assert!(!decide_cleanup(Some(permanent), u64::MAX));
}

#[test]
fn decide_claim_pair_wants_both_slots_empty() {
    let stale = OperationRecord { recorded_at: 0, expires_at: Some(1) };
    assert_eq!(
        decide_claim_pair(None, None, false, Some(5), 100),
        Ok((
            OperationRecord { recorded_at: 100, expires_at: None },
            OperationRecord { recorded_at: 100, expires_at: Some(105) },
        ))
    );
    assert_eq!(
        decide_claim_pair(Some(stale), None, false, None, 100),
        Err(ContractError::DuplicateOperation)
    );
    assert_eq!(
        decide_claim_pair(None, Some(stale), false, None, 100),
        Err(ContractError::DuplicateOperation)
    );
    assert_eq!(
        decide_claim_pair(None, None, true, None, 100),
        Err(ContractError::DuplicateOperation)
    );
    assert_eq!(
        decide_claim_pair(Some(stale), Some(stale), true, Some(0), 100),
        Err(ContractError::InvalidArgument)
    );
}

#[test]
fn slot_keys_compare_scope_and_key() {
    let a = SlotKey::new("spin", &key(1));
    assert!(a.same_as(&SlotKey::new("spin", &key(1))));
    assert!(!a.same_as(&SlotKey::new("spin", &key(2))));
    assert!(!a.same_as(&SlotKey::new("spin_id", &key(1))));
}
