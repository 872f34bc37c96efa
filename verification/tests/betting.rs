use drip_contracts::address::Address;
use drip_contracts::betting::BettingContract;
use drip_contracts::error::ContractError;
use drip_contracts::events::SpinExecutedEvent;
use drip_contracts::record::OperationRecord;
use drip_contracts::store::{MemoryStore, RecordStore};

fn ready_contract() -> (BettingContract<MemoryStore>, Address, Address) {
    let backend_signer = Address::account([0xb0; 32]);
    let executor = Address::account([0xe0; 32]);
    let mut contract = BettingContract::new(MemoryStore::new());
    contract.initialize(backend_signer);
    (contract, backend_signer, executor)
}

#[test]
fn executes_spin_once_per_spin_id() {
    let (mut contract, backend_signer, executor) = ready_contract();

    let spin_id = [1u8; 32];
    let spin_hash = [2u8; 32];

    contract
        .execute_spin(&backend_signer, &spin_id, &spin_hash, executor, 0)
        .unwrap();
    assert_eq!(
        contract.execute_spin(&backend_signer, &spin_id, &spin_hash, executor, 0),
        Err(ContractError::DuplicateOperation)
    );
}

#[test]
fn rejects_replay_by_spin_hash() {
    let (mut contract, backend_signer, executor) = ready_contract();

    let spin_hash = [9u8; 32];

    contract
        .execute_spin(&backend_signer, &[7u8; 32], &spin_hash, executor, 0)
        .unwrap();

    assert_eq!(
        contract.execute_spin(&backend_signer, &[8u8; 32], &spin_hash, executor, 0),
        Err(ContractError::DuplicateOperation)
    );
}

#[test]
fn reports_spin_hash_usage() {
    let (mut contract, backend_signer, executor) = ready_contract();

    let spin_id = [10u8; 32];
    let spin_hash = [11u8; 32];

    assert!(!contract.is_spin_hash_used(&spin_hash));
    contract
        .execute_spin(&backend_signer, &spin_id, &spin_hash, executor, 0)
        .unwrap();
    assert!(contract.is_spin_hash_used(&spin_hash));
}

#[test]
fn supports_ttl_cleanup_for_spin_hashes() {
    let (mut contract, backend_signer, executor) = ready_contract();

    let spin_id = [12u8; 32];
    let spin_hash = [13u8; 32];
    let mut timestamp = 0u64;

    contract
        .execute_spin_with_ttl(&backend_signer, &spin_id, &spin_hash, executor, Some(5), timestamp)
        .unwrap();
    assert!(contract.is_spin_hash_used(&spin_hash));

    timestamp += 6;

    assert!(contract.cleanup_spin_hash(&spin_hash, timestamp));
    assert!(!contract.is_spin_hash_used(&spin_hash));
}

#[test]
fn spin_returns_the_event_to_publish() {
    let (mut contract, backend_signer, executor) = ready_contract();
    let event = contract
        .execute_spin(&backend_signer, &[1u8; 32], &[2u8; 32], executor, 77)
        .unwrap();
    assert_eq!(
        event,
        SpinExecutedEvent { spin_id: [1u8; 32], executor, timestamp: 77 }
    );
}

#[test]
fn spin_needs_the_backend_signer() {
    let (mut contract, _backend_signer, executor) = ready_contract();
    let stranger = Address::account([0x55; 32]);
    assert_eq!(
        contract.execute_spin(&stranger, &[1u8; 32], &[2u8; 32], executor, 0),
        Err(ContractError::Unauthorized)
    );
    assert!(!contract.is_spin_id_used(&[1u8; 32]));
    assert!(!contract.is_spin_hash_used(&[2u8; 32]));
}

#[test]
fn spin_before_initialize_is_unauthorized() {
    let mut contract = BettingContract::new(MemoryStore::new());
    let anyone = Address::account([1; 32]);
    assert_eq!(
        contract.execute_spin(&anyone, &[1u8; 32], &[2u8; 32], anyone, 0),
        Err(ContractError::Unauthorized)
    );
}

#[test]
fn spin_with_zero_ttl_is_refused_and_claims_nothing() {
    let (mut contract, backend_signer, executor) = ready_contract();
    assert_eq!(
        contract.execute_spin_with_ttl(
            &backend_signer,
            &[1u8; 32],
            &[2u8; 32],
            executor,
            Some(0),
            10
        ),
        Err(ContractError::InvalidArgument)
    );
    assert!(!contract.is_spin_id_used(&[1u8; 32]));
    assert!(!contract.is_spin_hash_used(&[2u8; 32]));
}

#[test]
fn spin_id_stays_claimed_after_hash_cleanup() {
    let (mut contract, backend_signer, executor) = ready_contract();
    let spin_id = [3u8; 32];
    let spin_hash = [4u8; 32];
    contract
        .execute_spin_with_ttl(&backend_signer, &spin_id, &spin_hash, executor, Some(5), 100)
        .unwrap();
    assert!(contract.cleanup_spin_hash(&spin_hash, 105));
    assert!(contract.is_spin_id_used(&spin_id));
    // the identifier is spent for good, whatever hash comes with it
    assert_eq!(
        contract.execute_spin(&backend_signer, &spin_id, &[5u8; 32], executor, 200),
        Err(ContractError::DuplicateOperation)
    );
    assert!(!contract.is_spin_hash_used(&[5u8; 32]));
    // the hash is free again for another identifier
    assert!(contract
        .execute_spin(&backend_signer, &[6u8; 32], &spin_hash, executor, 200)
        .is_ok());
}

#[test]
fn expired_hash_blocks_spins_until_cleaned_up() {
    let (mut contract, backend_signer, executor) = ready_contract();
    let spin_hash = [4u8; 32];
    contract
        .execute_spin_with_ttl(&backend_signer, &[1u8; 32], &spin_hash, executor, Some(5), 0)
        .unwrap();
    assert_eq!(
        contract.execute_spin(&backend_signer, &[2u8; 32], &spin_hash, executor, 50),
        Err(ContractError::DuplicateOperation)
    );
    assert!(!contract.is_spin_id_used(&[2u8; 32]));
}

#[test]
fn cleanup_of_a_permanent_hash_never_succeeds() {
    let (mut contract, backend_signer, executor) = ready_contract();
    let spin_hash = [4u8; 32];
    contract
        .execute_spin(&backend_signer, &[1u8; 32], &spin_hash, executor, 0)
        .unwrap();
    assert!(!contract.cleanup_spin_hash(&spin_hash, u64::MAX));
    assert!(contract.is_spin_hash_used(&spin_hash));
}

#[test]
fn contract_starts_from_the_records_in_its_store() {
    let mut store = MemoryStore::new();
    store.set("spin_hash", &[2u8; 32], OperationRecord { recorded_at: 0, expires_at: Some(10) });
    let backend_signer = Address::account([0xb0; 32]);
    let mut contract = BettingContract::new(store);
    contract.initialize(backend_signer);
    assert!(contract.is_spin_hash_used(&[2u8; 32]));
    assert_eq!(
        contract.execute_spin(&backend_signer, &[1u8; 32], &[2u8; 32], backend_signer, 5),
        Err(ContractError::DuplicateOperation)
    );
    assert!(contract.cleanup_spin_hash(&[2u8; 32], 10));
    assert!(contract
        .execute_spin(&backend_signer, &[1u8; 32], &[2u8; 32], backend_signer, 10)
        .is_ok());
}
