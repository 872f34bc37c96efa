use drip_contracts::address::Address;
use drip_contracts::error::ContractError;
use drip_contracts::events::{create_nft_mint_event, NFTMintEvent, NFT_MINT_EVENT};
use drip_contracts::player_card::{tokens_among, PlayerCardContract};
use drip_contracts::store::MemoryStore;
use drip_contracts::u256::U256;

fn addresses() -> (Address, Address, Address, Address) {
    (
        Address::contract([0xcc; 32]),
        Address::account([0xad; 32]),
        Address::account([0x01; 32]),
        Address::account([0x02; 32]),
    )
}

fn ready_contract() -> (PlayerCardContract<MemoryStore>, Address, Address, Address, Address) {
    let (contract, admin, alice, bob) = addresses();
    let mut cards = PlayerCardContract::new(contract, MemoryStore::new());
    cards.initialize(admin, 0).unwrap();
    (cards, contract, admin, alice, bob)
}

fn plain(token_id: u32, to: Address, uri: &str, contract: Address, kind: &str, at: u64) -> NFTMintEvent {
    NFTMintEvent {
        token_id: U256::from_u32(token_id),
        to,
        token_uri: uri.to_string(),
        nft_contract: contract,
        timestamp: at,
        mint_type: kind.to_string(),
        metadata: vec![],
        price: None,
    }
}

#[test]
fn initialize_publishes_and_happens_once() {
    let (contract, admin, alice, _bob) = addresses();
    let mut cards = PlayerCardContract::new(contract, MemoryStore::new());
    assert_eq!(
        cards.initialize(admin, 9),
        Ok(plain(0, admin, "contract_initialized", contract, "INIT", 9))
    );
    assert_eq!(cards.initialize(alice, 10), Err(ContractError::AlreadyInitialized));
    // the first administrator is still the one
    assert!(cards.mint(&admin, &[1u8; 32], alice, "u".to_string(), None, 11).is_ok());
    assert_eq!(
        cards.mint(&alice, &[2u8; 32], alice, "u".to_string(), None, 11).unwrap_err(),
        ContractError::Unauthorized
    );
}

#[test]
fn mint_numbers_tokens_from_one() {
    let (mut cards, contract, admin, alice, bob) = ready_contract();
    let first = cards.mint(&admin, &[1u8; 32], alice, "ipfs://a".to_string(), None, 5).unwrap();
    assert_eq!(first.token_id, 1);
    assert_eq!(first.event, plain(1, alice, "ipfs://a", contract, "PLAYER_CARD", 5));
    let second = cards.mint(&admin, &[2u8; 32], bob, "ipfs://b".to_string(), Some(60), 6).unwrap();
    assert_eq!(second.token_id, 2);
    assert_eq!(cards.total_supply(), 2);
    assert_eq!(cards.owner_of(1), Ok(alice));
    assert_eq!(cards.owner_of(2), Ok(bob));
    assert_eq!(cards.token_uri(1), Ok("ipfs://a".to_string()));
    assert_eq!(cards.token_uri(2), Ok("ipfs://b".to_string()));
}

#[test]
fn mint_runs_once_per_operation_hash() {
    let (mut cards, _contract, admin, alice, bob) = ready_contract();
    cards.mint(&admin, &[1u8; 32], alice, "a".to_string(), None, 5).unwrap();
    assert_eq!(
        cards.mint(&admin, &[1u8; 32], bob, "b".to_string(), None, 6).unwrap_err(),
        ContractError::DuplicateOperation
    );
    assert_eq!(cards.total_supply(), 1);
    assert_eq!(cards.owner_of(2), Err(ContractError::TokenNotFound));
    assert!(cards.is_mint_operation_executed(&[1u8; 32]));
    assert!(!cards.is_mint_operation_executed(&[2u8; 32]));
}

#[test]
fn mint_operation_can_be_cleaned_up_after_its_ttl() {
    let (mut cards, _contract, admin, alice, _bob) = ready_contract();
    cards.mint(&admin, &[1u8; 32], alice, "a".to_string(), Some(5), 0).unwrap();
    assert!(!cards.cleanup_mint_operation(&[1u8; 32], 4));
    assert!(cards.cleanup_mint_operation(&[1u8; 32], 6));
    assert!(!cards.is_mint_operation_executed(&[1u8; 32]));
    // the token stays
    assert_eq!(cards.total_supply(), 1);
    let again = cards.mint(&admin, &[1u8; 32], alice, "a".to_string(), Some(5), 6).unwrap();
    assert_eq!(again.token_id, 2);
}

#[test]
fn mint_needs_a_set_up_contract_and_the_admin() {
    let (contract, admin, alice, _bob) = addresses();
    let mut cards = PlayerCardContract::new(contract, MemoryStore::new());
    assert_eq!(
        cards.mint(&admin, &[1u8; 32], alice, "a".to_string(), None, 0).unwrap_err(),
        ContractError::NotInitialized
    );
    cards.initialize(admin, 0).unwrap();
    assert_eq!(
        cards.mint(&alice, &[1u8; 32], alice, "a".to_string(), None, 0).unwrap_err(),
        ContractError::Unauthorized
    );
    assert!(!cards.is_mint_operation_executed(&[1u8; 32]));
    assert_eq!(cards.total_supply(), 0);
}

#[test]
fn mint_with_zero_ttl_is_refused() {
    let (mut cards, _contract, admin, alice, _bob) = ready_contract();
    assert_eq!(
        cards.mint(&admin, &[1u8; 32], alice, "a".to_string(), Some(0), 0).unwrap_err(),
        ContractError::InvalidArgument
    );
    assert_eq!(cards.total_supply(), 0);
}

#[test]
fn transfer_changes_the_owner() {
    let (mut cards, contract, admin, alice, bob) = ready_contract();
    cards.mint(&admin, &[1u8; 32], alice, "ipfs://a".to_string(), None, 5).unwrap();
    assert_eq!(
        cards.transfer(&alice, alice, bob, 1, 20),
        Ok(plain(1, bob, "ipfs://a", contract, "TRANSFER", 20))
    );
    assert_eq!(cards.owner_of(1), Ok(bob));
    assert_eq!(cards.token_uri(1), Ok("ipfs://a".to_string()));
}

#[test]
fn transfer_needs_the_owner() {
    let (mut cards, _contract, admin, alice, bob) = ready_contract();
    cards.mint(&admin, &[1u8; 32], alice, "a".to_string(), None, 5).unwrap();
    // the caller is not the sender
    assert_eq!(cards.transfer(&bob, alice, bob, 1, 20), Err(ContractError::Unauthorized));
    // the sender is not the owner
    assert_eq!(cards.transfer(&bob, bob, bob, 1, 20), Err(ContractError::Unauthorized));
    assert_eq!(cards.owner_of(1), Ok(alice));
}

#[test]
fn transfer_of_a_missing_token_is_refused() {
    let (mut cards, _contract, admin, alice, bob) = ready_contract();
    cards.mint(&admin, &[1u8; 32], alice, "a".to_string(), None, 5).unwrap();
    assert_eq!(cards.transfer(&alice, alice, bob, 0, 20), Err(ContractError::TokenNotFound));
    assert_eq!(cards.transfer(&alice, alice, bob, 2, 20), Err(ContractError::TokenNotFound));
    assert_eq!(cards.owner_of(0), Err(ContractError::TokenNotFound));
    assert_eq!(cards.token_uri(2), Err(ContractError::TokenNotFound));
}

#[test]
fn tokens_of_owner_lists_in_ascending_order() {
    let (mut cards, _contract, admin, alice, bob) = ready_contract();
    cards.mint(&admin, &[1u8; 32], alice, "a".to_string(), None, 5).unwrap();
    cards.mint(&admin, &[2u8; 32], bob, "b".to_string(), None, 5).unwrap();
    cards.mint(&admin, &[3u8; 32], alice, "c".to_string(), None, 5).unwrap();
    assert_eq!(cards.tokens_of_owner(&alice), vec![1, 3]);
    assert_eq!(cards.tokens_of_owner(&bob), vec![2]);
    assert_eq!(cards.tokens_of_owner(&admin), Vec::<u64>::new());
    cards.transfer(&alice, alice, bob, 1, 6).unwrap();
    assert_eq!(cards.tokens_of_owner(&alice), vec![3]);
    assert_eq!(cards.tokens_of_owner(&bob), vec![1, 2]);
}

#[test]
fn nft_mint_event_starts_unstamped() {
    let (contract, _admin, alice, _bob) = addresses();
    let event = create_nft_mint_event(
        U256::from_u32(4),
        alice,
        "ipfs://x".to_string(),
        contract,
        "PLAYER_CARD".to_string(),
        Some(250),
    );
    assert_eq!(
        event,
        NFTMintEvent {
            token_id: U256 { hi: 0, lo: 4 },
            to: alice,
            token_uri: "ipfs://x".to_string(),
            nft_contract: contract,
            timestamp: 0,
            mint_type: "PLAYER_CARD".to_string(),
            metadata: vec![],
            price: Some(250),
        }
    );
    assert_eq!(NFT_MINT_EVENT, "NFT_MINT");
}

#[test]
fn addresses_differ_by_kind_and_by_payload() {
    let account = Address::account([7; 32]);
    let contract = Address::contract([7; 32]);
    let mut bytes = [7u8; 32];
    bytes[16] = 8;
    assert!(account.same_as(&Address::account([7; 32])));
    assert!(!account.same_as(&contract));
    assert!(!account.same_as(&Address::account(bytes)));
    assert!(contract.same_as(&Address::contract([7; 32])));
}

#[test]
fn u256_holds_small_numbers_in_its_low_half() {
    assert_eq!(U256::from_u32(7), U256 { hi: 0, lo: 7 });
    assert_eq!(U256::from_u128(u128::MAX), U256 { hi: 0, lo: u128::MAX });
    assert_ne!(U256::from_u32(7), U256 { hi: 1, lo: 7 });
}

#[test]
fn tokens_among_numbers_from_one() {
    let (_contract, admin, alice, bob) = addresses();
    let owners = vec![alice, bob, alice, alice];
    assert_eq!(tokens_among(&owners, &alice), vec![1, 3, 4]);
    assert_eq!(tokens_among(&owners, &bob), vec![2]);
    assert_eq!(tokens_among(&owners, &admin), Vec::<u64>::new());
    assert_eq!(tokens_among(&Vec::new(), &alice), Vec::<u64>::new());
}
