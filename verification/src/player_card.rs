//! Player cards: tokens numbered from one, minted by the administrator, each mint
//! operation running once.

use vstd::prelude::*;

use crate::address::{check_party, is_party, Address};
use crate::error::ContractError;
use crate::events::{NFTMintEvent, NFTMintEventView};
use crate::guard::ReplayGuard;
use crate::model::{after_claim, after_cleanup, claim_outcome, claimed, cleanup_outcome, Records};
use crate::record::{OperationKey, Slot};
use crate::store::RecordStore;
use crate::u256::U256;

verus! {

/// The scope of mint operations.
pub const MINT_SCOPE: &'static str = "nft_mint";

/// The slot of the mint operation `operation_hash`.
pub open spec fn mint_slot(operation_hash: &OperationKey) -> Slot {
    ("nft_mint"@, operation_hash@)
}

/// One token: who owns it and where its metadata lives.
#[derive(Debug)]
pub struct Card {
    pub owner: Address,
    pub token_uri: String,
}

/// What can be read of a token.
pub struct CardView {
    pub owner: Address,
    pub token_uri: Seq<char>,
}

impl View for Card {
    type V = CardView;

    open spec fn view(&self) -> CardView {
        CardView { owner: self.owner, token_uri: self.token_uri@ }
    }
}

/// What can be read of a sequence of tokens.
pub open spec fn cards_view(cards: Seq<Card>) -> Seq<CardView> {
    Seq::new(cards.len(), |i: int| cards[i]@)
}

/// The owners of a sequence of tokens, in the order of the tokens.
pub open spec fn owners_of(cards: Seq<CardView>) -> Seq<Address> {
    Seq::new(cards.len(), |i: int| cards[i].owner)
}

/// The numbers of the tokens that `owner` holds, in ascending order, where `owners`
/// lists the owner of token one, of token two, and so on.
pub open spec fn tokens_held(owners: Seq<Address>, owner: Address) -> Seq<u64>
    decreases owners.len(),
{
    if owners.len() == 0 {
        Seq::empty()
    } else if owners.last() == owner {
        tokens_held(owners.drop_last(), owner).push(owners.len() as u64)
    } else {
        tokens_held(owners.drop_last(), owner)
    }
}

/// The numbers of the tokens that `owner` holds, in ascending order, where `owners`
/// lists the owner of token one, of token two, and so on.
pub fn tokens_among(owners: &Vec<Address>, owner: &Address) -> (tokens: Vec<u64>)
    ensures
        tokens@ == tokens_held(owners@, *owner),
{
    let mut tokens: Vec<u64> = Vec::new();
    let mut i: usize = 0;
    while i < owners.len()
        invariant
            i <= owners@.len(),
            tokens@ == tokens_held(owners@.take(i as int), *owner),
        decreases owners@.len() - i,
    {
        proof {
            assert(owners@.take(i + 1).drop_last() == owners@.take(i as int));
        }
        if owners[i].same_as(owner) {
            tokens.push((i + 1) as u64);
        }
        i += 1;
    }
    proof {
        assert(owners@.take(i as int) == owners@);
    }
    tokens
}

/// The identifier that token events carry: the low 32 bits of the token's number.
pub open spec fn event_token_id(token_id: u64) -> U256 {
    U256 { hi: 0, lo: (token_id as u32) as u128 }
}

/// What a successful mint gives back: the number of the new token and the event to
/// publish.
#[derive(Debug)]
pub struct Minted {
    pub token_id: u64,
    pub event: NFTMintEvent,
}

/// What can be read of a player card contract.
pub struct PlayerCardState {
    /// The address of the contract itself.
    pub contract: Address,
    /// The administrator, once set.
    pub admin: Option<Address>,
    /// The tokens, in the order of their numbers.
    pub cards: Seq<CardView>,
    /// The ledger of mint operations.
    pub records: Records,
}

impl PlayerCardState {
    /// The token numbered `token_id` exists.
    pub open spec fn has_token(self, token_id: u64) -> bool {
        1 <= token_id <= self.cards.len()
    }

    /// The token numbered `token_id`.
    pub open spec fn token(self, token_id: u64) -> CardView {
        self.cards[token_id - 1]
    }

    /// The event of this contract for token `token_id` going to `to`.
    pub open spec fn event(
        self,
        token_id: u64,
        to: Address,
        token_uri: Seq<char>,
        mint_type: Seq<char>,
        now: u64,
    ) -> NFTMintEventView {
        NFTMintEventView {
            token_id: event_token_id(token_id),
            to,
            token_uri,
            nft_contract: self.contract,
            timestamp: now,
            mint_type,
            metadata: Seq::empty(),
            price: None,
        }
    }

    /// Whether a mint goes through, and if not, why not. The contract must be set up,
    /// the caller must be the administrator, the operation must be claimable, and the
    /// number of the new token must fit.
    pub open spec fn mint_check(
        self,
        caller: Address,
        operation_hash: &OperationKey,
        ttl_seconds: Option<u64>,
        now: u64,
    ) -> Result<(), ContractError> {
        if self.admin is None {
            Err(ContractError::NotInitialized)
        } else if !is_party(self.admin, caller) {
            Err(ContractError::Unauthorized)
        } else if claim_outcome(self.records, mint_slot(operation_hash), ttl_seconds, now) is Err {
            claim_outcome(self.records, mint_slot(operation_hash), ttl_seconds, now)
        } else if self.cards.len() >= u64::MAX {
            Err(ContractError::ArithmeticOverflow)
        } else {
            Ok(())
        }
    }

    /// Whether a transfer goes through, and if not, why not. The caller must be the
    /// sender, the token must exist, and the sender must own it.
    pub open spec fn transfer_check(self, caller: Address, from: Address, token_id: u64) -> Result<
        (),
        ContractError,
    > {
        if caller != from {
            Err(ContractError::Unauthorized)
        } else if !self.has_token(token_id) {
            Err(ContractError::TokenNotFound)
        } else if self.token(token_id).owner != from {
            Err(ContractError::Unauthorized)
        } else {
            Ok(())
        }
    }
}

/// The player card contract, keeping its ledger of mint operations in a store of the
/// caller's choice.
pub struct PlayerCardContract<S: RecordStore> {
    contract: Address,
    admin: Option<Address>,
    cards: Vec<Card>,
    mints: ReplayGuard<S>,
}

impl<S: RecordStore> View for PlayerCardContract<S> {
    type V = PlayerCardState;

    closed spec fn view(&self) -> PlayerCardState {
        PlayerCardState {
            contract: self.contract,
            admin: self.admin,
            cards: cards_view(self.cards@),
            records: self.mints@,
        }
    }
}

/// A token event with no metadata and no price.
fn plain_event(
    token_id: u64,
    to: Address,
    token_uri: String,
    nft_contract: Address,
    mint_type: &str,
    now: u64,
) -> (event: NFTMintEvent)
    ensures
        event@ == (NFTMintEventView {
            token_id: event_token_id(token_id),
            to,
            token_uri: token_uri@,
            nft_contract,
            timestamp: now,
            mint_type: mint_type@,
            metadata: Seq::empty(),
            price: None,
        }),
{
    let event = NFTMintEvent {
        token_id: U256::from_u32(#[verifier::truncate] (token_id as u32)),
        to,
        token_uri,
        nft_contract,
        timestamp: now,
        mint_type: mint_type.to_owned(),
        metadata: Vec::new(),
        price: None,
    };
    assert(event@.metadata =~= Seq::empty());
    event
}

impl<S: RecordStore> PlayerCardContract<S> {
    /// A contract at address `contract` with no administrator and no token, over the
    /// mint operations on record in `store`.
    pub fn new(contract: Address, store: S) -> (made: Self)
        ensures
            made@ == (PlayerCardState {
                contract,
                admin: None,
                cards: Seq::empty(),
                records: store.records(),
            }),
    {
        let made = PlayerCardContract {
            contract,
            admin: None,
            cards: Vec::new(),
            mints: ReplayGuard::new(store),
        };
        assert(cards_view(made.cards@) =~= Seq::empty());
        made
    }

    /// Sets the contract up with `admin` as its administrator, once.
    pub fn initialize(&mut self, admin: Address, now: u64) -> (outcome: Result<
        NFTMintEvent,
        ContractError,
    >)
        ensures
            old(self)@.admin is Some ==> outcome == Err::<NFTMintEvent, ContractError>(
                ContractError::AlreadyInitialized,
            ) && final(self)@ == old(self)@,
            old(self)@.admin is None ==> outcome is Ok && outcome->Ok_0@ == old(self)@.event(
                0,
                admin,
                "contract_initialized"@,
                "INIT"@,
                now,
            ) && final(self)@ == (PlayerCardState { admin: Some(admin), ..old(self)@ }),
    {
        if self.admin.is_some() {
            return Err(ContractError::AlreadyInitialized);
        }
        self.admin = Some(admin);
        Ok(plain_event(0, admin, "contract_initialized".to_owned(), self.contract, "INIT", now))
    }

    /// Mints a token for `to` at time `now`.
    ///
    /// The contract must be set up, the caller must be the administrator and the
    /// operation must be claimable on the ledger. The operation is then claimed, the
    /// token is given the next number, and the number and the event to publish are
    /// returned. A refused mint changes nothing.
    pub fn mint(
        &mut self,
        caller: &Address,
        operation_hash: &OperationKey,
        to: Address,
        token_uri: String,
        ttl_seconds: Option<u64>,
        now: u64,
    ) -> (outcome: Result<Minted, ContractError>)
        ensures
            outcome is Ok <==> old(self)@.mint_check(*caller, operation_hash, ttl_seconds, now)
                is Ok,
            outcome matches Err(refusal) ==> old(self)@.mint_check(
                *caller,
                operation_hash,
                ttl_seconds,
                now,
            ) == Err::<(), ContractError>(refusal) && final(self)@ == old(self)@,
            outcome matches Ok(minted) ==> {
                &&& minted.token_id == old(self)@.cards.len() + 1
                &&& minted.event@ == old(self)@.event(
                    minted.token_id,
                    to,
                    token_uri@,
                    "PLAYER_CARD"@,
                    now,
                )
                &&& final(self)@ == (PlayerCardState {
                    cards: old(self)@.cards.push(CardView { owner: to, token_uri: token_uri@ }),
                    records: after_claim(
                        old(self)@.records,
                        mint_slot(operation_hash),
                        ttl_seconds,
                        now,
                    ),
                    ..old(self)@
                })
            },
    {
        if self.admin.is_none() {
            return Err(ContractError::NotInitialized);
        }
        if !check_party(&self.admin, caller) {
            return Err(ContractError::Unauthorized);
        }
        match self.mints.check_claim(MINT_SCOPE, operation_hash, ttl_seconds, now) {
            Ok(_) => {},
            Err(refusal) => {
                return Err(refusal);
            },
        }
        let count = self.cards.len() as u64;
        if count == u64::MAX {
            return Err(ContractError::ArithmeticOverflow);
        }
        let token_id = count + 1;
        match self.mints.claim(MINT_SCOPE, operation_hash, ttl_seconds, now) {
            Ok(_) => {},
            Err(refusal) => {
                return Err(refusal);
            },
        }
        let event = plain_event(token_id, to, token_uri.clone(), self.contract, "PLAYER_CARD", now);
        self.cards.push(Card { owner: to, token_uri });
        assert(cards_view(self.cards@) =~= cards_view(old(self).cards@).push(
            CardView { owner: to, token_uri: token_uri@ },
        ));
        Ok(Minted { token_id, event })
    }

    /// Whether the mint operation `operation_hash` is on record, expired or not.
    pub fn is_mint_operation_executed(&self, operation_hash: &OperationKey) -> (executed: bool)
        ensures
            executed == claimed(self@.records, mint_slot(operation_hash)),
    {
        self.mints.is_claimed(MINT_SCOPE, operation_hash)
    }

    /// Removes the record of the mint operation `operation_hash` if it has expired at
    /// time `now`, and says whether it did. Tokens stay as they are.
    pub fn cleanup_mint_operation(&mut self, operation_hash: &OperationKey, now: u64) -> (removed:
        bool)
        ensures
            removed == cleanup_outcome(old(self)@.records, mint_slot(operation_hash), now),
            final(self)@ == (PlayerCardState {
                records: after_cleanup(old(self)@.records, mint_slot(operation_hash), now),
                ..old(self)@
            }),
    {
        self.mints.cleanup(MINT_SCOPE, operation_hash, now)
    }

    /// Hands the token numbered `token_id` from `from` to `to` at time `now`, and
    /// returns the event to publish. The caller must be the sender and the sender must
    /// own the token; a refused transfer changes nothing.
    pub fn transfer(&mut self, caller: &Address, from: Address, to: Address, token_id: u64, now: u64) -> (outcome:
        Result<NFTMintEvent, ContractError>)
        ensures
            outcome is Ok <==> old(self)@.transfer_check(*caller, from, token_id) is Ok,
            outcome matches Err(refusal) ==> old(self)@.transfer_check(*caller, from, token_id)
                == Err::<(), ContractError>(refusal) && final(self)@ == old(self)@,
            outcome matches Ok(event) ==> {
                &&& event@ == old(self)@.event(
                    token_id,
                    to,
                    old(self)@.token(token_id).token_uri,
                    "TRANSFER"@,
                    now,
                )
                &&& final(self)@ == (PlayerCardState {
                    cards: old(self)@.cards.update(
                        token_id - 1,
                        CardView { owner: to, token_uri: old(self)@.token(token_id).token_uri },
                    ),
                    ..old(self)@
                })
            },
    {
        if !caller.same_as(&from) {
            return Err(ContractError::Unauthorized);
        }
        if token_id < 1 || token_id > self.cards.len() as u64 {
            return Err(ContractError::TokenNotFound);
        }
        let at = (token_id - 1) as usize;
        if !self.cards[at].owner.same_as(&from) {
            return Err(ContractError::Unauthorized);
        }
        let token_uri = self.cards[at].token_uri.clone();
        let event = plain_event(token_id, to, token_uri.clone(), self.contract, "TRANSFER", now);
        self.cards.set(at, Card { owner: to, token_uri });
        assert(cards_view(self.cards@) =~= cards_view(old(self).cards@).update(
            token_id - 1,
            CardView { owner: to, token_uri: old(self)@.token(token_id).token_uri },
        ));
        Ok(event)
    }

    /// The owner of the token numbered `token_id`.
    pub fn owner_of(&self, token_id: u64) -> (outcome: Result<Address, ContractError>)
        ensures
            self@.has_token(token_id) ==> outcome == Ok::<Address, ContractError>(
                self@.token(token_id).owner,
            ),
            !self@.has_token(token_id) ==> outcome == Err::<Address, ContractError>(
                ContractError::TokenNotFound,
            ),
    {
        if token_id < 1 || token_id > self.cards.len() as u64 {
            return Err(ContractError::TokenNotFound);
        }
        Ok(self.cards[(token_id - 1) as usize].owner)
    }

    /// Where the metadata of the token numbered `token_id` lives.
    pub fn token_uri(&self, token_id: u64) -> (outcome: Result<String, ContractError>)
        ensures
            self@.has_token(token_id) ==> outcome is Ok && outcome->Ok_0@ == self@.token(
                token_id,
            ).token_uri,
            !self@.has_token(token_id) ==> outcome == Err::<String, ContractError>(
                ContractError::TokenNotFound,
            ),
    {
        if token_id < 1 || token_id > self.cards.len() as u64 {
            return Err(ContractError::TokenNotFound);
        }
        Ok(self.cards[(token_id - 1) as usize].token_uri.clone())
    }

    /// The number of tokens minted.
    pub fn total_supply(&self) -> (supply: u64)
        ensures
            supply == self@.cards.len(),
    {
        self.cards.len() as u64
    }

    /// The numbers of the tokens that `owner` holds, in ascending order.
    pub fn tokens_of_owner(&self, owner: &Address) -> (tokens: Vec<u64>)
        ensures
            tokens@ == tokens_held(owners_of(self@.cards), *owner),
    {
        let mut owners: Vec<Address> = Vec::new();
        let mut i: usize = 0;
        while i < self.cards.len()
            invariant
                i <= self.cards@.len(),
                owners@ == owners_of(cards_view(self.cards@)).take(i as int),
            decreases self.cards@.len() - i,
        {
            owners.push(self.cards[i].owner);
            i += 1;
        }
        proof {
            assert(owners@ == owners_of(cards_view(self.cards@)));
        }
        tokens_among(&owners, owner)
    }
}

} // verus!
