//! What the contracts publish.

use vstd::prelude::*;

use crate::address::Address;
use crate::record::OperationKey;
use crate::u256::U256;

verus! {

/// A spin was executed.
#[derive(Clone, Copy, Debug, PartialEq, Eq)]
pub struct SpinExecutedEvent {
    pub spin_id: OperationKey,
    pub executor: Address,
    pub timestamp: u64,
}

/// A bet was settled.
#[derive(Clone, Copy, Debug, PartialEq, Eq)]
pub struct SettlementExecutedEvent {
    pub operation_hash: OperationKey,
    pub bet_id: U256,
    pub winner: Option<Address>,
    pub payout: i128,
    pub timestamp: u64,
}

/// A token was minted, or changed hands, or its contract was set up.
#[derive(Clone, Debug, PartialEq, Eq)]
pub struct NFTMintEvent {
    pub token_id: U256,
    pub to: Address,
    pub token_uri: String,
    pub nft_contract: Address,
    pub timestamp: u64,
    pub mint_type: String,
    pub metadata: Vec<(String, String)>,
    pub price: Option<i128>,
}

/// A replayed operation was turned away.
#[derive(Clone, Debug, PartialEq, Eq)]
pub struct ReplayRejectedEvent {
    pub operation_hash: OperationKey,
    pub scope: String,
    pub timestamp: u64,
}

/// The topic under which token events are published.
pub const NFT_MINT_EVENT: &'static str = "NFT_MINT";

/// What can be read of a token event.
pub struct NFTMintEventView {
    pub token_id: U256,
    pub to: Address,
    pub token_uri: Seq<char>,
    pub nft_contract: Address,
    pub timestamp: u64,
    pub mint_type: Seq<char>,
    pub metadata: Seq<(Seq<char>, Seq<char>)>,
    pub price: Option<i128>,
}

impl View for NFTMintEvent {
    type V = NFTMintEventView;

    open spec fn view(&self) -> NFTMintEventView {
        NFTMintEventView {
            token_id: self.token_id,
            to: self.to,
            token_uri: self.token_uri@,
            nft_contract: self.nft_contract,
            timestamp: self.timestamp,
            mint_type: self.mint_type@,
            metadata: Seq::new(
                self.metadata@.len(),
                |i: int| (self.metadata@[i].0@, self.metadata@[i].1@),
            ),
            price: self.price,
        }
    }
}

/// A token event with no metadata and a timestamp of zero, for the caller to stamp.
pub fn create_nft_mint_event(
    token_id: U256,
    to: Address,
    token_uri: String,
    nft_contract: Address,
    mint_type: String,
    price: Option<i128>,
) -> (event: NFTMintEvent)
    ensures
        event@ == (NFTMintEventView {
            token_id,
            to,
            token_uri: token_uri@,
            nft_contract,
            timestamp: 0,
            mint_type: mint_type@,
            metadata: Seq::empty(),
            price,
        }),
{
    let event = NFTMintEvent {
        token_id,
        to,
        token_uri,
        nft_contract,
        timestamp: 0,
        mint_type,
        metadata: Vec::new(),
        price,
    };
    assert(event@.metadata =~= Seq::empty());
    event
}

} // verus!
