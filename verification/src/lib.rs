//! A replay-protection ledger for contracts whose privileged operations must run at
//! most once, and the contracts that consult it.

pub mod address;
pub mod arith;
pub mod betting;
pub mod error;
pub mod events;
pub mod fixed_term;
pub mod guard;
pub mod laws;
pub mod model;
pub mod player_card;
pub mod profitability_tracker;
pub mod record;
pub mod settlement;
pub mod staking;
pub mod store;
pub mod table;
pub mod text;
pub mod tiered_staking;
pub mod treasury_allocation;
pub mod two_key;
pub mod u256;
