//! Splitting a reserve over four pools by percentage.

use vstd::prelude::*;

use crate::address::{check_party, is_party, Address};
use crate::arith::{checked_percent, percent_computable, percent_of};
use crate::error::ContractError;
use crate::text::same_text;

verus! {

/// The balance of one pool.
#[derive(Clone, Copy, Debug, PartialEq, Eq)]
pub struct Pool {
    pub balance: i128,
}

/// The percentage of the reserve that each pool receives.
#[derive(Clone, Copy, Debug, PartialEq, Eq)]
pub struct AllocationRatios {
    pub betting_pool: u32,
    pub spin_rewards: u32,
    pub staking_rewards: u32,
    pub emergency_reserve: u32,
}

/// The four balances set by one rebalancing, as one value to publish.
#[derive(Clone, Copy, Debug, PartialEq, Eq)]
pub struct Reallocation {
    pub betting_pool: i128,
    pub spin_rewards: i128,
    pub staking_rewards: i128,
    pub emergency_reserve: i128,
}

/// The ratios in force until the administrator sets others.
pub open spec fn default_ratios() -> AllocationRatios {
    AllocationRatios { betting_pool: 40, spin_rewards: 30, staking_rewards: 20, emergency_reserve: 10 }
}

impl AllocationRatios {
    /// The four percentages add up to one hundred.
    pub open spec fn complete(self) -> bool {
        self.betting_pool + self.spin_rewards + self.staking_rewards + self.emergency_reserve
            == 100
    }

    /// Whether the four percentages add up to one hundred.
    pub fn is_complete(&self) -> (complete: bool)
        ensures
            complete == self.complete(),
    {
        let total: u64 = self.betting_pool as u64 + self.spin_rewards as u64
            + self.staking_rewards as u64 + self.emergency_reserve as u64;
        total == 100
    }
}

/// The state of the treasury.
#[derive(Debug)]
pub struct TreasuryAllocation {
    admin: Option<Address>,
    total_reserve: i128,
    betting_pool: Pool,
    spin_rewards: Pool,
    staking_rewards: Pool,
    emergency_reserve: Pool,
    ratios: AllocationRatios,
}

/// What can be read of a treasury.
pub struct TreasuryState {
    pub admin: Option<Address>,
    pub total_reserve: i128,
    pub betting_pool: i128,
    pub spin_rewards: i128,
    pub staking_rewards: i128,
    pub emergency_reserve: i128,
    pub ratios: AllocationRatios,
}

impl TreasuryState {
    /// Every share of the reserve under the ratios in force can be computed.
    pub open spec fn computable(self) -> bool {
        &&& percent_computable(self.total_reserve, self.ratios.betting_pool)
        &&& percent_computable(self.total_reserve, self.ratios.spin_rewards)
        &&& percent_computable(self.total_reserve, self.ratios.staking_rewards)
        &&& percent_computable(self.total_reserve, self.ratios.emergency_reserve)
    }

    /// The balances that a rebalancing sets.
    pub open spec fn shares(self) -> Reallocation {
        Reallocation {
            betting_pool: percent_of(self.total_reserve, self.ratios.betting_pool) as i128,
            spin_rewards: percent_of(self.total_reserve, self.ratios.spin_rewards) as i128,
            staking_rewards: percent_of(self.total_reserve, self.ratios.staking_rewards) as i128,
            emergency_reserve: percent_of(self.total_reserve, self.ratios.emergency_reserve) as i128,
        }
    }

    /// How a rebalancing asked for by `sender` ends.
    pub open spec fn rebalance_outcome(self, sender: Address) -> Result<Reallocation, ContractError> {
        if self.admin is None {
            Err(ContractError::NotInitialized)
        } else if !is_party(self.admin, sender) {
            Err(ContractError::Unauthorized)
        } else if !self.computable() {
            Err(ContractError::ArithmeticOverflow)
        } else {
            Ok(self.shares())
        }
    }

    /// How a change of ratios asked for by `sender` ends.
    pub open spec fn update_outcome(self, sender: Address, ratios: AllocationRatios) -> Result<
        (),
        ContractError,
    > {
        if self.admin is None {
            Err(ContractError::NotInitialized)
        } else if !is_party(self.admin, sender) {
            Err(ContractError::Unauthorized)
        } else if !ratios.complete() {
            Err(ContractError::InvalidArgument)
        } else {
            Ok(())
        }
    }

    /// What a reading of the pool named `pool` gives.
    pub open spec fn balance_outcome(self, pool: Seq<char>) -> Result<i128, ContractError> {
        if self.admin is None {
            Err(ContractError::NotInitialized)
        } else if pool == "betting_pool"@ {
            Ok(self.betting_pool)
        } else if pool == "spin_rewards"@ {
            Ok(self.spin_rewards)
        } else if pool == "staking_rewards"@ {
            Ok(self.staking_rewards)
        } else if pool == "emergency_reserve"@ {
            Ok(self.emergency_reserve)
        } else {
            Err(ContractError::InvalidArgument)
        }
    }
}

impl View for TreasuryAllocation {
    type V = TreasuryState;

    closed spec fn view(&self) -> TreasuryState {
        TreasuryState {
            admin: self.admin,
            total_reserve: self.total_reserve,
            betting_pool: self.betting_pool.balance,
            spin_rewards: self.spin_rewards.balance,
            staking_rewards: self.staking_rewards.balance,
            emergency_reserve: self.emergency_reserve.balance,
            ratios: self.ratios,
        }
    }
}

impl TreasuryAllocation {
    /// A treasury that has not been set up: no administrator, nothing in reserve.
    pub fn new() -> (treasury: Self)
        ensures
            treasury@ == (TreasuryState {
                admin: None,
                total_reserve: 0,
                betting_pool: 0,
                spin_rewards: 0,
                staking_rewards: 0,
                emergency_reserve: 0,
                ratios: default_ratios(),
            }),
    {
        TreasuryAllocation {
            admin: None,
            total_reserve: 0,
            betting_pool: Pool { balance: 0 },
            spin_rewards: Pool { balance: 0 },
            staking_rewards: Pool { balance: 0 },
            emergency_reserve: Pool { balance: 0 },
            ratios: AllocationRatios {
                betting_pool: 40,
                spin_rewards: 30,
                staking_rewards: 20,
                emergency_reserve: 10,
            },
        }
    }

    /// Sets the treasury up: `admin` administers it, `total_reserve` is to be split,
    /// every pool is empty and the default ratios are in force.
    pub fn init(&mut self, admin: Address, total_reserve: i128)
        ensures
            final(self)@ == (TreasuryState {
                admin: Some(admin),
                total_reserve,
                betting_pool: 0,
                spin_rewards: 0,
                staking_rewards: 0,
                emergency_reserve: 0,
                ratios: default_ratios(),
            }),
    {
        self.admin = Some(admin);
        self.total_reserve = total_reserve;
        self.betting_pool = Pool { balance: 0 };
        self.spin_rewards = Pool { balance: 0 };
        self.staking_rewards = Pool { balance: 0 };
        self.emergency_reserve = Pool { balance: 0 };
        self.ratios = AllocationRatios {
            betting_pool: 40,
            spin_rewards: 30,
            staking_rewards: 20,
            emergency_reserve: 10,
        };
    }

    /// Puts `ratios` in force. Only the administrator may, and only ratios that add up
    /// to one hundred; a refused change leaves the treasury as it was.
    pub fn update_ratios(&mut self, sender: &Address, ratios: AllocationRatios) -> (outcome: Result<
        (),
        ContractError,
    >)
        ensures
            outcome == old(self)@.update_outcome(*sender, ratios),
            outcome is Ok ==> final(self)@ == (TreasuryState { ratios, ..old(self)@ }),
            outcome is Err ==> final(self)@ == old(self)@,
    {
        if self.admin.is_none() {
            return Err(ContractError::NotInitialized);
        }
        if !check_party(&self.admin, sender) {
            return Err(ContractError::Unauthorized);
        }
        if !ratios.is_complete() {
            return Err(ContractError::InvalidArgument);
        }
        self.ratios = ratios;
        Ok(())
    }

    /// Sets each pool to its share of the reserve under the ratios in force, and
    /// returns the four balances. Only the administrator may; a refused rebalancing
    /// leaves the treasury as it was.
    pub fn rebalance(&mut self, sender: &Address) -> (outcome: Result<Reallocation, ContractError>)
        ensures
            outcome == old(self)@.rebalance_outcome(*sender),
            outcome matches Ok(set) ==> final(self)@ == (TreasuryState {
                betting_pool: set.betting_pool,
                spin_rewards: set.spin_rewards,
                staking_rewards: set.staking_rewards,
                emergency_reserve: set.emergency_reserve,
                ..old(self)@
            }),
            outcome is Err ==> final(self)@ == old(self)@,
    {
        if self.admin.is_none() {
            return Err(ContractError::NotInitialized);
        }
        if !check_party(&self.admin, sender) {
            return Err(ContractError::Unauthorized);
        }
        let betting = checked_percent(self.total_reserve, self.ratios.betting_pool);
        let spin = checked_percent(self.total_reserve, self.ratios.spin_rewards);
        let staking = checked_percent(self.total_reserve, self.ratios.staking_rewards);
        let emergency = checked_percent(self.total_reserve, self.ratios.emergency_reserve);
        match (betting, spin, staking, emergency) {
            (Some(betting_pool), Some(spin_rewards), Some(staking_rewards), Some(emergency_reserve)) => {
                self.betting_pool = Pool { balance: betting_pool };
                self.spin_rewards = Pool { balance: spin_rewards };
                self.staking_rewards = Pool { balance: staking_rewards };
                self.emergency_reserve = Pool { balance: emergency_reserve };
                Ok(Reallocation { betting_pool, spin_rewards, staking_rewards, emergency_reserve })
            },
            _ => Err(ContractError::ArithmeticOverflow),
        }
    }

    /// The balance of the pool named `pool`: one of `betting_pool`, `spin_rewards`,
    /// `staking_rewards` and `emergency_reserve`.
    pub fn get_pool_balance(&self, pool: &str) -> (outcome: Result<i128, ContractError>)
        ensures
            outcome == self@.balance_outcome(pool@),
    {
        if self.admin.is_none() {
            Err(ContractError::NotInitialized)
        } else if same_text(pool, "betting_pool") {
            Ok(self.betting_pool.balance)
        } else if same_text(pool, "spin_rewards") {
            Ok(self.spin_rewards.balance)
        } else if same_text(pool, "staking_rewards") {
            Ok(self.staking_rewards.balance)
        } else if same_text(pool, "emergency_reserve") {
            Ok(self.emergency_reserve.balance)
        } else {
            Err(ContractError::InvalidArgument)
        }
    }
}

} // verus!
