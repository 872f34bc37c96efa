//! Staking with a cooldown: any number of stakes per user, each withdrawable once its
//! cooldown has passed, and a running count of the time each user has been staked.

use vstd::prelude::*;

use crate::address::Address;
use crate::error::ContractError;
use crate::table::{Table, TableKey};
use crate::u256::U256;

verus! {

/// What the administrator has configured.
#[derive(Clone, Copy, Debug, PartialEq, Eq)]
pub struct StakingConfig {
    /// Who may change the configuration.
    pub admin: Address,
    /// The token that is staked.
    pub staking_token: Address,
    /// The least amount that one stake may hold.
    pub min_stake: i128,
    /// The seconds that a stake must rest before it can be withdrawn.
    pub cooldown_period: u64,
}

/// One stake: how much, and since when.
#[derive(Clone, Copy, Debug, PartialEq, Eq)]
pub struct StakeData {
    pub amount: i128,
    pub timestamp: u64,
}

/// The name of one stake: its owner and its number among the owner's stakes.
#[derive(Clone, Copy, Debug, PartialEq, Eq)]
pub struct StakeKey {
    pub user: Address,
    pub stake_id: U256,
}

impl View for StakeKey {
    type V = StakeKey;

    open spec fn view(&self) -> StakeKey {
        *self
    }
}

impl TableKey for StakeKey {
    fn same_as(&self, other: &Self) -> (same: bool) {
        self.user.same_as(&other.user) && self.stake_id.same_as(&other.stake_id)
    }
}

/// A movement of tokens that the caller is to carry out.
#[derive(Clone, Copy, Debug, PartialEq, Eq)]
pub struct TokenTransfer {
    pub token: Address,
    pub from: Address,
    pub to: Address,
    pub amount: i128,
}

/// What is published when a stake is made.
#[derive(Clone, Copy, Debug, PartialEq, Eq)]
pub struct StakeEvent {
    pub user: Address,
    pub amount: i128,
    pub token: Address,
    pub contract: Address,
    pub stake_id: U256,
    pub timestamp: u64,
}

/// What is published when a stake is withdrawn.
#[derive(Clone, Copy, Debug, PartialEq, Eq)]
pub struct UnstakeEvent {
    pub user: Address,
    pub amount: i128,
    pub token: Address,
    pub contract: Address,
    pub stake_id: U256,
    pub reward: i128,
    pub timestamp: u64,
}

/// What a successful stake asks of its caller.
#[derive(Clone, Copy, Debug, PartialEq, Eq)]
pub struct Staked {
    pub stake_id: U256,
    pub transfer: TokenTransfer,
    pub event: StakeEvent,
}

/// What a successful withdrawal asks of its caller.
#[derive(Clone, Copy, Debug, PartialEq, Eq)]
pub struct Unstaked {
    pub transfer: TokenTransfer,
    pub event: UnstakeEvent,
}

impl StakeData {
    /// The cooldown of the stake is still running at time `now`.
    pub open spec fn resting_at(self, cooldown_period: u64, now: u64) -> bool {
        now < self.timestamp + cooldown_period
    }

    /// Whether the cooldown of the stake is still running at time `now`.
    pub fn is_resting(&self, cooldown_period: u64, now: u64) -> (resting: bool)
        ensures
            resting == self.resting_at(cooldown_period, now),
    {
        match self.timestamp.checked_add(cooldown_period) {
            Some(ready_at) => now < ready_at,
            None => true,
        }
    }
}

/// What a change of a user's total does to the count of the user's active time.
#[derive(Clone, Copy, Debug, PartialEq, Eq)]
pub enum ActivityChange {
    /// Nothing: the user was and stays active, or was and stays inactive.
    Unchanged,
    /// The user becomes active: a period of activity begins.
    Began { since: u64 },
    /// The user stops being active: the period ends and the count grows to `counted`.
    Ended { counted: u64 },
}

/// What a change of a user's total from `old_total` to `new_total` at time `now` does
/// to the count of active time, given since when the user has been active, if at all,
/// and the seconds counted so far. The end of a period cannot be counted where the
/// period would have begun in the future or the count would leave `u64`.
pub open spec fn activity_change_of(
    active_since: Option<u64>,
    counted: u64,
    old_total: i128,
    new_total: i128,
    now: u64,
) -> Result<ActivityChange, ContractError> {
    if old_total <= 0 && new_total > 0 {
        Ok(ActivityChange::Began { since: now })
    } else if old_total > 0 && new_total <= 0 && active_since is Some {
        if active_since->Some_0 > now || counted + (now - active_since->Some_0) > u64::MAX {
            Err(ContractError::ArithmeticOverflow)
        } else {
            Ok(ActivityChange::Ended { counted: (counted + (now - active_since->Some_0)) as u64 })
        }
    } else {
        Ok(ActivityChange::Unchanged)
    }
}

/// Decides what a change of a user's total does to the count of active time.
pub fn decide_activity_change(
    active_since: Option<u64>,
    counted: u64,
    old_total: i128,
    new_total: i128,
    now: u64,
) -> (decision: Result<ActivityChange, ContractError>)
    ensures
        decision == activity_change_of(active_since, counted, old_total, new_total, now),
{
    let was_active = old_total > 0;
    let is_active = new_total > 0;
    if was_active == is_active {
        return Ok(ActivityChange::Unchanged);
    }
    if is_active {
        return Ok(ActivityChange::Began { since: now });
    }
    let since = match active_since {
        Some(since) => since,
        None => {
            return Ok(ActivityChange::Unchanged);
        },
    };
    if since > now {
        return Err(ContractError::ArithmeticOverflow);
    }
    match counted.checked_add(now - since) {
        Some(total) => Ok(ActivityChange::Ended { counted: total }),
        None => Err(ContractError::ArithmeticOverflow),
    }
}

/// The seconds that a user has been active up to time `now`: the seconds counted for
/// finished periods and, where the user has anything staked and is marked active, the
/// running period. There is no answer where the running period would have begun in
/// the future or the sum leaves `u64`.
pub open spec fn running_duration_of(
    total: i128,
    active_since: Option<u64>,
    counted: u64,
    now: u64,
) -> Result<u64, ContractError> {
    if total > 0 && active_since is Some {
        if active_since->Some_0 > now || counted + (now - active_since->Some_0) > u64::MAX {
            Err(ContractError::ArithmeticOverflow)
        } else {
            Ok((counted + (now - active_since->Some_0)) as u64)
        }
    } else {
        Ok(counted)
    }
}

/// Works out the seconds that a user has been active up to time `now`.
pub fn running_duration(total: i128, active_since: Option<u64>, counted: u64, now: u64) -> (outcome:
    Result<u64, ContractError>)
    ensures
        outcome == running_duration_of(total, active_since, counted, now),
{
    if total <= 0 {
        return Ok(counted);
    }
    match active_since {
        Some(since) => {
            if since > now {
                Err(ContractError::ArithmeticOverflow)
            } else {
                match counted.checked_add(now - since) {
                    Some(sum) => Ok(sum),
                    None => Err(ContractError::ArithmeticOverflow),
                }
            }
        },
        None => Ok(counted),
    }
}

/// The value on file for `key`, or `fallback` where there is none.
pub open spec fn value_or<K, V>(map: Map<K, V>, key: K, fallback: V) -> V {
    if map.contains_key(key) {
        map[key]
    } else {
        fallback
    }
}

/// What can be read of a staking contract.
pub struct StakingState {
    /// The address of the contract itself.
    pub contract: Address,
    /// The configuration, once the contract is set up.
    pub config: Option<StakingConfig>,
    /// The sum staked by each user who has anything staked.
    pub totals: Map<Address, i128>,
    /// The stakes on file.
    pub stakes: Map<StakeKey, StakeData>,
    /// The number that each user's next stake will get.
    pub nonces: Map<Address, u32>,
    /// The seconds of each user's finished periods of activity.
    pub durations: Map<Address, u64>,
    /// Since when each user who is active has been so.
    pub active_since: Map<Address, u64>,
}

impl StakingState {
    /// The sum that `user` has staked.
    pub open spec fn total_of(self, user: Address) -> i128 {
        value_or(self.totals, user, 0)
    }

    /// The number that the next stake of `user` will get.
    pub open spec fn nonce_of(self, user: Address) -> u32 {
        value_or(self.nonces, user, 0)
    }

    /// The seconds of the finished periods of activity of `user`.
    pub open spec fn duration_of(self, user: Address) -> u64 {
        value_or(self.durations, user, 0)
    }

    /// Since when `user` has been active, if the user is.
    pub open spec fn since_of(self, user: Address) -> Option<u64> {
        if self.active_since.contains_key(user) {
            Some(self.active_since[user])
        } else {
            None
        }
    }

    /// What a change of the total of `user` from `old_total` to `new_total` at time
    /// `now` does to the count of the user's active time.
    pub open spec fn activity_change(
        self,
        user: Address,
        old_total: i128,
        new_total: i128,
        now: u64,
    ) -> Result<ActivityChange, ContractError> {
        activity_change_of(self.since_of(user), self.duration_of(user), old_total, new_total, now)
    }

    /// Whether the count of active time can follow a change of the total of `user`
    /// from `old_total` to `new_total` at time `now`.
    pub open spec fn activity_computable(
        self,
        user: Address,
        old_total: i128,
        new_total: i128,
        now: u64,
    ) -> bool {
        self.activity_change(user, old_total, new_total, now) is Ok
    }

    /// The state after the count of active time has followed a change of the total of
    /// `user` from `old_total` to `new_total` at time `now`. A user who becomes active
    /// is marked as active since `now`; a user who stops being active has the elapsed
    /// time added to the count and the mark removed; where the count cannot follow,
    /// nothing changes.
    pub open spec fn after_activity_change(
        self,
        user: Address,
        old_total: i128,
        new_total: i128,
        now: u64,
    ) -> StakingState {
        match self.activity_change(user, old_total, new_total, now) {
            Ok(ActivityChange::Began { since }) => StakingState {
                active_since: self.active_since.insert(user, since),
                ..self
            },
            Ok(ActivityChange::Ended { counted }) => StakingState {
                durations: self.durations.insert(user, counted),
                active_since: self.active_since.remove(user),
                ..self
            },
            _ => self,
        }
    }

    /// Whether a change of configuration asked for by `caller` goes through.
    pub open spec fn update_check(self, caller: Address) -> Result<(), ContractError> {
        if self.config is None {
            Err(ContractError::NotInitialized)
        } else if self.config->Some_0.admin != caller {
            Err(ContractError::Unauthorized)
        } else {
            Ok(())
        }
    }

    /// Whether a stake goes through, and if not, why not.
    pub open spec fn stake_check(self, caller: Address, user: Address, amount: i128, now: u64) -> Result<
        (),
        ContractError,
    > {
        if caller != user {
            Err(ContractError::Unauthorized)
        } else if self.config is None {
            Err(ContractError::NotInitialized)
        } else if amount < self.config->Some_0.min_stake {
            Err(ContractError::BelowMinStake)
        } else if self.nonce_of(user) + 1 > u32::MAX {
            Err(ContractError::ArithmeticOverflow)
        } else if !(i128::MIN <= self.total_of(user) + amount <= i128::MAX) {
            Err(ContractError::ArithmeticOverflow)
        } else if !self.activity_computable(
            user,
            self.total_of(user),
            (self.total_of(user) + amount) as i128,
            now,
        ) {
            Err(ContractError::ArithmeticOverflow)
        } else {
            Ok(())
        }
    }

    /// What a successful stake gives back.
    pub open spec fn staked(self, user: Address, amount: i128, now: u64) -> Staked {
        let stake_id = U256 { hi: 0, lo: self.nonce_of(user) as u128 };
        let token = self.config->Some_0.staking_token;
        Staked {
            stake_id,
            transfer: TokenTransfer { token, from: user, to: self.contract, amount },
            event: StakeEvent {
                user,
                amount,
                token,
                contract: self.contract,
                stake_id,
                timestamp: now,
            },
        }
    }

    /// The state after a successful stake.
    pub open spec fn after_stake(self, user: Address, amount: i128, now: u64) -> StakingState {
        let stake_id = U256 { hi: 0, lo: self.nonce_of(user) as u128 };
        let new_total = (self.total_of(user) + amount) as i128;
        let counted = self.after_activity_change(user, self.total_of(user), new_total, now);
        StakingState {
            nonces: self.nonces.insert(user, (self.nonce_of(user) + 1) as u32),
            stakes: self.stakes.insert(
                StakeKey { user, stake_id },
                StakeData { amount, timestamp: now },
            ),
            totals: self.totals.insert(user, new_total),
            ..counted
        }
    }

    /// Whether a withdrawal goes through, and if not, why not.
    pub open spec fn unstake_check(
        self,
        caller: Address,
        user: Address,
        stake_id: U256,
        now: u64,
    ) -> Result<(), ContractError> {
        let key = StakeKey { user, stake_id };
        if caller != user {
            Err(ContractError::Unauthorized)
        } else if self.config is None {
            Err(ContractError::NotInitialized)
        } else if !self.stakes.contains_key(key) {
            Err(ContractError::StakeNotFound)
        } else if self.stakes[key].resting_at(self.config->Some_0.cooldown_period, now) {
            Err(ContractError::CooldownNotMet)
        } else if !(i128::MIN <= self.total_of(user) - self.stakes[key].amount <= i128::MAX) {
            Err(ContractError::ArithmeticOverflow)
        } else if !self.activity_computable(
            user,
            self.total_of(user),
            (self.total_of(user) - self.stakes[key].amount) as i128,
            now,
        ) {
            Err(ContractError::ArithmeticOverflow)
        } else {
            Ok(())
        }
    }

    /// What a successful withdrawal gives back.
    pub open spec fn unstaked(self, user: Address, stake_id: U256, now: u64) -> Unstaked {
        let amount = self.stakes[StakeKey { user, stake_id }].amount;
        let token = self.config->Some_0.staking_token;
        Unstaked {
            transfer: TokenTransfer { token, from: self.contract, to: user, amount },
            event: UnstakeEvent {
                user,
                amount,
                token,
                contract: self.contract,
                stake_id,
                reward: 0,
                timestamp: now,
            },
        }
    }

    /// The state after a successful withdrawal.
    pub open spec fn after_unstake(self, user: Address, stake_id: U256, now: u64) -> StakingState {
        let key = StakeKey { user, stake_id };
        let new_total = (self.total_of(user) - self.stakes[key].amount) as i128;
        let counted = self.after_activity_change(user, self.total_of(user), new_total, now);
        StakingState {
            stakes: self.stakes.remove(key),
            totals: if new_total > 0 {
                self.totals.insert(user, new_total)
            } else {
                self.totals.remove(user)
            },
            ..counted
        }
    }

    /// The seconds that `user` has been active up to time `now`.
    pub open spec fn active_duration(self, user: Address, now: u64) -> Result<u64, ContractError> {
        running_duration_of(self.total_of(user), self.since_of(user), self.duration_of(user), now)
    }
}

/// The staking contract.
pub struct StakingContract {
    contract: Address,
    config: Option<StakingConfig>,
    totals: Table<Address, i128>,
    stakes: Table<StakeKey, StakeData>,
    nonces: Table<Address, u32>,
    durations: Table<Address, u64>,
    active_since: Table<Address, u64>,
}

impl View for StakingContract {
    type V = StakingState;

    closed spec fn view(&self) -> StakingState {
        StakingState {
            contract: self.contract,
            config: self.config,
            totals: self.totals@,
            stakes: self.stakes@,
            nonces: self.nonces@,
            durations: self.durations@,
            active_since: self.active_since@,
        }
    }
}

impl StakingContract {
    /// A contract at address `contract` that has not been set up.
    pub fn new(contract: Address) -> (made: Self)
        ensures
            made@ == (StakingState {
                contract,
                config: None,
                totals: Map::empty(),
                stakes: Map::empty(),
                nonces: Map::empty(),
                durations: Map::empty(),
                active_since: Map::empty(),
            }),
    {
        StakingContract {
            contract,
            config: None,
            totals: Table::new(),
            stakes: Table::new(),
            nonces: Table::new(),
            durations: Table::new(),
            active_since: Table::new(),
        }
    }

    /// Sets the contract up, once.
    pub fn initialize(
        &mut self,
        admin: Address,
        staking_token: Address,
        min_stake: i128,
        cooldown_period: u64,
    ) -> (outcome: Result<(), ContractError>)
        ensures
            old(self)@.config is Some ==> outcome == Err::<(), ContractError>(
                ContractError::AlreadyInitialized,
            ) && final(self)@ == old(self)@,
            old(self)@.config is None ==> outcome == Ok::<(), ContractError>(()) && final(self)@ == (
            StakingState {
                config: Some(StakingConfig { admin, staking_token, min_stake, cooldown_period }),
                ..old(self)@
            }),
    {
        if self.config.is_some() {
            return Err(ContractError::AlreadyInitialized);
        }
        self.config = Some(StakingConfig { admin, staking_token, min_stake, cooldown_period });
        Ok(())
    }

    /// Changes the least stake, the cooldown, or both. Only the administrator may; a
    /// refused change leaves the contract as it was.
    pub fn update_config(
        &mut self,
        caller: &Address,
        min_stake: Option<i128>,
        cooldown_period: Option<u64>,
    ) -> (outcome: Result<(), ContractError>)
        ensures
            outcome == old(self)@.update_check(*caller),
            outcome is Err ==> final(self)@ == old(self)@,
            outcome is Ok ==> final(self)@ == (StakingState {
                config: Some(
                    StakingConfig {
                        min_stake: match min_stake {
                            Some(least) => least,
                            None => old(self)@.config->Some_0.min_stake,
                        },
                        cooldown_period: match cooldown_period {
                            Some(rest) => rest,
                            None => old(self)@.config->Some_0.cooldown_period,
                        },
                        ..old(self)@.config->Some_0
                    },
                ),
                ..old(self)@
            }),
    {
        let config = match self.config {
            Some(config) => config,
            None => {
                return Err(ContractError::NotInitialized);
            },
        };
        if !config.admin.same_as(caller) {
            return Err(ContractError::Unauthorized);
        }
        let min_stake = match min_stake {
            Some(least) => least,
            None => config.min_stake,
        };
        let cooldown_period = match cooldown_period {
            Some(rest) => rest,
            None => config.cooldown_period,
        };
        self.config = Some(
            StakingConfig {
                admin: config.admin,
                staking_token: config.staking_token,
                min_stake,
                cooldown_period,
            },
        );
        Ok(())
    }

    /// Keeps the count of active time of `user` in step with a change of the user's
    /// total from `old_total` to `new_total` at time `now`. Nothing happens unless the
    /// user becomes active or stops being so. Where the count cannot be kept, nothing
    /// is changed and the failure is reported.
    pub fn update_user_active_duration_on_change(
        &mut self,
        user: &Address,
        old_total: i128,
        new_total: i128,
        now: u64,
    ) -> (outcome: Result<(), ContractError>)
        ensures
            outcome is Ok <==> old(self)@.activity_computable(*user, old_total, new_total, now),
            outcome is Err ==> outcome == Err::<(), ContractError>(
                ContractError::ArithmeticOverflow,
            ),
            final(self)@ == old(self)@.after_activity_change(*user, old_total, new_total, now),
    {
        let since = match self.active_since.get(user) {
            Some(since) => Some(*since),
            None => None,
        };
        let counted = match self.durations.get(user) {
            Some(counted) => *counted,
            None => 0,
        };
        match decide_activity_change(since, counted, old_total, new_total, now) {
            Ok(ActivityChange::Unchanged) => Ok(()),
            Ok(ActivityChange::Began { since }) => {
                self.active_since.insert(*user, since);
                Ok(())
            },
            Ok(ActivityChange::Ended { counted }) => {
                self.durations.insert(*user, counted);
                self.active_since.remove(user);
                Ok(())
            },
            Err(refusal) => Err(refusal),
        }
    }

    /// Stakes `amount` for `user` at time `now`.
    ///
    /// The caller must be the user, the contract must be set up and the amount must
    /// reach the least stake. The stake gets the user's next number, the user's total
    /// grows by the amount and the count of active time follows. The transfer to
    /// carry out and the event to publish are returned. A refused stake changes
    /// nothing.
    pub fn stake(&mut self, caller: &Address, user: Address, amount: i128, now: u64) -> (outcome:
        Result<Staked, ContractError>)
        ensures
            outcome is Ok <==> old(self)@.stake_check(*caller, user, amount, now) is Ok,
            outcome matches Err(refusal) ==> old(self)@.stake_check(*caller, user, amount, now)
                == Err::<(), ContractError>(refusal) && final(self)@ == old(self)@,
            outcome matches Ok(done) ==> done == old(self)@.staked(user, amount, now) && final(self)@ == old(self)@.after_stake(user, amount, now),
    {
        if !caller.same_as(&user) {
            return Err(ContractError::Unauthorized);
        }
        let config = match self.config {
            Some(config) => config,
            None => {
                return Err(ContractError::NotInitialized);
            },
        };
        if amount < config.min_stake {
            return Err(ContractError::BelowMinStake);
        }
        let nonce = self.nonce(&user);
        if nonce == u32::MAX {
            return Err(ContractError::ArithmeticOverflow);
        }
        let current_total = self.get_total_stake(&user);
        let new_total = match current_total.checked_add(amount) {
            Some(new_total) => new_total,
            None => {
                return Err(ContractError::ArithmeticOverflow);
            },
        };
        match self.update_user_active_duration_on_change(&user, current_total, new_total, now) {
            Ok(_) => {},
            Err(refusal) => {
                return Err(refusal);
            },
        }
        let stake_id = U256::from_u32(nonce);
        self.nonces.insert(user, nonce + 1);
        self.stakes.insert(StakeKey { user, stake_id }, StakeData { amount, timestamp: now });
        self.totals.insert(user, new_total);
        Ok(
            Staked {
                stake_id,
                transfer: TokenTransfer {
                    token: config.staking_token,
                    from: user,
                    to: self.contract,
                    amount,
                },
                event: StakeEvent {
                    user,
                    amount,
                    token: config.staking_token,
                    contract: self.contract,
                    stake_id,
                    timestamp: now,
                },
            },
        )
    }

    /// Withdraws the stake numbered `stake_id` of `user` at time `now`.
    ///
    /// The caller must be the user, the contract must be set up, the stake must be on
    /// file and its cooldown must have passed. The stake is taken off file, the
    /// user's total shrinks by its amount and the count of active time follows. The
    /// transfer to carry out and the event to publish are returned. A refused
    /// withdrawal changes nothing.
    pub fn unstake(&mut self, caller: &Address, user: Address, stake_id: U256, now: u64) -> (outcome:
        Result<Unstaked, ContractError>)
        ensures
            outcome is Ok <==> old(self)@.unstake_check(*caller, user, stake_id, now) is Ok,
            outcome matches Err(refusal) ==> old(self)@.unstake_check(
                *caller,
                user,
                stake_id,
                now,
            ) == Err::<(), ContractError>(refusal) && final(self)@ == old(self)@,
            outcome matches Ok(done) ==> done == old(self)@.unstaked(user, stake_id, now) && final(self)@ == old(self)@.after_unstake(user, stake_id, now),
    {
        if !caller.same_as(&user) {
            return Err(ContractError::Unauthorized);
        }
        let config = match self.config {
            Some(config) => config,
            None => {
                return Err(ContractError::NotInitialized);
            },
        };
        let key = StakeKey { user, stake_id };
        let stake = match self.stakes.get(&key) {
            Some(stake) => *stake,
            None => {
                return Err(ContractError::StakeNotFound);
            },
        };
        if stake.is_resting(config.cooldown_period, now) {
            return Err(ContractError::CooldownNotMet);
        }
        let current_total = self.get_total_stake(&user);
        let new_total = match current_total.checked_sub(stake.amount) {
            Some(new_total) => new_total,
            None => {
                return Err(ContractError::ArithmeticOverflow);
            },
        };
        match self.update_user_active_duration_on_change(&user, current_total, new_total, now) {
            Ok(_) => {},
            Err(refusal) => {
                return Err(refusal);
            },
        }
        self.stakes.remove(&key);
        if new_total > 0 {
            self.totals.insert(user, new_total);
        } else {
            self.totals.remove(&user);
        }
        Ok(
            Unstaked {
                transfer: TokenTransfer {
                    token: config.staking_token,
                    from: self.contract,
                    to: user,
                    amount: stake.amount,
                },
                event: UnstakeEvent {
                    user,
                    amount: stake.amount,
                    token: config.staking_token,
                    contract: self.contract,
                    stake_id,
                    reward: 0,
                    timestamp: now,
                },
            },
        )
    }

    /// The number that the next stake of `user` will get.
    pub fn nonce(&self, user: &Address) -> (nonce: u32)
        ensures
            nonce == self@.nonce_of(*user),
    {
        match self.nonces.get(user) {
            Some(nonce) => *nonce,
            None => 0,
        }
    }

    /// The sum that `user` has staked.
    pub fn get_total_stake(&self, user: &Address) -> (total: i128)
        ensures
            total == self@.total_of(*user),
    {
        match self.totals.get(user) {
            Some(total) => *total,
            None => 0,
        }
    }

    /// The stake numbered `stake_id` of `user`.
    pub fn get_stake(&self, user: &Address, stake_id: &U256) -> (outcome: Result<
        StakeData,
        ContractError,
    >)
        ensures
            outcome == (if self@.stakes.contains_key(StakeKey { user: *user, stake_id: *stake_id }) {
                Ok::<StakeData, ContractError>(
                    self@.stakes[StakeKey { user: *user, stake_id: *stake_id }],
                )
            } else {
                Err::<StakeData, ContractError>(ContractError::StakeNotFound)
            }),
    {
        match self.stakes.get(&StakeKey { user: *user, stake_id: *stake_id }) {
            Some(stake) => Ok(*stake),
            None => Err(ContractError::StakeNotFound),
        }
    }

    /// The seconds that `user` has had anything staked, up to time `now`.
    pub fn get_user_active_duration(&self, user: &Address, now: u64) -> (outcome: Result<
        u64,
        ContractError,
    >)
        ensures
            outcome == self@.active_duration(*user, now),
    {
        let counted = match self.durations.get(user) {
            Some(counted) => *counted,
            None => 0,
        };
        let since = match self.active_since.get(user) {
            Some(since) => Some(*since),
            None => None,
        };
        running_duration(self.get_total_stake(user), since, counted, now)
    }

    /// The seconds since the stake numbered `stake_id` of `user` was made, at time
    /// `now`.
    pub fn get_stake_duration(&self, user: &Address, stake_id: &U256, now: u64) -> (outcome: Result<
        u64,
        ContractError,
    >)
        ensures
            outcome == ({
                let key = StakeKey { user: *user, stake_id: *stake_id };
                if !self@.stakes.contains_key(key) {
                    Err::<u64, ContractError>(ContractError::StakeNotFound)
                } else if now < self@.stakes[key].timestamp {
                    Err::<u64, ContractError>(ContractError::ArithmeticOverflow)
                } else {
                    Ok::<u64, ContractError>((now - self@.stakes[key].timestamp) as u64)
                }
            }),
    {
        match self.stakes.get(&StakeKey { user: *user, stake_id: *stake_id }) {
            Some(stake) => {
                if now < stake.timestamp {
                    Err(ContractError::ArithmeticOverflow)
                } else {
                    Ok(now - stake.timestamp)
                }
            },
            None => Err(ContractError::StakeNotFound),
        }
    }
}

} // verus!
