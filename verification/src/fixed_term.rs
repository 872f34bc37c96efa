//! Staking for a fixed term: one position per staker, locked for seven, thirty or
//! ninety days, paid out with a multiplier when the lock has run.

use vstd::prelude::*;

use crate::address::Address;
use crate::arith::{checked_percent, percent_computable, percent_of};
use crate::table::Table;

verus! {

/// Seven days, in seconds.
pub const SEVEN_DAYS: u64 = 604800;

/// Thirty days, in seconds.
pub const THIRTY_DAYS: u64 = 2592000;

/// Ninety days, in seconds.
pub const NINETY_DAYS: u64 = 7776000;

/// What a lock of seven days multiplies the stake by, in hundredths.
pub const MULT_7: u32 = 110;

/// What a lock of thirty days multiplies the stake by, in hundredths.
pub const MULT_30: u32 = 130;

/// What a lock of ninety days multiplies the stake by, in hundredths.
pub const MULT_90: u32 = 160;

/// Why a fixed-term operation was refused.
#[derive(Clone, Copy, Debug, PartialEq, Eq, Structural)]
pub enum FixedStakingError {
    /// The duration is none of the three terms on offer.
    InvalidDuration,
    /// The staker has a position already.
    StakeAlreadyExists,
    /// The staker has no position.
    NoActiveStake,
    /// The lock has not run yet.
    LockNotExpired,
    /// The amount is not positive.
    InvalidAmount,
    /// The caller is not the staker.
    Unauthorized,
    /// The payout would leave the range of `i128`.
    ArithmeticOverflow,
}

impl FixedStakingError {
    /// The number under which the error is reported.
    pub open spec fn code_of(self) -> u32 {
        match self {
            FixedStakingError::InvalidDuration => 1,
            FixedStakingError::StakeAlreadyExists => 2,
            FixedStakingError::NoActiveStake => 3,
            FixedStakingError::LockNotExpired => 4,
            FixedStakingError::InvalidAmount => 5,
            FixedStakingError::Unauthorized => 6,
            FixedStakingError::ArithmeticOverflow => 7,
        }
    }

    /// The number under which the error is reported.
    pub fn code(&self) -> (code: u32)
        ensures
            code == self.code_of(),
    {
        match self {
            FixedStakingError::InvalidDuration => 1,
            FixedStakingError::StakeAlreadyExists => 2,
            FixedStakingError::NoActiveStake => 3,
            FixedStakingError::LockNotExpired => 4,
            FixedStakingError::InvalidAmount => 5,
            FixedStakingError::Unauthorized => 6,
            FixedStakingError::ArithmeticOverflow => 7,
        }
    }
}

/// A locked stake.
#[derive(Clone, Copy, Debug, PartialEq, Eq)]
pub struct FixedStakePosition {
    pub staker: Address,
    pub amount: i128,
    pub start_time: u64,
    pub lock_duration: u64,
    pub multiplier: u32,
}

/// What is published when a position is opened.
#[derive(Clone, Copy, Debug, PartialEq, Eq)]
pub struct FixedStakeEvent {
    pub user: Address,
    pub amount: i128,
    pub duration: u64,
}

/// What is published when a position is paid out.
#[derive(Clone, Copy, Debug, PartialEq, Eq)]
pub struct FixedUnstakeEvent {
    pub user: Address,
    pub reward: i128,
}

/// The event for a position of `amount` opened by `user` for `duration` seconds.
pub fn fixed_stake_event(user: &Address, amount: i128, duration: u64) -> (event: FixedStakeEvent)
    ensures
        event == (FixedStakeEvent { user: *user, amount, duration }),
{
    FixedStakeEvent { user: *user, amount, duration }
}

/// The event for a payout of `reward` to `user`.
pub fn fixed_unstake_event(user: &Address, reward: i128) -> (event: FixedUnstakeEvent)
    ensures
        event == (FixedUnstakeEvent { user: *user, reward }),
{
    FixedUnstakeEvent { user: *user, reward }
}

/// The multiplier, in hundredths, that a lock of `duration` seconds earns.
pub open spec fn multiplier_of(duration: u64) -> Option<u32> {
    if duration == SEVEN_DAYS {
        Some(MULT_7)
    } else if duration == THIRTY_DAYS {
        Some(MULT_30)
    } else if duration == NINETY_DAYS {
        Some(MULT_90)
    } else {
        None
    }
}

/// The multiplier, in hundredths, that a lock of `duration` seconds earns; `None` for
/// a duration that is not on offer.
pub fn multiplier_for(duration: u64) -> (multiplier: Option<u32>)
    ensures
        multiplier == multiplier_of(duration),
{
    if duration == SEVEN_DAYS {
        Some(MULT_7)
    } else if duration == THIRTY_DAYS {
        Some(MULT_30)
    } else if duration == NINETY_DAYS {
        Some(MULT_90)
    } else {
        None
    }
}

/// A lock of `lock_duration` seconds that began at `start_time` is still running at
/// time `now`.
pub open spec fn lock_running(start_time: u64, lock_duration: u64, now: u64) -> bool {
    now < start_time + lock_duration
}

/// Whether a lock of `lock_duration` seconds that began at `start_time` is still
/// running at time `now`. A lock that would end past the last instant of the clock
/// never stops running.
pub fn lock_is_running(start_time: u64, lock_duration: u64, now: u64) -> (running: bool)
    ensures
        running == lock_running(start_time, lock_duration, now),
{
    match start_time.checked_add(lock_duration) {
        Some(end) => now < end,
        None => true,
    }
}

impl FixedStakePosition {
    /// The lock is still running at time `now`.
    pub open spec fn locked_at(self, now: u64) -> bool {
        lock_running(self.start_time, self.lock_duration, now)
    }

    /// Whether the lock is still running at time `now`.
    pub fn is_locked(&self, now: u64) -> (locked: bool)
        ensures
            locked == self.locked_at(now),
    {
        lock_is_running(self.start_time, self.lock_duration, now)
    }

    /// What the position pays out: the amount times the multiplier, in hundredths,
    /// rounded toward zero.
    pub open spec fn reward(self) -> int {
        percent_of(self.amount, self.multiplier)
    }
}

/// The positions on file, by staker.
pub type Positions = Map<Address, FixedStakePosition>;

/// How opening a position ends.
pub open spec fn stake_outcome(
    positions: Positions,
    caller: Address,
    user: Address,
    amount: i128,
    duration: u64,
) -> Result<FixedStakeEvent, FixedStakingError> {
    if caller != user {
        Err(FixedStakingError::Unauthorized)
    } else if amount <= 0 {
        Err(FixedStakingError::InvalidAmount)
    } else if positions.contains_key(user) {
        Err(FixedStakingError::StakeAlreadyExists)
    } else if multiplier_of(duration) is None {
        Err(FixedStakingError::InvalidDuration)
    } else {
        Ok(FixedStakeEvent { user, amount, duration })
    }
}

/// How paying out a position ends.
pub open spec fn unstake_outcome(positions: Positions, caller: Address, user: Address, now: u64) -> Result<
    FixedUnstakeEvent,
    FixedStakingError,
> {
    if caller != user {
        Err(FixedStakingError::Unauthorized)
    } else if !positions.contains_key(user) {
        Err(FixedStakingError::NoActiveStake)
    } else if positions[user].locked_at(now) {
        Err(FixedStakingError::LockNotExpired)
    } else if !percent_computable(positions[user].amount, positions[user].multiplier) {
        Err(FixedStakingError::ArithmeticOverflow)
    } else {
        Ok(FixedUnstakeEvent { user, reward: positions[user].reward() as i128 })
    }
}

/// The fixed-term positions of all stakers.
pub struct FixedLockStaking {
    positions: Table<Address, FixedStakePosition>,
}

impl View for FixedLockStaking {
    type V = Positions;

    closed spec fn view(&self) -> Positions {
        self.positions@
    }
}

impl FixedLockStaking {
    /// No positions.
    pub fn new() -> (staking: Self)
        ensures
            staking@ == Map::<Address, FixedStakePosition>::empty(),
    {
        FixedLockStaking { positions: Table::new() }
    }

    /// Opens a position of `amount` for `user`, locked for `duration` seconds from
    /// `now`. The caller must be the staker, the amount positive, the staker without a
    /// position and the duration one of the three on offer; the checks are made in
    /// this order and a refused request changes nothing.
    pub fn stake(
        &mut self,
        caller: &Address,
        user: Address,
        amount: i128,
        duration: u64,
        now: u64,
    ) -> (outcome: Result<FixedStakeEvent, FixedStakingError>)
        ensures
            outcome == stake_outcome(old(self)@, *caller, user, amount, duration),
            outcome is Ok ==> final(self)@ == old(self)@.insert(
                user,
                FixedStakePosition {
                    staker: user,
                    amount,
                    start_time: now,
                    lock_duration: duration,
                    multiplier: multiplier_of(duration)->Some_0,
                },
            ),
            outcome is Err ==> final(self)@ == old(self)@,
    {
        if !caller.same_as(&user) {
            return Err(FixedStakingError::Unauthorized);
        }
        if amount <= 0 {
            return Err(FixedStakingError::InvalidAmount);
        }
        if self.positions.contains(&user) {
            return Err(FixedStakingError::StakeAlreadyExists);
        }
        let multiplier = match multiplier_for(duration) {
            Some(multiplier) => multiplier,
            None => {
                return Err(FixedStakingError::InvalidDuration);
            },
        };
        self.positions.insert(
            user,
            FixedStakePosition {
                staker: user,
                amount,
                start_time: now,
                lock_duration: duration,
                multiplier,
            },
        );
        Ok(fixed_stake_event(&user, amount, duration))
    }

    /// Pays out the position of `user` at time `now` and takes it off file. The caller
    /// must be the staker, a position must be on file and its lock must have run; a
    /// refused request changes nothing.
    pub fn unstake(&mut self, caller: &Address, user: Address, now: u64) -> (outcome: Result<
        FixedUnstakeEvent,
        FixedStakingError,
    >)
        ensures
            outcome == unstake_outcome(old(self)@, *caller, user, now),
            outcome is Ok ==> final(self)@ == old(self)@.remove(user),
            outcome is Err ==> final(self)@ == old(self)@,
    {
        if !caller.same_as(&user) {
            return Err(FixedStakingError::Unauthorized);
        }
        let position = match self.positions.get(&user) {
            Some(position) => *position,
            None => {
                return Err(FixedStakingError::NoActiveStake);
            },
        };
        if position.is_locked(now) {
            return Err(FixedStakingError::LockNotExpired);
        }
        let reward = match checked_percent(position.amount, position.multiplier) {
            Some(reward) => reward,
            None => {
                return Err(FixedStakingError::ArithmeticOverflow);
            },
        };
        self.positions.remove(&user);
        Ok(fixed_unstake_event(&user, reward))
    }

    /// The position of `user`, if one is on file.
    pub fn get_stake(&self, user: &Address) -> (position: Option<FixedStakePosition>)
        ensures
            position == (if self@.contains_key(*user) {
                Some(self@[*user])
            } else {
                None
            }),
    {
        match self.positions.get(user) {
            Some(position) => Some(*position),
            None => None,
        }
    }
}

} // verus!
