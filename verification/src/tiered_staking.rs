//! Staking by tier: one stake per user, and a tier that follows from how much is
//! staked and for how long.

use vstd::prelude::*;

use crate::address::Address;
use crate::error::ContractError;
use crate::table::Table;

verus! {

/// One tier and what it takes to reach it.
#[derive(Debug)]
pub struct Tier {
    pub name: String,
    /// The least stake that reaches the tier.
    pub min_stake: i128,
    /// The least age of the stake, in seconds, that reaches the tier.
    pub min_duration: u64,
    /// What the tier multiplies by, in hundredths.
    pub multiplier: i128,
}

/// What can be read of a tier.
pub struct TierView {
    pub name: Seq<char>,
    pub min_stake: i128,
    pub min_duration: u64,
    pub multiplier: i128,
}

impl View for Tier {
    type V = TierView;

    open spec fn view(&self) -> TierView {
        TierView {
            name: self.name@,
            min_stake: self.min_stake,
            min_duration: self.min_duration,
            multiplier: self.multiplier,
        }
    }
}

/// What a user has staked, and since when.
#[derive(Clone, Copy, Debug, PartialEq, Eq)]
pub struct Stake {
    pub amount: i128,
    pub start_time: u64,
}

/// What is published when a user's tier changes.
#[derive(Debug, PartialEq, Eq)]
pub struct TierUpgraded {
    pub user: Address,
    pub tier: String,
}

/// What can be read of a sequence of tiers.
pub open spec fn tiers_view(tiers: Seq<Tier>) -> Seq<TierView> {
    Seq::new(tiers.len(), |i: int| tiers[i]@)
}

impl TierView {
    /// A stake of `amount` that is `elapsed` seconds old reaches the tier.
    pub open spec fn reached_by(self, amount: i128, elapsed: u64) -> bool {
        amount >= self.min_stake && elapsed >= self.min_duration
    }
}

/// The tier of a stake of `amount` that is `elapsed` seconds old: the last tier of the
/// list that the stake reaches, and `Bronze` if it reaches none.
pub open spec fn best_tier(tiers: Seq<TierView>, amount: i128, elapsed: u64) -> Seq<char>
    decreases tiers.len(),
{
    if tiers.len() == 0 {
        "Bronze"@
    } else if tiers.last().reached_by(amount, elapsed) {
        tiers.last().name
    } else {
        best_tier(tiers.drop_last(), amount, elapsed)
    }
}

/// The four tiers of a new contract.
pub open spec fn default_tiers() -> Seq<TierView> {
    seq![
        TierView { name: "Bronze"@, min_stake: 100, min_duration: 0, multiplier: 100 },
        TierView { name: "Silver"@, min_stake: 500, min_duration: 604800, multiplier: 125 },
        TierView { name: "Gold"@, min_stake: 1000, min_duration: 1209600, multiplier: 150 },
        TierView { name: "Platinum"@, min_stake: 5000, min_duration: 2592000, multiplier: 200 },
    ]
}

/// The name of the tier of `tiers` that a stake of `amount`, `elapsed` seconds old,
/// earns: the last one it reaches, and `Bronze` if it reaches none.
pub fn choose_tier(tiers: &Vec<Tier>, amount: i128, elapsed: u64) -> (name: String)
    ensures
        name@ == best_tier(tiers_view(tiers@), amount, elapsed),
{
    let mut best: Option<usize> = None;
    let mut i: usize = 0;
    while i < tiers.len()
        invariant
            i <= tiers@.len(),
            match best {
                Some(j) => j < i && best_tier(tiers_view(tiers@).take(i as int), amount, elapsed)
                    == tiers@[j as int].name@,
                None => best_tier(tiers_view(tiers@).take(i as int), amount, elapsed) == "Bronze"@,
            },
        decreases tiers@.len() - i,
    {
        proof {
            let seen = tiers_view(tiers@).take(i + 1);
            assert(seen.drop_last() == tiers_view(tiers@).take(i as int));
            assert(seen.last() == tiers@[i as int]@);
        }
        if amount >= tiers[i].min_stake && elapsed >= tiers[i].min_duration {
            best = Some(i);
        }
        i += 1;
    }
    proof {
        assert(tiers_view(tiers@).take(i as int) == tiers_view(tiers@));
    }
    match best {
        Some(j) => tiers[j].name.clone(),
        None => "Bronze".to_owned(),
    }
}

/// The four tiers that a new contract starts with.
pub fn starting_tiers() -> (tiers: Vec<Tier>)
    ensures
        tiers_view(tiers@) == default_tiers(),
{
    let mut tiers: Vec<Tier> = Vec::new();
    tiers.push(Tier { name: "Bronze".to_owned(), min_stake: 100, min_duration: 0, multiplier: 100 });
    tiers.push(
        Tier {
            name: "Silver".to_owned(),
            min_stake: 500,
            min_duration: 7 * 24 * 3600,
            multiplier: 125,
        },
    );
    tiers.push(
        Tier {
            name: "Gold".to_owned(),
            min_stake: 1000,
            min_duration: 14 * 24 * 3600,
            multiplier: 150,
        },
    );
    tiers.push(
        Tier {
            name: "Platinum".to_owned(),
            min_stake: 5000,
            min_duration: 30 * 24 * 3600,
            multiplier: 200,
        },
    );
    assert(tiers_view(tiers@) =~= default_tiers());
    tiers
}

/// What can be read of a tiered staking contract.
pub struct TieredState {
    /// The tiers, in the order in which they are tried.
    pub tiers: Seq<TierView>,
    /// The stake of each user who has one.
    pub stakes: Map<Address, Stake>,
    /// The tier on file for each user who has one.
    pub tier_map: Map<Address, Seq<char>>,
}

impl TieredState {
    /// Whether the tier of `user` can be worked out at time `now`, and if not, why
    /// not: the user must have a stake, and it must not begin in the future.
    pub open spec fn recalculate_check(self, user: Address, now: u64) -> Result<(), ContractError> {
        if !self.stakes.contains_key(user) {
            Err(ContractError::StakeNotFound)
        } else if now < self.stakes[user].start_time {
            Err(ContractError::ArithmeticOverflow)
        } else {
            Ok(())
        }
    }

    /// The tier that the stake of `user` earns at time `now`.
    pub open spec fn earned_tier(self, user: Address, now: u64) -> Seq<char> {
        best_tier(
            self.tiers,
            self.stakes[user].amount,
            (now - self.stakes[user].start_time) as u64,
        )
    }

    /// The tier on file for `user` differs from `tier`, or none is on file.
    pub open spec fn tier_differs(self, user: Address, tier: Seq<char>) -> bool {
        !self.tier_map.contains_key(user) || self.tier_map[user] != tier
    }
}

/// The tiered staking contract.
pub struct StakingContract {
    tiers: Vec<Tier>,
    stakes: Table<Address, Stake>,
    tier_map: Table<Address, String>,
}

impl View for StakingContract {
    type V = TieredState;

    closed spec fn view(&self) -> TieredState {
        TieredState {
            tiers: tiers_view(self.tiers@),
            stakes: self.stakes@,
            tier_map: Map::new(
                |user: Address| self.tier_map@.contains_key(user),
                |user: Address| self.tier_map@[user]@,
            ),
        }
    }
}

impl StakingContract {
    /// A contract with the four default tiers, no stake and no tier on file.
    pub fn init() -> (contract: Self)
        ensures
            contract@ == (TieredState {
                tiers: default_tiers(),
                stakes: Map::empty(),
                tier_map: Map::empty(),
            }),
    {
        let tiers = starting_tiers();
        let contract = StakingContract { tiers, stakes: Table::new(), tier_map: Table::new() };
        proof {
            assert(contract@.tier_map =~= Map::empty());
        }
        contract
    }

    /// The name of the tier that a stake of `amount`, `elapsed` seconds old, earns.
    pub fn tier_for(&self, amount: i128, elapsed: u64) -> (name: String)
        ensures
            name@ == best_tier(self@.tiers, amount, elapsed),
    {
        choose_tier(&self.tiers, amount, elapsed)
    }

    /// Files a stake of `amount` for `user`, made at time `now`, in place of any stake
    /// the user had, and works the user's tier out anew.
    pub fn stake(&mut self, user: Address, amount: i128, now: u64) -> (change: Option<TierUpgraded>)
        ensures
            ({
                let staked = TieredState {
                    stakes: old(self)@.stakes.insert(user, Stake { amount, start_time: now }),
                    ..old(self)@
                };
                let tier = staked.earned_tier(user, now);
                &&& tier == best_tier(old(self)@.tiers, amount, 0)
                &&& final(self)@.tiers == staked.tiers
                &&& final(self)@.stakes == staked.stakes
                &&& final(self)@.tier_map == staked.tier_map.insert(user, tier)
                &&& staked.tier_differs(user, tier) ==> change is Some && change->Some_0.user
                    == user && change->Some_0.tier@ == tier
                &&& !staked.tier_differs(user, tier) ==> change is None
            }),
    {
        self.stakes.insert(user, Stake { amount, start_time: now });
        match self.recalculate_tier(user, now) {
            Ok(change) => change,
            Err(_) => None,
        }
    }

    /// Works out the tier of `user` at time `now` and files it. Where the tier on file
    /// was another, or none, the change is returned for publication.
    pub fn recalculate_tier(&mut self, user: Address, now: u64) -> (outcome: Result<
        Option<TierUpgraded>,
        ContractError,
    >)
        ensures
            outcome is Ok <==> old(self)@.recalculate_check(user, now) is Ok,
            outcome matches Err(refusal) ==> old(self)@.recalculate_check(user, now) == Err::<
                (),
                ContractError,
            >(refusal) && final(self)@ == old(self)@,
            outcome matches Ok(change) ==> {
                let tier = old(self)@.earned_tier(user, now);
                &&& final(self)@ == (TieredState {
                    tier_map: old(self)@.tier_map.insert(user, tier),
                    ..old(self)@
                })
                &&& old(self)@.tier_differs(user, tier) ==> change is Some && change->Some_0.user
                    == user && change->Some_0.tier@ == tier
                &&& !old(self)@.tier_differs(user, tier) ==> change is None
            },
    {
        let stake = match self.stakes.get(&user) {
            Some(stake) => *stake,
            None => {
                return Err(ContractError::StakeNotFound);
            },
        };
        if now < stake.start_time {
            return Err(ContractError::ArithmeticOverflow);
        }
        let best = self.tier_for(stake.amount, now - stake.start_time);
        let unchanged = match self.tier_map.get(&user) {
            Some(current) => *current == best,
            None => false,
        };
        if unchanged {
            proof {
                assert(self@.tier_map =~= self@.tier_map.insert(user, best@));
            }
            Ok(None)
        } else {
            self.tier_map.insert(user, best.clone());
            proof {
                assert(self@.tier_map =~= old(self)@.tier_map.insert(user, best@));
            }
            Ok(Some(TierUpgraded { user, tier: best }))
        }
    }

    /// The tier on file for `user`.
    pub fn get_tier(&self, user: &Address) -> (tier: Option<String>)
        ensures
            self@.tier_map.contains_key(*user) ==> tier is Some && tier->Some_0@
                == self@.tier_map[*user],
            !self@.tier_map.contains_key(*user) ==> tier is None,
    {
        match self.tier_map.get(user) {
            Some(name) => Some(name.clone()),
            None => None,
        }
    }

    /// The stake on file for `user`.
    pub fn get_stake(&self, user: &Address) -> (stake: Option<Stake>)
        ensures
            stake == (if self@.stakes.contains_key(*user) {
                Some(self@.stakes[*user])
            } else {
                None
            }),
    {
        match self.stakes.get(user) {
            Some(stake) => Some(*stake),
            None => None,
        }
    }
}

} // verus!
