//! Running totals of what came in and what was paid out.

use vstd::prelude::*;

use crate::error::ContractError;

verus! {

/// The figures of one snapshot: total deposits, total payouts and their difference.
#[derive(Clone, Copy, Debug, PartialEq, Eq)]
pub struct DailySnapshot {
    pub total_deposits: u128,
    pub total_payouts: u128,
    pub net_surplus: i128,
}

/// Counters of deposits and payouts, with the surplus between them.
///
/// The surplus on file is always the deposits less the payouts.
#[derive(Debug)]
pub struct ProfitabilityTracker {
    deposits: u128,
    payouts: u128,
    surplus: i128,
}

/// Deposits less payouts, as a mathematical integer.
pub open spec fn surplus_of(deposits: u128, payouts: u128) -> int {
    deposits - payouts
}

/// Whether a surplus can be written down as an `i128`.
pub open spec fn surplus_fits(deposits: u128, payouts: u128) -> bool {
    i128::MIN <= surplus_of(deposits, payouts) <= i128::MAX
}

/// Deposits less payouts, or `None` where the difference leaves `i128`.
pub fn checked_surplus(deposits: u128, payouts: u128) -> (surplus: Option<i128>)
    ensures
        surplus_fits(deposits, payouts) ==> surplus == Some(surplus_of(deposits, payouts) as i128),
        !surplus_fits(deposits, payouts) ==> surplus is None,
{
    if deposits >= payouts {
        let gap: u128 = deposits - payouts;
        if gap <= 0x7fff_ffff_ffff_ffff_ffff_ffff_ffff_ffffu128 {
            Some(gap as i128)
        } else {
            None
        }
    } else {
        let gap: u128 = payouts - deposits;
        if gap <= 0x7fff_ffff_ffff_ffff_ffff_ffff_ffff_ffffu128 {
            Some(-(gap as i128))
        } else if gap == 0x8000_0000_0000_0000_0000_0000_0000_0000u128 {
            Some(i128::MIN)
        } else {
            None
        }
    }
}

impl ProfitabilityTracker {
    #[verifier::type_invariant]
    spec fn balanced(self) -> bool {
        self.surplus == surplus_of(self.deposits, self.payouts)
    }

    /// Total deposits so far.
    pub closed spec fn deposits(self) -> u128 {
        self.deposits
    }

    /// Total payouts so far.
    pub closed spec fn payouts(self) -> u128 {
        self.payouts
    }

    /// The surplus on file.
    pub closed spec fn surplus(self) -> i128 {
        self.surplus
    }

    /// A tracker with nothing counted.
    pub fn new() -> (tracker: Self)
        ensures
            tracker.deposits() == 0,
            tracker.payouts() == 0,
            tracker.surplus() == 0,
    {
        ProfitabilityTracker { deposits: 0, payouts: 0, surplus: 0 }
    }

    /// Sets every counter back to zero.
    pub fn init(&mut self)
        ensures
            final(self).deposits() == 0,
            final(self).payouts() == 0,
            final(self).surplus() == 0,
    {
        *self = ProfitabilityTracker { deposits: 0, payouts: 0, surplus: 0 };
    }

    /// Counts a deposit of `amount`.
    ///
    /// Refused, with nothing changed, where the new total leaves `u128` or the new
    /// surplus leaves `i128`.
    pub fn add_deposit(&mut self, amount: u128) -> (outcome: Result<(), ContractError>)
        ensures
            outcome is Ok <==> old(self).deposits() + amount <= u128::MAX && surplus_fits(
                (old(self).deposits() + amount) as u128,
                old(self).payouts(),
            ),
            outcome is Ok ==> final(self).deposits() == old(self).deposits() + amount
                && final(self).payouts() == old(self).payouts() && final(self).surplus()
                == surplus_of(final(self).deposits(), final(self).payouts()),
            outcome is Err ==> outcome == Err::<(), ContractError>(
                ContractError::ArithmeticOverflow,
            ) && *final(self) == *old(self),
    {
        let deposits = match self.deposits.checked_add(amount) {
            Some(total) => total,
            None => {
                return Err(ContractError::ArithmeticOverflow);
            },
        };
        let surplus = match checked_surplus(deposits, self.payouts) {
            Some(net) => net,
            None => {
                return Err(ContractError::ArithmeticOverflow);
            },
        };
        *self = ProfitabilityTracker { deposits, payouts: self.payouts, surplus };
        Ok(())
    }

    /// Counts a payout of `amount`.
    ///
    /// Refused, with nothing changed, where the new total leaves `u128` or the new
    /// surplus leaves `i128`.
    pub fn add_payout(&mut self, amount: u128) -> (outcome: Result<(), ContractError>)
        ensures
            outcome is Ok <==> old(self).payouts() + amount <= u128::MAX && surplus_fits(
                old(self).deposits(),
                (old(self).payouts() + amount) as u128,
            ),
            outcome is Ok ==> final(self).payouts() == old(self).payouts() + amount
                && final(self).deposits() == old(self).deposits() && final(self).surplus()
                == surplus_of(final(self).deposits(), final(self).payouts()),
            outcome is Err ==> outcome == Err::<(), ContractError>(
                ContractError::ArithmeticOverflow,
            ) && *final(self) == *old(self),
    {
        let payouts = match self.payouts.checked_add(amount) {
            Some(total) => total,
            None => {
                return Err(ContractError::ArithmeticOverflow);
            },
        };
        let surplus = match checked_surplus(self.deposits, payouts) {
            Some(net) => net,
            None => {
                return Err(ContractError::ArithmeticOverflow);
            },
        };
        *self = ProfitabilityTracker { deposits: self.deposits, payouts, surplus };
        Ok(())
    }

    /// Total deposits so far.
    pub fn total_deposits(&self) -> (total: u128)
        ensures
            total == self.deposits(),
    {
        self.deposits
    }

    /// Total payouts so far.
    pub fn total_payouts(&self) -> (total: u128)
        ensures
            total == self.payouts(),
    {
        self.payouts
    }

    /// Deposits less payouts; negative when more was paid out than came in.
    pub fn net_surplus(&self) -> (net: i128)
        ensures
            net == self.surplus(),
            net == surplus_of(self.deposits(), self.payouts()),
    {
        proof {
            use_type_invariant(&*self);
        }
        self.surplus
    }

    /// The three figures, as one value to publish.
    pub fn snapshot(&self) -> (figures: DailySnapshot)
        ensures
            figures == (DailySnapshot {
                total_deposits: self.deposits(),
                total_payouts: self.payouts(),
                net_surplus: self.surplus(),
            }),
    {
        DailySnapshot {
            total_deposits: self.total_deposits(),
            total_payouts: self.total_payouts(),
            net_surplus: self.net_surplus(),
        }
    }
}

} // verus!
