use drip_contracts::address::Address;
use drip_contracts::arith::checked_percent;
use drip_contracts::error::ContractError;
use drip_contracts::treasury_allocation::{AllocationRatios, Reallocation, TreasuryAllocation};

#[test]
fn test_rebalance() {
    let admin = Address::account([0xad; 32]);
    let mut treasury = TreasuryAllocation::new();

    treasury.init(admin, 1000);

    // Rebalance
    treasury.rebalance(&admin).unwrap();

    let betting = treasury.get_pool_balance("betting_pool").unwrap();
    let spin = treasury.get_pool_balance("spin_rewards").unwrap();
    let staking = treasury.get_pool_balance("staking_rewards").unwrap();
    let emergency = treasury.get_pool_balance("emergency_reserve").unwrap();

    assert_eq!(betting, 400);
    assert_eq!(spin, 300);
    assert_eq!(staking, 200);
    assert_eq!(emergency, 100);

    // Update ratios and rebalance again
    treasury
        .update_ratios(
            &admin,
            AllocationRatios {
                betting_pool: 25,
                spin_rewards: 25,
                staking_rewards: 25,
                emergency_reserve: 25,
            },
        )
        .unwrap();

    treasury.rebalance(&admin).unwrap();

    let betting = treasury.get_pool_balance("betting_pool").unwrap();
    assert_eq!(betting, 250);
}

#[test]
fn rebalance_returns_what_it_set() {
    let admin = Address::account([0xad; 32]);
    let mut treasury = TreasuryAllocation::new();
    treasury.init(admin, 999);
    assert_eq!(
        treasury.rebalance(&admin),
        Ok(Reallocation {
            betting_pool: 399,
            spin_rewards: 299,
            staking_rewards: 199,
            emergency_reserve: 99,
        })
    );
}

#[test]
fn pools_are_empty_after_init() {
    let admin = Address::account([0xad; 32]);
    let mut treasury = TreasuryAllocation::new();
    treasury.init(admin, 1000);
    assert_eq!(treasury.get_pool_balance("betting_pool"), Ok(0));
    assert_eq!(treasury.get_pool_balance("emergency_reserve"), Ok(0));
}

#[test]
fn only_the_admin_rebalances() {
    let admin = Address::account([0xad; 32]);
    let stranger = Address::account([0x01; 32]);
    let mut treasury = TreasuryAllocation::new();
    treasury.init(admin, 1000);
    assert_eq!(treasury.rebalance(&stranger), Err(ContractError::Unauthorized));
    assert_eq!(treasury.get_pool_balance("betting_pool"), Ok(0));
}

#[test]
fn only_the_admin_updates_ratios() {
    let admin = Address::account([0xad; 32]);
    let stranger = Address::account([0x01; 32]);
    let mut treasury = TreasuryAllocation::new();
    treasury.init(admin, 1000);
    let even = AllocationRatios {
        betting_pool: 25,
        spin_rewards: 25,
        staking_rewards: 25,
        emergency_reserve: 25,
    };
    assert_eq!(treasury.update_ratios(&stranger, even), Err(ContractError::Unauthorized));
    treasury.rebalance(&admin).unwrap();
    assert_eq!(treasury.get_pool_balance("betting_pool"), Ok(400));
}

#[test]
fn ratios_must_sum_to_one_hundred() {
    let admin = Address::account([0xad; 32]);
    let mut treasury = TreasuryAllocation::new();
    treasury.init(admin, 1000);
    let short = AllocationRatios {
        betting_pool: 25,
        spin_rewards: 25,
        staking_rewards: 25,
        emergency_reserve: 24,
    };
    assert!(!short.is_complete());
    assert_eq!(treasury.update_ratios(&admin, short), Err(ContractError::InvalidArgument));
    let wrapping = AllocationRatios {
        betting_pool: u32::MAX,
        spin_rewards: u32::MAX,
        staking_rewards: 102,
        emergency_reserve: 0,
    };
    assert_eq!(treasury.update_ratios(&admin, wrapping), Err(ContractError::InvalidArgument));
}

#[test]
fn treasury_must_be_set_up() {
    let anyone = Address::account([0x01; 32]);
    let mut treasury = TreasuryAllocation::new();
    assert_eq!(treasury.rebalance(&anyone), Err(ContractError::NotInitialized));
    assert_eq!(treasury.get_pool_balance("betting_pool"), Err(ContractError::NotInitialized));
    let even = AllocationRatios {
        betting_pool: 25,
        spin_rewards: 25,
        staking_rewards: 25,
        emergency_reserve: 25,
    };
    assert_eq!(treasury.update_ratios(&anyone, even), Err(ContractError::NotInitialized));
}

#[test]
fn unknown_pool_is_refused() {
    let admin = Address::account([0xad; 32]);
    let mut treasury = TreasuryAllocation::new();
    treasury.init(admin, 1000);
    assert_eq!(treasury.get_pool_balance("jackpot"), Err(ContractError::InvalidArgument));
}

#[test]
fn rebalance_overflow_is_refused_and_changes_nothing() {
    let admin = Address::account([0xad; 32]);
    let mut treasury = TreasuryAllocation::new();
    treasury.init(admin, 1000);
    treasury.rebalance(&admin).unwrap();
    treasury.init(admin, i128::MAX);
    assert_eq!(treasury.rebalance(&admin), Err(ContractError::ArithmeticOverflow));
    assert_eq!(treasury.get_pool_balance("betting_pool"), Ok(0));
}

#[test]
fn negative_reserve_rounds_toward_zero() {
    let admin = Address::account([0xad; 32]);
    let mut treasury = TreasuryAllocation::new();
    treasury.init(admin, -999);
    assert_eq!(
        treasury.rebalance(&admin),
        Ok(Reallocation {
            betting_pool: -399,
            spin_rewards: -299,
            staking_rewards: -199,
            emergency_reserve: -99,
        })
    );
}

#[test]
fn checked_percent_rounds_toward_zero() {
    assert_eq!(checked_percent(1000, 40), Some(400));
    assert_eq!(checked_percent(199, 50), Some(99));
    assert_eq!(checked_percent(-199, 50), Some(-99));
    assert_eq!(checked_percent(0, 50), Some(0));
    assert_eq!(checked_percent(-5, 0), Some(0));
    assert_eq!(checked_percent(i128::MAX, 1), Some(i128::MAX / 100));
    assert_eq!(checked_percent(i128::MAX, 2), None);
    assert_eq!(checked_percent(i128::MIN, 1), Some(i128::MIN / 100));
    assert_eq!(checked_percent(i128::MIN, 2), None);
}
