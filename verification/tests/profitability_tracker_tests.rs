use drip_contracts::error::ContractError;
use drip_contracts::profitability_tracker::{checked_surplus, DailySnapshot, ProfitabilityTracker};

#[test]
fn test_profitability_counters() {
    let mut tracker = ProfitabilityTracker::new();
    tracker.init();

    tracker.add_deposit(1000).unwrap();
    tracker.add_payout(300).unwrap();

    let deposits = tracker.total_deposits();
    let payouts = tracker.total_payouts();
    let net = tracker.net_surplus();

    assert_eq!(deposits, 1000);
    assert_eq!(payouts, 300);
    assert_eq!(net, 700);

    // Test snapshot emits
    assert_eq!(
        tracker.snapshot(),
        DailySnapshot { total_deposits: 1000, total_payouts: 300, net_surplus: 700 }
    );
}

#[test]
fn surplus_goes_negative_when_more_is_paid_out() {
    let mut tracker = ProfitabilityTracker::new();
    tracker.add_deposit(10).unwrap();
    tracker.add_payout(25).unwrap();
    assert_eq!(tracker.net_surplus(), -15);
}

#[test]
fn init_resets_the_counters() {
    let mut tracker = ProfitabilityTracker::new();
    tracker.add_deposit(10).unwrap();
    tracker.add_payout(4).unwrap();
    tracker.init();
    assert_eq!(tracker.total_deposits(), 0);
    assert_eq!(tracker.total_payouts(), 0);
    assert_eq!(tracker.net_surplus(), 0);
}

#[test]
fn deposit_overflow_is_refused_and_changes_nothing() {
    let mut tracker = ProfitabilityTracker::new();
    tracker.add_deposit(5).unwrap();
    assert_eq!(tracker.add_deposit(u128::MAX), Err(ContractError::ArithmeticOverflow));
    assert_eq!(tracker.total_deposits(), 5);
    assert_eq!(tracker.net_surplus(), 5);
}

#[test]
fn surplus_out_of_range_is_refused_and_changes_nothing() {
    let mut tracker = ProfitabilityTracker::new();
    assert_eq!(
        tracker.add_deposit(i128::MAX as u128 + 1),
        Err(ContractError::ArithmeticOverflow)
    );
    assert_eq!(tracker.total_deposits(), 0);
    tracker.add_deposit(i128::MAX as u128).unwrap();
    assert_eq!(tracker.net_surplus(), i128::MAX);
    assert_eq!(tracker.add_deposit(1), Err(ContractError::ArithmeticOverflow));
    tracker.add_payout(1).unwrap();
    tracker.add_deposit(1).unwrap();
    assert_eq!(tracker.net_surplus(), i128::MAX);
}

#[test]
fn checked_surplus_covers_the_whole_range() {
    assert_eq!(checked_surplus(0, 0), Some(0));
    assert_eq!(checked_surplus(7, 9), Some(-2));
    assert_eq!(checked_surplus(i128::MAX as u128, 0), Some(i128::MAX));
    assert_eq!(checked_surplus(i128::MAX as u128 + 1, 0), None);
    assert_eq!(checked_surplus(0, i128::MAX as u128 + 1), Some(i128::MIN));
    assert_eq!(checked_surplus(0, i128::MAX as u128 + 2), None);
    assert_eq!(checked_surplus(u128::MAX, u128::MAX - 3), Some(3));
}
