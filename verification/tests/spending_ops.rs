use multisig_wallet::spending::{
    is_within_spending_limit, set_spending_limit, update_spending_limit, SECONDS_PER_DAY,
    SECONDS_PER_MONTH,
};

#[test]
fn set_limit_resets_counters_and_markers() {
    let lim = set_spending_limit(100, 1000, 100000);
    assert_eq!(lim.daily_limit, 100);
    assert_eq!(lim.monthly_limit, 1000);
    assert_eq!(lim.daily_spent, 0);
    assert_eq!(lim.monthly_spent, 0);
    // 100000 seconds is one whole day and no whole thirty-day month.
    assert_eq!(lim.last_reset_day, 1);
    assert_eq!(lim.last_reset_month, 0);
}

#[test]
fn zero_limits_always_fit() {
    let lim = set_spending_limit(0, 0, 0);
    assert!(is_within_spending_limit(&lim, u64::MAX, 0));
}

#[test]
fn within_limit_boundary_is_inclusive() {
    let mut lim = set_spending_limit(100, 1000, 0);
    assert!(is_within_spending_limit(&lim, 100, 0));
    assert!(!is_within_spending_limit(&lim, 101, 0));
    assert!(update_spending_limit(&mut lim, 60, 0));
    assert!(is_within_spending_limit(&lim, 40, 0));
    assert!(!is_within_spending_limit(&lim, 41, 0));
}

#[test]
fn reserve_adds_to_both_counters() {
    let mut lim = set_spending_limit(100, 1000, 0);
    assert!(update_spending_limit(&mut lim, 60, 0));
    assert_eq!(lim.daily_spent, 60);
    assert_eq!(lim.monthly_spent, 60);
    assert!(lim.daily_spent <= lim.daily_limit);
    assert!(lim.monthly_spent <= lim.monthly_limit);
}

#[test]
fn failed_reserve_leaves_counters() {
    let mut lim = set_spending_limit(100, 1000, 0);
    assert!(update_spending_limit(&mut lim, 60, 0));
    assert!(!update_spending_limit(&mut lim, 50, 0));
    assert_eq!(lim.daily_spent, 60);
    assert_eq!(lim.monthly_spent, 60);
}

#[test]
fn monthly_cap_binds_across_days() {
    let mut lim = set_spending_limit(100, 150, 0);
    assert!(update_spending_limit(&mut lim, 100, 0));
    assert!(!update_spending_limit(&mut lim, 100, SECONDS_PER_DAY));
    assert_eq!(lim.daily_spent, 0); // the day rolled over
    assert_eq!(lim.monthly_spent, 100); // the month did not
}

#[test]
fn day_rollover_zeroes_only_the_daily_counter() {
    let mut lim = set_spending_limit(100, 1000, 0);
    assert!(update_spending_limit(&mut lim, 60, 0));
    assert!(update_spending_limit(&mut lim, 60, SECONDS_PER_DAY));
    assert_eq!(lim.daily_spent, 60);
    assert_eq!(lim.monthly_spent, 120);
    assert_eq!(lim.last_reset_day, 1);
    assert_eq!(lim.last_reset_month, 0);
}

#[test]
fn month_rollover_zeroes_both_counters() {
    let mut lim = set_spending_limit(100, 1000, 0);
    assert!(update_spending_limit(&mut lim, 60, 0));
    assert!(update_spending_limit(&mut lim, 70, SECONDS_PER_MONTH));
    assert_eq!(lim.daily_spent, 70);
    assert_eq!(lim.monthly_spent, 70);
    assert_eq!(lim.last_reset_day, 30);
    assert_eq!(lim.last_reset_month, 1);
}

#[test]
fn unconfigured_counter_saturates() {
    let mut lim = set_spending_limit(0, 0, 0);
    assert!(update_spending_limit(&mut lim, u64::MAX, 0));
    assert!(update_spending_limit(&mut lim, 5, 0));
    assert_eq!(lim.daily_spent, u64::MAX);
    assert_eq!(lim.monthly_spent, u64::MAX);
}

#[test]
fn counters_never_exceed_caps_after_successful_reservations() {
    let mut lim = set_spending_limit(100, 250, 0);
    let mut day: i64 = 0;
    while day < 5 {
        let now = day * SECONDS_PER_DAY;
        let mut step: u64 = 0;
        while step < 4 {
            let ok = update_spending_limit(&mut lim, 40, now);
            if ok {
                assert!(lim.daily_spent <= lim.daily_limit);
                assert!(lim.monthly_spent <= lim.monthly_limit);
            }
            step += 1;
        }
        day += 1;
    }
    // Two days of 80 fit under the monthly cap of 250, the third does
    // not fit whole.
    assert_eq!(lim.monthly_spent, 240);
}
