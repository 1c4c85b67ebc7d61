use lyvoxa::net_rate::NetworkRateTracker;

#[test]
fn first_call_returns_zero_rates() {
    let mut t = NetworkRateTracker::new();
    let r = t.sample_rate(1_000, 5_000, 7_000);
    assert_eq!(r, (0, 0));
}

#[test]
fn steady_traffic_yields_exact_rate() {
    let mut t = NetworkRateTracker::new();
    t.sample_rate(1_000, 1_000, 2_000);
    // 2000 bytes received and 4000 sent over one second
    let r = t.sample_rate(2_000, 3_000, 6_000);
    assert_eq!(r, (2_000, 4_000));
}

#[test]
fn rate_is_scaled_to_seconds() {
    let mut t = NetworkRateTracker::new();
    t.sample_rate(0, 0, 0);
    // 500 bytes over 250 ms is 2000 bytes per second
    let r = t.sample_rate(250, 500, 0);
    assert_eq!(r.0, 2_000);
    assert_eq!(r.1, 0);
}

#[test]
fn counter_reset_yields_zero_not_negative() {
    let mut t = NetworkRateTracker::new();
    t.sample_rate(1_000, 9_000, 9_000);
    // both counters went backwards, as after an interface reset
    let r = t.sample_rate(2_000, 100, 50);
    assert_eq!(r, (0, 0));
}

#[test]
fn zero_elapsed_time_is_floored_to_one_millisecond() {
    let mut t = NetworkRateTracker::new();
    t.sample_rate(1_000, 0, 0);
    // same timestamp: delta over 1 ms, not a division by zero
    let r = t.sample_rate(1_000, 300, 0);
    assert_eq!(r.0, 300_000);
}

#[test]
fn only_one_prior_sample_is_retained() {
    let mut t = NetworkRateTracker::new();
    t.sample_rate(0, 0, 0);
    t.sample_rate(1_000, 1_000, 0);
    // the rate is measured against the second sample, not the first
    let r = t.sample_rate(2_000, 1_500, 0);
    assert_eq!(r.0, 500);
}
