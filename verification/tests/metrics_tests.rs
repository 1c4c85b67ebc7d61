use lyvoxa::metrics::{HostSnapshot, IfaceCounters, MetricHistory, sum_counters};

fn iface(name: &str, rx: u64, tx: u64) -> IfaceCounters {
    IfaceCounters { name: name.to_string(), recv_bytes: rx, sent_bytes: tx }
}

#[test]
fn counters_sum_across_interfaces_skipping_loopback() {
    let ifaces = vec![
        iface("eth0", 1_000, 10),
        iface("lo", 999_999, 999_999),
        iface("wlan0", 500, 20),
    ];
    assert_eq!(sum_counters(&ifaces), (1_500, 30));
}

#[test]
fn counter_sum_saturates_instead_of_wrapping() {
    let ifaces = vec![iface("eth0", u64::MAX, 0), iface("wlan0", 10, 0)];
    assert_eq!(sum_counters(&ifaces).0, u64::MAX);
}

#[test]
fn empty_interface_list_sums_to_zero() {
    assert_eq!(sum_counters(&Vec::new()), (0, 0));
}

#[test]
fn snapshot_percentages_are_clamped_into_range() {
    let s = HostSnapshot::new(250_000, vec![30_000, 120_000], 1, 2);
    assert_eq!(s.global_cpu_milli_percent, 100_000);
    assert_eq!(s.per_core_milli_percent, vec![30_000, 100_000]);
}

#[test]
fn snapshot_memory_share_is_exact() {
    let s = HostSnapshot::new(0, Vec::new(), 1 << 30, 4 << 30);
    assert_eq!(s.mem_milli_percent(), 25_000);
    let none = HostSnapshot::new(0, Vec::new(), 5, 0);
    assert_eq!(none.mem_milli_percent(), 0);
}

#[test]
fn history_drops_oldest_once_full() {
    let mut h = MetricHistory::new(3);
    h.push(1);
    h.push(2);
    h.push(3);
    assert_eq!(h.data, vec![1, 2, 3]);
    h.push(4);
    assert_eq!(h.data, vec![2, 3, 4]);
    assert_eq!(h.latest(), Some(4));
}

#[test]
fn empty_history_has_no_latest_sample() {
    let h = MetricHistory::new(5);
    assert_eq!(h.latest(), None);
}
