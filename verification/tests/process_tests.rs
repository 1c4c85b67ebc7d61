use lyvoxa::process::{
    build_record, cpu_seconds_exec, milli_percent_of_exec, sat_add_u64_exec, sat_mul_u64_exec,
    RawProcessSample, StatData, StatmData,
};

fn raw(pid: u32) -> RawProcessSample {
    RawProcessSample {
        pid,
        coarse_mem_kb: 0,
        cpu_milli_percent: 0,
        fallback_command: "fallback".to_string(),
        detailed_command: None,
        owner: None,
        stat: None,
        statm: None,
        ticks_per_second: 100,
        page_size: 4096,
        total_memory_bytes: 0,
    }
}

#[test]
fn missing_detail_reads_fall_back_to_defaults() {
    let r = build_record(raw(42));
    assert_eq!(r.pid, 42);
    assert_eq!(r.ppid, None);
    assert_eq!(r.user, "unknown");
    assert_eq!(r.command, "fallback");
    assert_eq!(r.nice, 0);
    assert_eq!(r.priority, 0);
    assert_eq!(r.state, 'S');
    assert_eq!(r.time_total_secs, 0);
    assert_eq!(r.virt, 0);
    assert_eq!(r.shr, 0);
}

#[test]
fn stat_row_fills_scheduling_and_time_fields() {
    let mut sample = raw(7);
    sample.stat = Some(StatData {
        ppid: 1,
        nice: -5,
        priority: 15,
        state: 'R',
        utime_ticks: 150,
        stime_ticks: 151,
        vsize_bytes: 123_456,
    });
    let r = build_record(sample);
    assert_eq!(r.ppid, Some(1));
    assert_eq!(r.nice, -5);
    assert_eq!(r.priority, 15);
    assert_eq!(r.state, 'R');
    // (150 + 151) ticks at 100 ticks per second is 3 whole seconds
    assert_eq!(r.time_total_secs, 3);
    assert_eq!(r.virt, 123_456);
}

#[test]
fn statm_pages_are_normalized_to_bytes() {
    let mut sample = raw(7);
    sample.coarse_mem_kb = 10;
    sample.statm = Some(StatmData { size_pages: 100, resident_pages: 25, shared_pages: 4 });
    let r = build_record(sample);
    assert_eq!(r.virt, 100 * 4096);
    assert_eq!(r.res, 25 * 4096);
    assert_eq!(r.shr, 4 * 4096);
    assert_eq!(r.mem_bytes, 25 * 4096);
}

#[test]
fn coarse_memory_is_kilobytes_when_no_statm() {
    let mut sample = raw(7);
    sample.coarse_mem_kb = 10;
    let r = build_record(sample);
    assert_eq!(r.res, 10 * 1024);
    assert_eq!(r.mem_bytes, 10 * 1024);
}

#[test]
fn detailed_command_and_owner_take_precedence() {
    let mut sample = raw(7);
    sample.detailed_command = Some("/usr/bin/thing --flag".to_string());
    sample.owner = Some("kim".to_string());
    let r = build_record(sample);
    assert_eq!(r.command, "/usr/bin/thing --flag");
    assert_eq!(r.user, "kim");
}

#[test]
fn memory_share_is_exact_and_clamped() {
    // one gigabyte of four is exactly 25%
    assert_eq!(milli_percent_of_exec(1 << 30, 4 << 30), 25_000);
    assert_eq!(milli_percent_of_exec(1, 0), 0);
    assert_eq!(milli_percent_of_exec(200, 100), 100_000);
}

#[test]
fn tick_conversion_handles_unknown_rate() {
    assert_eq!(cpu_seconds_exec(500, 500, 100), 10);
    assert_eq!(cpu_seconds_exec(500, 500, 0), 0);
}

#[test]
fn saturating_arithmetic_clamps_at_max() {
    assert_eq!(sat_add_u64_exec(u64::MAX - 1, 5), u64::MAX);
    assert_eq!(sat_add_u64_exec(2, 3), 5);
    assert_eq!(sat_mul_u64_exec(u64::MAX / 2, 3), u64::MAX);
    assert_eq!(sat_mul_u64_exec(6, 7), 42);
}
