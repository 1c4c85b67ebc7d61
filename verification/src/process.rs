//! Per-process records: assembling one record from the raw values the
//! operating system reports, with best-effort defaults where a detail
//! read failed so a disappearing process never drops out of a sample.

use vstd::prelude::*;

verus! {

/// One process in a sample. Identity is tracked only by pid within a
/// cycle; a fresh set of records replaces the old one wholesale.
/// Percentages are carried in thousandths of a percent so they stay
/// exact integers.
#[derive(Debug, Clone)]
pub struct ProcessRecord {
    pub pid: u32,
    pub ppid: Option<u32>,
    pub user: String,
    pub command: String,
    pub cpu_milli_percent: u32,
    pub mem_bytes: u64,
    pub mem_milli_percent: u32,
    pub virt: u64,
    pub res: u64,
    pub shr: u64,
    pub state: char,
    pub nice: i64,
    pub priority: i64,
    pub time_total_secs: u64,
}

/// Fields of the per-process stat row, as plain values.
#[derive(Debug, Clone, Copy, PartialEq, Eq, Structural)]
pub struct StatData {
    pub ppid: u32,
    pub nice: i64,
    pub priority: i64,
    pub state: char,
    pub utime_ticks: u64,
    pub stime_ticks: u64,
    pub vsize_bytes: u64,
}

/// Fields of the per-process memory-map summary, in native page counts.
#[derive(Debug, Clone, Copy, PartialEq, Eq, Structural)]
pub struct StatmData {
    pub size_pages: u64,
    pub resident_pages: u64,
    pub shared_pages: u64,
}

/// Everything the operating system reported about one process: a fast
/// wide-coverage read plus optional slower detail reads, each absent
/// when the process vanished between reads.
#[derive(Debug, Clone)]
pub struct RawProcessSample {
    pub pid: u32,
    pub coarse_mem_kb: u64,
    pub cpu_milli_percent: u32,
    pub fallback_command: String,
    pub detailed_command: Option<String>,
    pub owner: Option<String>,
    pub stat: Option<StatData>,
    pub statm: Option<StatmData>,
    pub ticks_per_second: u64,
    pub page_size: u64,
    pub total_memory_bytes: u64,
}

/// Sum clamped at the largest representable value.
pub open spec fn sat_add_u64(a: u64, b: u64) -> u64 {
    if a + b > u64::MAX {
        u64::MAX
    } else {
        (a + b) as u64
    }
}

/// Product clamped at the largest representable value.
pub open spec fn sat_mul_u64(a: u64, b: u64) -> u64 {
    if a * b > u64::MAX {
        u64::MAX
    } else {
        (a * b) as u64
    }
}

/// Cumulative CPU seconds from user and system tick counts at a given
/// tick rate; zero when the tick rate is unknown.
pub open spec fn cpu_seconds(utime_ticks: u64, stime_ticks: u64, ticks_per_second: u64) -> u64 {
    if ticks_per_second == 0 {
        0
    } else {
        (sat_add_u64(utime_ticks, stime_ticks) / ticks_per_second) as u64
    }
}

/// Memory share in thousandths of a percent, clamped to 100%; zero when
/// the total is unknown.
pub open spec fn milli_percent_of(part: u64, total: u64) -> u32 {
    if total == 0 {
        0
    } else {
        let m: int = part * 100_000 / total as int;
        if m > 100_000 {
            100_000
        } else {
            m as u32
        }
    }
}

pub fn sat_add_u64_exec(a: u64, b: u64) -> (r: u64)
    ensures
        r == sat_add_u64(a, b),
{
    if a <= u64::MAX - b {
        a + b
    } else {
        u64::MAX
    }
}

pub fn sat_mul_u64_exec(a: u64, b: u64) -> (r: u64)
    ensures
        r == sat_mul_u64(a, b),
{
    proof {
        assert((a as int) * (b as int) <= (u64::MAX as int) * (u64::MAX as int))
            by (nonlinear_arith)
            requires
                a <= u64::MAX,
                b <= u64::MAX,
        ;
    }
    let wide: u128 = (a as u128) * (b as u128);
    if wide > u64::MAX as u128 {
        u64::MAX
    } else {
        wide as u64
    }
}

pub fn cpu_seconds_exec(utime_ticks: u64, stime_ticks: u64, ticks_per_second: u64) -> (r: u64)
    ensures
        r == cpu_seconds(utime_ticks, stime_ticks, ticks_per_second),
{
    if ticks_per_second == 0 {
        0
    } else {
        sat_add_u64_exec(utime_ticks, stime_ticks) / ticks_per_second
    }
}

pub fn milli_percent_of_exec(part: u64, total: u64) -> (r: u32)
    ensures
        r == milli_percent_of(part, total),
{
    if total == 0 {
        0
    } else {
        let wide: u128 = (part as u128) * 100_000 / (total as u128);
        if wide > 100_000 {
            100_000
        } else {
            wide as u32
        }
    }
}

/// Resident bytes of a record: the page-accurate reading when present,
/// else the coarse kilobyte reading normalized to bytes.
pub open spec fn resident_bytes_of(raw: RawProcessSample) -> u64 {
    match raw.statm {
        Some(m) => sat_mul_u64(m.resident_pages, raw.page_size),
        None => sat_mul_u64(raw.coarse_mem_kb, 1024),
    }
}

/// Virtual bytes of a record: page-accurate when present, else the stat
/// row's virtual size, else zero.
pub open spec fn virtual_bytes_of(raw: RawProcessSample) -> u64 {
    match raw.statm {
        Some(m) => sat_mul_u64(m.size_pages, raw.page_size),
        None => match raw.stat {
            Some(s) => s.vsize_bytes,
            None => 0,
        },
    }
}

/// Shared bytes of a record: page-accurate when present, else zero.
pub open spec fn shared_bytes_of(raw: RawProcessSample) -> u64 {
    match raw.statm {
        Some(m) => sat_mul_u64(m.shared_pages, raw.page_size),
        None => 0,
    }
}

/// Assemble one process record from the raw readings. Every detail read
/// is best effort: a missing stat or statm row falls back to defaults
/// instead of dropping the record.
pub fn build_record(raw: RawProcessSample) -> (r: ProcessRecord)
    ensures
        r.pid == raw.pid,
        r.cpu_milli_percent == raw.cpu_milli_percent,
        raw.stat matches Some(s) ==> {
            &&& r.ppid == Some(s.ppid)
            &&& r.nice == s.nice
            &&& r.priority == s.priority
            &&& r.state == s.state
            &&& r.time_total_secs == cpu_seconds(
                s.utime_ticks,
                s.stime_ticks,
                raw.ticks_per_second,
            )
        },
        raw.stat is None ==> {
            &&& r.ppid is None
            &&& r.nice == 0
            &&& r.priority == 0
            &&& r.state == 'S'
            &&& r.time_total_secs == 0
        },
        r.res == resident_bytes_of(raw),
        r.virt == virtual_bytes_of(raw),
        r.shr == shared_bytes_of(raw),
        r.mem_bytes == r.res,
        r.mem_milli_percent == milli_percent_of(r.res, raw.total_memory_bytes),
        raw.detailed_command matches Some(c) ==> r.command == c,
        raw.detailed_command is None ==> r.command == raw.fallback_command,
        raw.owner matches Some(u) ==> r.user == u,
        raw.owner is None ==> r.user@ == "unknown"@,
{
    let mut ppid: Option<u32> = None;
    let mut nice: i64 = 0;
    let mut priority: i64 = 0;
    let mut state: char = 'S';
    let mut time_total_secs: u64 = 0;
    let mut virt: u64 = 0;
    let mut res: u64 = sat_mul_u64_exec(raw.coarse_mem_kb, 1024);
    let mut shr: u64 = 0;

    match &raw.stat {
        Some(s) => {
            ppid = Some(s.ppid);
            nice = s.nice;
            priority = s.priority;
            state = s.state;
            time_total_secs = cpu_seconds_exec(s.utime_ticks, s.stime_ticks, raw.ticks_per_second);
            virt = s.vsize_bytes;
        },
        None => {},
    }
    match &raw.statm {
        Some(m) => {
            virt = sat_mul_u64_exec(m.size_pages, raw.page_size);
            res = sat_mul_u64_exec(m.resident_pages, raw.page_size);
            shr = sat_mul_u64_exec(m.shared_pages, raw.page_size);
        },
        None => {},
    }

    let command = match raw.detailed_command {
        Some(c) => c,
        None => raw.fallback_command,
    };
    let user = match raw.owner {
        Some(u) => u,
        None => "unknown".to_owned(),
    };
    let mem_milli_percent = milli_percent_of_exec(res, raw.total_memory_bytes);

    ProcessRecord {
        pid: raw.pid,
        ppid,
        user,
        command,
        cpu_milli_percent: raw.cpu_milli_percent,
        mem_bytes: res,
        mem_milli_percent,
        virt,
        res,
        shr,
        state,
        nice,
        priority,
        time_total_secs,
    }
}

} // verus!
