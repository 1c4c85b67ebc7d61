//! Host-wide metrics: the immutable snapshot replaced wholesale each
//! sample, the summation of interface counters, and the bounded metric
//! histories the charts read.

use vstd::prelude::*;
use crate::process::{milli_percent_of, milli_percent_of_exec, sat_add_u64, sat_add_u64_exec};

verus! {

/// Host-wide resource state at one instant. Percentages are carried in
/// thousandths of a percent and never exceed 100%.
#[derive(Debug, Clone)]
pub struct HostSnapshot {
    pub global_cpu_milli_percent: u32,
    pub per_core_milli_percent: Vec<u32>,
    pub used_memory_bytes: u64,
    pub total_memory_bytes: u64,
}

pub open spec fn host_snapshot_wf(s: HostSnapshot) -> bool {
    &&& s.global_cpu_milli_percent <= 100_000
    &&& forall|i: int|
        0 <= i < s.per_core_milli_percent@.len() ==> s.per_core_milli_percent@[i] <= 100_000
}

pub open spec fn clamp_milli(v: u32) -> u32 {
    if v > 100_000 {
        100_000
    } else {
        v
    }
}

impl HostSnapshot {
    /// Build a snapshot from raw readings, clamping every percentage
    /// into range.
    pub fn new(cpu_milli: u32, per_core_milli: Vec<u32>, used: u64, total: u64) -> (s: HostSnapshot)
        ensures
            host_snapshot_wf(s),
            s.global_cpu_milli_percent == clamp_milli(cpu_milli),
            s.per_core_milli_percent@.len() == per_core_milli@.len(),
            forall|i: int|
                0 <= i < per_core_milli@.len() ==> s.per_core_milli_percent@[i] == clamp_milli(
                    per_core_milli@[i],
                ),
            s.used_memory_bytes == used,
            s.total_memory_bytes == total,
    {
        let mut cores: Vec<u32> = Vec::new();
        let mut i: usize = 0;
        while i < per_core_milli.len()
            invariant
                i <= per_core_milli@.len(),
                cores@.len() == i,
                forall|j: int| 0 <= j < i ==> cores@[j] == clamp_milli(per_core_milli@[j]),
            decreases per_core_milli@.len() - i,
        {
            let v = per_core_milli[i];
            cores.push(if v > 100_000 {
                100_000
            } else {
                v
            });
            i += 1;
        }
        HostSnapshot {
            global_cpu_milli_percent: if cpu_milli > 100_000 {
                100_000
            } else {
                cpu_milli
            },
            per_core_milli_percent: cores,
            used_memory_bytes: used,
            total_memory_bytes: total,
        }
    }

    /// Memory use as a share of the total, in thousandths of a percent.
    pub fn mem_milli_percent(&self) -> (r: u32)
        ensures
            r == milli_percent_of(self.used_memory_bytes, self.total_memory_bytes),
    {
        milli_percent_of_exec(self.used_memory_bytes, self.total_memory_bytes)
    }
}

/// The cumulative byte counters one interface reports.
#[derive(Debug, Clone)]
pub struct IfaceCounters {
    pub name: String,
    pub recv_bytes: u64,
    pub sent_bytes: u64,
}

/// Received bytes summed over every interface but the loopback, each
/// addition clamped rather than wrapped.
pub open spec fn rx_sum(s: Seq<IfaceCounters>) -> u64
    decreases s.len(),
{
    if s.len() == 0 {
        0
    } else {
        sat_add_u64(
            rx_sum(s.drop_last()),
            if s.last().name@ == "lo"@ {
                0
            } else {
                s.last().recv_bytes
            },
        )
    }
}

/// Sent bytes summed the same way.
pub open spec fn tx_sum(s: Seq<IfaceCounters>) -> u64
    decreases s.len(),
{
    if s.len() == 0 {
        0
    } else {
        sat_add_u64(
            tx_sum(s.drop_last()),
            if s.last().name@ == "lo"@ {
                0
            } else {
                s.last().sent_bytes
            },
        )
    }
}

/// Sum the cumulative counters across all interfaces except loopback.
pub fn sum_counters(ifaces: &Vec<IfaceCounters>) -> (r: (u64, u64))
    ensures
        r.0 == rx_sum(ifaces@),
        r.1 == tx_sum(ifaces@),
{
    let lo: String = "lo".to_owned();
    let mut rx: u64 = 0;
    let mut tx: u64 = 0;
    let mut i: usize = 0;
    while i < ifaces.len()
        invariant
            lo@ == "lo"@,
            i <= ifaces@.len(),
            rx == rx_sum(ifaces@.take(i as int)),
            tx == tx_sum(ifaces@.take(i as int)),
        decreases ifaces@.len() - i,
    {
        let skip_this = ifaces[i].name == lo;
        let add_rx = if skip_this {
            0
        } else {
            ifaces[i].recv_bytes
        };
        let add_tx = if skip_this {
            0
        } else {
            ifaces[i].sent_bytes
        };
        rx = sat_add_u64_exec(rx, add_rx);
        tx = sat_add_u64_exec(tx, add_tx);
        proof {
            let whole = ifaces@.take(i as int + 1);
            assert(whole.drop_last() =~= ifaces@.take(i as int));
            assert(whole.last() == ifaces@[i as int]);
        }
        i += 1;
    }
    assert(ifaces@.take(ifaces@.len() as int) =~= ifaces@);
    (rx, tx)
}

/// A bounded history of one metric: the newest sample goes on the end,
/// and the oldest falls off once the capacity is reached.
#[derive(Debug, Clone)]
pub struct MetricHistory {
    pub data: Vec<u64>,
    pub cap: usize,
}

pub open spec fn history_wf(h: MetricHistory) -> bool {
    h.cap >= 1 && h.data@.len() <= h.cap
}

impl MetricHistory {
    pub fn new(cap: usize) -> (h: MetricHistory)
        requires
            cap >= 1,
        ensures
            history_wf(h),
            h.data@ == Seq::<u64>::empty(),
            h.cap == cap,
    {
        MetricHistory { data: Vec::new(), cap }
    }

    /// Append one sample, dropping the oldest when full.
    pub fn push(&mut self, v: u64)
        requires
            history_wf(*old(self)),
        ensures
            history_wf(*final(self)),
            final(self).cap == old(self).cap,
            old(self).data@.len() < old(self).cap ==> final(self).data@ == old(self).data@.push(v),
            old(self).data@.len() == old(self).cap ==> final(self).data@ == old(
                self,
            ).data@.drop_first().push(v),
    {
        self.data.push(v);
        if self.data.len() > self.cap {
            let ghost before = self.data@;
            self.data.remove(0);
            proof {
                assert(self.data@ =~= before.drop_first());
                assert(before.drop_first() =~= old(self).data@.drop_first().push(v));
            }
        }
    }

    /// The newest sample, if any.
    pub fn latest(&self) -> (r: Option<u64>)
        ensures
            self.data@.len() == 0 ==> r is None,
            self.data@.len() > 0 ==> r == Some(self.data@.last()),
    {
        if self.data.len() == 0 {
            None
        } else {
            Some(self.data[self.data.len() - 1])
        }
    }
}

} // verus!
