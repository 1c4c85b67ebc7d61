//! Rule-based reading of the current metrics: which findings and
//! recommendations the insights overlay shows, decided from thresholds
//! over the same integer metrics the rest of the session uses.

use vstd::prelude::*;
use crate::process::{ProcessRecord, sat_add_u64, sat_add_u64_exec};

verus! {

/// One finding about the current state of the system.
#[derive(Clone, Copy, Debug, PartialEq, Eq, Structural)]
pub enum Insight {
    HighCpu,
    TopCpuHog(u32),
    CpuEfficient,
    HighMemory,
    MemoryHog(u32),
    MemoryPlenty,
    ManyHighCpuProcs,
    HighNetwork,
    BottleneckBoth,
    CpuBound,
    MemoryPressure,
    AllOptimal,
}

/// How many of the listed processes are using more than 20% CPU.
pub open spec fn count_high_cpu(s: Seq<ProcessRecord>) -> int
    decreases s.len(),
{
    if s.len() == 0 {
        0
    } else {
        count_high_cpu(s.drop_last()) + (if s.last().cpu_milli_percent > 20_000 {
            1int
        } else {
            0int
        })
    }
}

/// The position of the largest resident size; the last one wins a tie.
pub open spec fn argmax_mem(s: Seq<ProcessRecord>) -> int
    decreases s.len(),
{
    if s.len() <= 1 {
        0
    } else {
        let p = argmax_mem(s.drop_last());
        if s.last().mem_bytes >= s[p].mem_bytes {
            s.len() - 1
        } else {
            p
        }
    }
}

/// Every finding the rules yield for these metrics, in a fixed order;
/// when none fires, the single all-clear finding.
pub open spec fn insights_spec(
    cpu_milli: u32,
    mem_milli: u32,
    top: Seq<ProcessRecord>,
    rates: Option<(u64, u64)>,
) -> Seq<Insight> {
    let cpu_part: Seq<Insight> = if cpu_milli > 80_000 {
        seq![Insight::HighCpu] + (if top.len() > 0 && top[0].cpu_milli_percent > 50_000 {
            seq![Insight::TopCpuHog(top[0].pid)]
        } else {
            Seq::<Insight>::empty()
        })
    } else if cpu_milli < 10_000 {
        seq![Insight::CpuEfficient]
    } else {
        Seq::<Insight>::empty()
    };
    let mem_part: Seq<Insight> = if mem_milli > 85_000 {
        seq![Insight::HighMemory] + (if top.len() > 0 {
            seq![Insight::MemoryHog(top[argmax_mem(top)].pid)]
        } else {
            Seq::<Insight>::empty()
        })
    } else if mem_milli < 50_000 {
        seq![Insight::MemoryPlenty]
    } else {
        Seq::<Insight>::empty()
    };
    let procs_part: Seq<Insight> = if count_high_cpu(top) > 3 {
        seq![Insight::ManyHighCpuProcs]
    } else {
        Seq::<Insight>::empty()
    };
    let net_part: Seq<Insight> = match rates {
        Some(rt) => if sat_add_u64(rt.0, rt.1) > 10_485_760 {
            seq![Insight::HighNetwork]
        } else {
            Seq::<Insight>::empty()
        },
        None => Seq::<Insight>::empty(),
    };
    let rec_part: Seq<Insight> = if cpu_milli > 70_000 && mem_milli > 70_000 {
        seq![Insight::BottleneckBoth]
    } else if cpu_milli > 70_000 {
        seq![Insight::CpuBound]
    } else if mem_milli > 70_000 {
        seq![Insight::MemoryPressure]
    } else {
        Seq::<Insight>::empty()
    };
    let all = cpu_part + mem_part + procs_part + net_part + rec_part;
    if all.len() == 0 {
        seq![Insight::AllOptimal]
    } else {
        all
    }
}

fn count_high_cpu_exec(top: &Vec<ProcessRecord>) -> (r: usize)
    ensures
        r == count_high_cpu(top@),
        r <= top@.len(),
{
    let mut n: usize = 0;
    let mut i: usize = 0;
    while i < top.len()
        invariant
            i <= top@.len(),
            n == count_high_cpu(top@.take(i as int)),
            n <= i,
        decreases top@.len() - i,
    {
        proof {
            let whole = top@.take(i as int + 1);
            assert(whole.drop_last() =~= top@.take(i as int));
            assert(whole.last() == top@[i as int]);
        }
        if top[i].cpu_milli_percent > 20_000 {
            n += 1;
        }
        i += 1;
    }
    assert(top@.take(top@.len() as int) =~= top@);
    n
}

fn argmax_mem_exec(top: &Vec<ProcessRecord>) -> (r: usize)
    requires
        top@.len() > 0,
    ensures
        r == argmax_mem(top@),
        r < top@.len(),
{
    let mut best: usize = 0;
    let mut i: usize = 1;
    assert(top@.take(1) =~= top@.take(1));
    assert(argmax_mem(top@.take(1)) == 0);
    while i < top.len()
        invariant
            1 <= i <= top@.len(),
            best < i,
            best == argmax_mem(top@.take(i as int)),
        decreases top@.len() - i,
    {
        proof {
            let whole = top@.take(i as int + 1);
            assert(whole.drop_last() =~= top@.take(i as int));
            assert(whole.last() == top@[i as int]);
            assert(whole[argmax_mem(top@.take(i as int))] == top@.take(i as int)[argmax_mem(
                top@.take(i as int),
            )]);
        }
        if top[i].mem_bytes >= top[best].mem_bytes {
            best = i;
        }
        i += 1;
    }
    assert(top@.take(top@.len() as int) =~= top@);
    best
}

/// Compute the findings for the given metrics and process listing.
#[verifier::rlimit(60)]
pub fn insights(
    cpu_milli: u32,
    mem_milli: u32,
    top: &Vec<ProcessRecord>,
    rates: Option<(u64, u64)>,
) -> (r: Vec<Insight>)
    ensures
        r@ == insights_spec(cpu_milli, mem_milli, top@, rates),
{
    let ghost cpu_part: Seq<Insight> = if cpu_milli > 80_000 {
        seq![Insight::HighCpu] + (if top@.len() > 0 && top@[0].cpu_milli_percent > 50_000 {
            seq![Insight::TopCpuHog(top@[0].pid)]
        } else {
            Seq::<Insight>::empty()
        })
    } else if cpu_milli < 10_000 {
        seq![Insight::CpuEfficient]
    } else {
        Seq::<Insight>::empty()
    };
    let ghost mem_part: Seq<Insight> = if mem_milli > 85_000 {
        seq![Insight::HighMemory] + (if top@.len() > 0 {
            seq![Insight::MemoryHog(top@[argmax_mem(top@)].pid)]
        } else {
            Seq::<Insight>::empty()
        })
    } else if mem_milli < 50_000 {
        seq![Insight::MemoryPlenty]
    } else {
        Seq::<Insight>::empty()
    };
    let ghost procs_part: Seq<Insight> = if count_high_cpu(top@) > 3 {
        seq![Insight::ManyHighCpuProcs]
    } else {
        Seq::<Insight>::empty()
    };
    let ghost net_part: Seq<Insight> = match rates {
        Some(rt) => if sat_add_u64(rt.0, rt.1) > 10_485_760 {
            seq![Insight::HighNetwork]
        } else {
            Seq::<Insight>::empty()
        },
        None => Seq::<Insight>::empty(),
    };
    let ghost rec_part: Seq<Insight> = if cpu_milli > 70_000 && mem_milli > 70_000 {
        seq![Insight::BottleneckBoth]
    } else if cpu_milli > 70_000 {
        seq![Insight::CpuBound]
    } else if mem_milli > 70_000 {
        seq![Insight::MemoryPressure]
    } else {
        Seq::<Insight>::empty()
    };

    let mut out: Vec<Insight> = Vec::new();
    if cpu_milli > 80_000 {
        out.push(Insight::HighCpu);
        if top.len() > 0 && top[0].cpu_milli_percent > 50_000 {
            out.push(Insight::TopCpuHog(top[0].pid));
        }
    } else if cpu_milli < 10_000 {
        out.push(Insight::CpuEfficient);
    }
    assert(out@ =~= cpu_part);
    if mem_milli > 85_000 {
        out.push(Insight::HighMemory);
        if top.len() > 0 {
            let hog = argmax_mem_exec(top);
            out.push(Insight::MemoryHog(top[hog].pid));
        }
    } else if mem_milli < 50_000 {
        out.push(Insight::MemoryPlenty);
    }
    assert(out@ =~= cpu_part + mem_part);
    let high = count_high_cpu_exec(top);
    if high > 3 {
        out.push(Insight::ManyHighCpuProcs);
    }
    assert(out@ =~= cpu_part + mem_part + procs_part);
    match rates {
        Some(rt) => {
            if sat_add_u64_exec(rt.0, rt.1) > 10_485_760 {
                out.push(Insight::HighNetwork);
            }
        },
        None => {},
    }
    assert(out@ =~= cpu_part + mem_part + procs_part + net_part);
    if cpu_milli > 70_000 && mem_milli > 70_000 {
        out.push(Insight::BottleneckBoth);
    } else if cpu_milli > 70_000 {
        out.push(Insight::CpuBound);
    } else if mem_milli > 70_000 {
        out.push(Insight::MemoryPressure);
    }
    assert(out@ =~= cpu_part + mem_part + procs_part + net_part + rec_part);
    if out.len() == 0 {
        out.push(Insight::AllOptimal);
        assert(out@ =~= seq![Insight::AllOptimal]);
    }
    assert(out@ =~= insights_spec(cpu_milli, mem_milli, top@, rates));
    out
}

} // verus!
