//! Conversion of cumulative network interface counters into byte/second
//! rates, retaining exactly one prior sample.

use vstd::prelude::*;

verus! {

/// One observation of the summed cumulative interface counters.
#[derive(Clone, Copy, PartialEq, Eq, Structural)]
pub struct NetworkCounterSample {
    pub observed_at_ms: u64,
    pub cumulative_rx_bytes: u64,
    pub cumulative_tx_bytes: u64,
}

/// Difference of two counters, clamped at zero so a reset or wraparound
/// of the cumulative counter yields no spurious spike.
pub open spec fn counter_delta(cur: u64, prev: u64) -> u64 {
    if cur >= prev {
        (cur - prev) as u64
    } else {
        0
    }
}

/// Bytes per second for a byte delta over an elapsed time, the elapsed
/// time floored to one millisecond, the result saturated at `u64::MAX`.
pub open spec fn rate_per_sec(delta: u64, elapsed_ms: u64) -> u64 {
    let dt: int = if elapsed_ms < 1 { 1 } else { elapsed_ms as int };
    let r: int = (delta * 1000) / dt;
    if r > u64::MAX {
        u64::MAX
    } else {
        r as u64
    }
}

/// Converts cumulative interface byte counters into instantaneous
/// byte/second rates; the first observation yields no rate.
pub struct NetworkRateTracker {
    pub prev: Option<NetworkCounterSample>,
}

impl NetworkRateTracker {
    pub fn new() -> (t: Self)
        ensures
            t.prev is None,
    {
        NetworkRateTracker { prev: None }
    }

    /// Record one observation of the summed counters and return the
    /// receive and transmit rates in bytes per second since the prior
    /// observation, or `(0, 0)` on the first call.
    pub fn sample_rate(&mut self, now_ms: u64, rx_total: u64, tx_total: u64) -> (r: (u64, u64))
        ensures
            old(self).prev is None ==> r == (0u64, 0u64),
            old(self).prev matches Some(p) ==> {
                &&& r.0 == rate_per_sec(
                    counter_delta(rx_total, p.cumulative_rx_bytes),
                    counter_delta(now_ms, p.observed_at_ms),
                )
                &&& r.1 == rate_per_sec(
                    counter_delta(tx_total, p.cumulative_tx_bytes),
                    counter_delta(now_ms, p.observed_at_ms),
                )
            },
            final(self).prev == Some(
                NetworkCounterSample {
                    observed_at_ms: now_ms,
                    cumulative_rx_bytes: rx_total,
                    cumulative_tx_bytes: tx_total,
                },
            ),
    {
        let r = match &self.prev {
            None => (0u64, 0u64),
            Some(p) => {
                let dt = delta_exec(now_ms, p.observed_at_ms);
                let rx = rate_exec(delta_exec(rx_total, p.cumulative_rx_bytes), dt);
                let tx = rate_exec(delta_exec(tx_total, p.cumulative_tx_bytes), dt);
                (rx, tx)
            },
        };
        self.prev = Some(
            NetworkCounterSample {
                observed_at_ms: now_ms,
                cumulative_rx_bytes: rx_total,
                cumulative_tx_bytes: tx_total,
            },
        );
        r
    }
}

fn delta_exec(cur: u64, prev: u64) -> (d: u64)
    ensures
        d == counter_delta(cur, prev),
{
    if cur >= prev {
        cur - prev
    } else {
        0
    }
}

fn rate_exec(delta: u64, elapsed_ms: u64) -> (r: u64)
    ensures
        r == rate_per_sec(delta, elapsed_ms),
{
    let dt: u64 = if elapsed_ms < 1 {
        1
    } else {
        elapsed_ms
    };
    let wide: u128 = (delta as u128) * 1000;
    let q: u128 = wide / (dt as u128);
    if q > u64::MAX as u128 {
        u64::MAX
    } else {
        q as u64
    }
}

/// A rate is a magnitude: it is never negative, whatever the counters
/// and elapsed time were.
pub proof fn lemma_rate_never_negative(delta: u64, elapsed_ms: u64)
    ensures
        rate_per_sec(delta, elapsed_ms) >= 0,
{
}

/// When the later counter reading is below the earlier one (a counter
/// reset), the computed rate is zero rather than negative or spurious.
pub proof fn lemma_counter_reset_rate_zero(prev: u64, cur: u64, elapsed_ms: u64)
    requires
        cur < prev,
    ensures
        rate_per_sec(counter_delta(cur, prev), elapsed_ms) == 0,
{
}

} // verus!
