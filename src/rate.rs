//! The rate a core must reach, the rate it reached, and the verdict.
use crate::stats::BenchmarkStatistics;
use vstd::prelude::*;

verus! {

/// Hash operations in one tick of the chain.
pub const HASHES_PER_TICK: u64 = 10_000;

/// Ticks in one slot.
pub const TICKS_PER_SLOT: u64 = 64;

/// Wall-clock length of one slot, in nanoseconds.
pub const NS_PER_SLOT: u64 = 400_000_000;

/// Nanoseconds in one second.
pub const NANOS_PER_SEC: u128 = 1_000_000_000;

/// Hash operations in one slot.
pub open spec fn hashes_per_slot_spec(hashes_per_tick: u64, ticks_per_slot: u64) -> int {
    hashes_per_tick * ticks_per_slot
}

/// Hashes per second needed to fill a slot of `ns_per_slot` nanoseconds:
/// the slot's hashes divided by its length in seconds, truncated.
pub open spec fn target_rate_spec(hashes_per_tick: u64, ticks_per_slot: u64, ns_per_slot: u64) -> int
    recommends
        ns_per_slot > 0,
{
    (hashes_per_slot_spec(hashes_per_tick, ticks_per_slot) * NANOS_PER_SEC) / (ns_per_slot as int)
}

/// The rate reached by `total_hashes` hashes in `total_time` nanoseconds.
/// Over a second or more it is the hashes per whole elapsed second; below a
/// second it is taken at nanosecond precision, capped at `u64::MAX`; with no
/// time measured at all it is zero.
pub open spec fn achieved_rate_spec(total_hashes: u64, total_time: u128) -> int {
    let secs = total_time as int / NANOS_PER_SEC as int;
    if secs > 0 {
        total_hashes as int / secs
    } else if total_time == 0 {
        0
    } else if (total_hashes * NANOS_PER_SEC) / (total_time as int) > u64::MAX {
        u64::MAX as int
    } else {
        (total_hashes * NANOS_PER_SEC) / (total_time as int)
    }
}

/// The number of batches that `total_hashes` hashes in batches of
/// `samples_to_test` make; zero for empty batches.
pub open spec fn batch_count_spec(total_hashes: u64, samples_to_test: u64) -> int {
    if samples_to_test == 0 {
        0
    } else {
        total_hashes as int / samples_to_test as int
    }
}

/// The mean time of one batch, truncated; zero when no batch ran.
pub open spec fn avg_latency_spec(total_time: u128, total_hashes: u64, samples_to_test: u64) -> int {
    let n = batch_count_spec(total_hashes, samples_to_test);
    if n == 0 {
        0
    } else {
        total_time as int / n
    }
}

/// Hash operations in one slot, `None` when that count leaves `u64`.
pub fn hashes_per_slot(hashes_per_tick: u64, ticks_per_slot: u64) -> (r: Option<u64>)
    ensures
        r == (if hashes_per_slot_spec(hashes_per_tick, ticks_per_slot) <= u64::MAX {
            Some(hashes_per_slot_spec(hashes_per_tick, ticks_per_slot) as u64)
        } else {
            None::<u64>
        }),
{
    hashes_per_tick.checked_mul(ticks_per_slot)
}

/// The hashes per second a core must sustain for slots of `ns_per_slot`
/// nanoseconds holding `ticks_per_slot` ticks of `hashes_per_tick` hashes.
/// `None` when the slot is empty of time or the rate leaves `u64`.
pub fn target_rate(hashes_per_tick: u64, ticks_per_slot: u64, ns_per_slot: u64) -> (r: Option<u64>)
    ensures
        r == (if ns_per_slot == 0 || target_rate_spec(hashes_per_tick, ticks_per_slot, ns_per_slot)
            > u64::MAX {
            None::<u64>
        } else {
            Some(target_rate_spec(hashes_per_tick, ticks_per_slot, ns_per_slot) as u64)
        }),
{
    if ns_per_slot == 0 {
        return None;
    }
    proof {
        assert(hashes_per_tick * ticks_per_slot <= u64::MAX * u64::MAX) by (nonlinear_arith);
    }
    let per_slot: u128 = hashes_per_tick as u128 * ticks_per_slot as u128;
    match per_slot.checked_mul(NANOS_PER_SEC) {
        None => {
            proof {
                let p = per_slot * NANOS_PER_SEC;
                assert(p > u128::MAX);
                assert(p / (ns_per_slot as int) > u64::MAX) by (nonlinear_arith)
                    requires
                        p > u128::MAX,
                        0 < ns_per_slot <= u64::MAX,
                ;
            }
            None
        },
        Some(scaled) => {
            let rate = scaled / (ns_per_slot as u128);
            if rate > u64::MAX as u128 {
                None
            } else {
                Some(rate as u64)
            }
        },
    }
}

/// The rate that the fixed slot constants ask for.
pub fn default_target_rate() -> (r: u64)
    ensures
        r == target_rate_spec(HASHES_PER_TICK, TICKS_PER_SLOT, NS_PER_SLOT),
        r == 1_600_000,
{
    let per_slot: u64 = HASHES_PER_TICK * TICKS_PER_SLOT;
    ((per_slot as u128 * NANOS_PER_SEC) / (NS_PER_SLOT as u128)) as u64
}

/// The rate reached by `total_hashes` hashes in `total_time` nanoseconds.
pub fn achieved_rate(total_hashes: u64, total_time: u128) -> (r: u64)
    ensures
        r == achieved_rate_spec(total_hashes, total_time),
{
    let secs = total_time / NANOS_PER_SEC;
    if secs > 0 {
        (total_hashes as u128 / secs) as u64
    } else if total_time == 0 {
        0
    } else {
        proof {
            assert(total_hashes * NANOS_PER_SEC <= u64::MAX * NANOS_PER_SEC) by (nonlinear_arith);
        }
        let rate = (total_hashes as u128 * NANOS_PER_SEC) / total_time;
        if rate > u64::MAX as u128 {
            u64::MAX
        } else {
            rate as u64
        }
    }
}

/// The mean time of one batch, in nanoseconds, over a run whose batches of
/// `samples_to_test` hashes made `total_hashes` hashes in `total_time`.
pub fn average_latency(total_time: u128, total_hashes: u64, samples_to_test: u64) -> (r: u128)
    ensures
        r == avg_latency_spec(total_time, total_hashes, samples_to_test),
{
    if samples_to_test == 0 {
        return 0;
    }
    let n = total_hashes / samples_to_test;
    if n == 0 {
        0
    } else {
        total_time / (n as u128)
    }
}

/// A run that fell short of the rate it had to reach.
#[derive(Clone, Copy, Debug, PartialEq, Eq, Structural)]
pub struct SpeedCheckFailure {
    pub achieved: u64,
    pub target: u64,
}

/// The verdict on `total_hashes` hashes in `total_time` nanoseconds against
/// `target_rate`.
pub open spec fn verdict_spec(total_hashes: u64, total_time: u128, target_rate: u64) -> Result<
    u64,
    SpeedCheckFailure,
> {
    let a = achieved_rate_spec(total_hashes, total_time);
    if a >= target_rate {
        Ok(a as u64)
    } else {
        Err(SpeedCheckFailure { achieved: a as u64, target: target_rate })
    }
}

/// The verdict on a run: the rate it reached when that is at least
/// `target_rate`, else a failure that carries both rates.
pub fn evaluate(stats: &BenchmarkStatistics, target_rate: u64) -> (r: Result<u64, SpeedCheckFailure>)
    ensures
        r == verdict_spec(stats.total_hashes, stats.total_time, target_rate),
{
    let achieved = achieved_rate(stats.total_hashes, stats.total_time);
    if achieved < target_rate {
        Err(SpeedCheckFailure { achieved, target: target_rate })
    } else {
        Ok(achieved)
    }
}

/// With batches of `samples_per_batch > 0` hashes, the batch count read off
/// the totals is the number of batches run, and the average latency times
/// that count gives back the total time whenever the count divides it; in
/// every case it falls short of the total by less than the count.
pub proof fn lemma_average_latency_times_batches(stats: &BenchmarkStatistics)
    requires
        stats.wf(),
        stats.samples_per_batch > 0,
    ensures
        batch_count_spec(stats.total_hashes, stats.samples_per_batch) == stats.batches,
        ({
            let avg = avg_latency_spec(stats.total_time, stats.total_hashes, stats.samples_per_batch);
            let n = stats.batches as int;
            &&& n > 0 ==> avg * n <= stats.total_time < avg * n + n
            &&& (n == 0 || stats.total_time as int % n == 0) ==> avg * n == stats.total_time
        }),
{
    let s = stats.samples_per_batch as int;
    let n = stats.batches as int;
    assert((s * n) / s == n) by (nonlinear_arith)
        requires
            s > 0,
            n >= 0,
    ;
    if n > 0 {
        let t = stats.total_time as int;
        assert((t / n) * n <= t < (t / n) * n + n) by (nonlinear_arith)
            requires
                n > 0,
                t >= 0,
        ;
        assert(t % n == 0 ==> (t / n) * n == t) by (nonlinear_arith)
            requires
                n > 0,
        ;
    }
}

} // verus!
