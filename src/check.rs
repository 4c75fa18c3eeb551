//! One full speed check of a core, and the choice of the best of several.
use crate::affinity::{bind_core, ids_in_mask, AffinityError, CPU_MASK_CAPACITY, NO_ERRNO};
use crate::rate::{
    average_latency, avg_latency_spec, default_target_rate, evaluate, verdict_spec,
    SpeedCheckFailure, HASHES_PER_TICK, TICKS_PER_SLOT,
};
use crate::stats::{compute_poh_statistics, BenchmarkStatistics};
use vstd::prelude::*;

verus! {

/// The hashes in one batch unless the caller picks another size: one slot.
pub const DEFAULT_SAMPLES: u64 = HASHES_PER_TICK * TICKS_PER_SLOT;

/// Everything one check found on a core.
pub struct PohReport {
    /// The id of the core tested.
    pub core: usize,
    /// The cores the thread may run on, read back after binding.
    pub affinity: Vec<usize>,
    /// The hashes in one batch.
    pub samples_to_test: u64,
    pub stats: BenchmarkStatistics,
    /// The mean time of one batch, in nanoseconds.
    pub avg_latency: u128,
    pub target_rate: u64,
    /// The rate reached, or the failure to reach `target_rate`.
    pub verdict: Result<u64, SpeedCheckFailure>,
}

/// The batch size used for a requested size `hash_samples`.
pub open spec fn samples_for(hash_samples: Option<u64>) -> u64 {
    match hash_samples {
        Some(n) => n,
        None => DEFAULT_SAMPLES,
    }
}

/// Binds to the core at `core_index` of the enumerated `cores`, checks the
/// binding, times batches of hashes for `benchmark_time` nanoseconds and
/// judges the rate reached against the target rate. A failed binding ends
/// the check before any measurement.
pub fn check_poh_speed(
    core_index: usize,
    cores: &Vec<usize>,
    benchmark_time: u128,
    hash_samples: Option<u64>,
) -> (r: Result<PohReport, AffinityError>)
    ensures
        (r == Err::<PohReport, AffinityError>(AffinityError::InvalidCore)) <==> (core_index
            >= cores@.len() || cores@[core_index as int] >= CPU_MASK_CAPACITY),
        r matches Err(e) ==> (e == AffinityError::InvalidCore || e == AffinityError::PlatformError(
            NO_ERRNO,
        ) || e == AffinityError::BindingMismatch),
        r matches Ok(rep) ==> {
            &&& core_index < cores@.len()
            &&& rep.core == cores@[core_index as int]
            &&& rep.affinity@.contains(rep.core)
            &&& ids_in_mask(rep.affinity@)
            &&& rep.samples_to_test == samples_for(hash_samples)
            &&& rep.stats.wf()
            &&& rep.stats.samples_per_batch == rep.samples_to_test
            &&& benchmark_time == 0 ==> rep.stats.batches == 0
            &&& rep.avg_latency == avg_latency_spec(
                rep.stats.total_time,
                rep.stats.total_hashes,
                rep.samples_to_test,
            )
            &&& rep.target_rate == 1_600_000
            &&& rep.verdict == verdict_spec(
                rep.stats.total_hashes,
                rep.stats.total_time,
                rep.target_rate,
            )
        },
{
    let affinity = match bind_core(core_index, cores) {
        Ok(a) => a,
        Err(e) => return Err(e),
    };
    let core = cores[core_index];
    let samples_to_test = match hash_samples {
        Some(n) => n,
        None => DEFAULT_SAMPLES,
    };
    let stats = compute_poh_statistics(benchmark_time, samples_to_test);
    let avg_latency = average_latency(stats.total_time, stats.total_hashes, samples_to_test);
    let target_rate = default_target_rate();
    let verdict = evaluate(&stats, target_rate);
    Ok(PohReport { core, affinity, samples_to_test, stats, avg_latency, target_rate, verdict })
}

/// Picks the best of several checked cores. `rates[i]` is the rate the
/// i-th core passed with, or `None` where its check failed. The result is
/// the first index with the highest rate, and that rate; `None` when no
/// core passed with a rate above zero.
pub fn pick_best_core(rates: &Vec<Option<u64>>) -> (r: Option<(usize, u64)>)
    ensures
        r is None <==> forall|j: int|
            0 <= j < rates@.len() ==> (rates@[j] is None || rates@[j] == Some(0u64)),
        r matches Some((i, v)) ==> {
            &&& i < rates@.len()
            &&& rates@[i as int] == Some(v)
            &&& v > 0
            &&& forall|j: int| 0 <= j < rates@.len() && rates@[j] is Some ==> rates@[j]->0 <= v
            &&& forall|j: int| 0 <= j < i && rates@[j] is Some ==> rates@[j]->0 < v
        },
{
    let mut best: Option<(usize, u64)> = None;
    let mut best_rate: u64 = 0;
    let mut i: usize = 0;
    while i < rates.len()
        invariant
            i <= rates@.len(),
            best is None ==> best_rate == 0,
            best is None <==> forall|j: int|
                0 <= j < i ==> (rates@[j] is None || rates@[j] == Some(0u64)),
            forall|j: int| 0 <= j < i && rates@[j] is Some ==> rates@[j]->0 <= best_rate,
            best matches Some((b, v)) ==> {
                &&& b < i
                &&& v == best_rate
                &&& rates@[b as int] == Some(v)
                &&& v > 0
                &&& forall|j: int| 0 <= j < b && rates@[j] is Some ==> rates@[j]->0 < v
            },
        decreases rates@.len() - i,
    {
        match rates[i] {
            Some(rate) => {
                if rate > best_rate {
                    best = Some((i, rate));
                    best_rate = rate;
                }
            },
            None => {},
        }
        i = i + 1;
    }
    best
}

} // verus!
