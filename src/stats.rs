//! Aggregated timings of a benchmark run, and the loop that gathers them.
use crate::clock::{clock_now, nanos_since};
use crate::hasher::HashState;
use crate::sampler::compute_hash_time;
use vstd::prelude::*;

verus! {

/// The sum of a sequence of durations.
pub open spec fn sum_of(s: Seq<u128>) -> int
    decreases s.len(),
{
    if s.len() == 0 {
        0
    } else {
        sum_of(s.drop_last()) + s.last()
    }
}

/// The least duration of a sequence; `u128::MAX` stands for "none yet".
pub open spec fn least(s: Seq<u128>) -> u128
    decreases s.len(),
{
    if s.len() == 0 {
        u128::MAX
    } else if s.last() < least(s.drop_last()) {
        s.last()
    } else {
        least(s.drop_last())
    }
}

/// The greatest duration of a sequence; zero when it is empty.
pub open spec fn greatest(s: Seq<u128>) -> u128
    decreases s.len(),
{
    if s.len() == 0 {
        0
    } else if s.last() > greatest(s.drop_last()) {
        s.last()
    } else {
        greatest(s.drop_last())
    }
}

/// How a run went, beside its totals: the clock reading, in nanoseconds since
/// the start, before each counted batch; the last reading taken; the length
/// of a batch that ran but could no longer be counted, if one did; and the
/// digests that the run's hasher finished.
pub struct RunTrace {
    pub opened_at: Seq<u128>,
    pub last_reading: u128,
    pub uncounted: Option<u128>,
    pub digests: nat,
}

/// Totals and extremes over the batches of one run. Durations are in
/// nanoseconds. `observed` holds every batch duration, in order.
pub struct BenchmarkStatistics {
    pub samples_per_batch: u64,
    pub batches: u64,
    pub total_hashes: u64,
    pub total_time: u128,
    pub best_latency: u128,
    pub worst_latency: u128,
    pub observed: Ghost<Seq<u128>>,
    pub trace: Ghost<RunTrace>,
}

impl BenchmarkStatistics {
    /// Every field agrees with the batch durations observed so far.
    pub open spec fn wf(&self) -> bool {
        &&& self.observed@.len() == self.batches
        &&& self.total_hashes == self.samples_per_batch * self.batches
        &&& self.total_time == sum_of(self.observed@)
        &&& self.best_latency == least(self.observed@)
        &&& self.worst_latency == greatest(self.observed@)
    }

    /// One more batch of `elapsed` nanoseconds can be counted without any
    /// total leaving its type.
    pub open spec fn can_record(&self, elapsed: u128) -> bool {
        &&& self.batches < u64::MAX
        &&& self.total_hashes + self.samples_per_batch <= u64::MAX
        &&& self.total_time + elapsed <= u128::MAX
    }

    /// The statistics of a run that has executed no batch yet.
    pub fn new(samples_per_batch: u64) -> (r: Self)
        ensures
            r.wf(),
            r.samples_per_batch == samples_per_batch,
            r.observed@ == Seq::<u128>::empty(),
            r.batches == 0,
            r.total_hashes == 0,
            r.total_time == 0,
            r.best_latency == u128::MAX,
            r.worst_latency == 0,
            r.trace@ == (RunTrace { opened_at: Seq::empty(), last_reading: 0, uncounted: None, digests: 0 }),
    {
        BenchmarkStatistics {
            samples_per_batch,
            batches: 0,
            total_hashes: 0,
            total_time: 0,
            best_latency: u128::MAX,
            worst_latency: 0,
            observed: Ghost(Seq::empty()),
            trace: Ghost(RunTrace { opened_at: Seq::empty(), last_reading: 0, uncounted: None, digests: 0 }),
        }
    }

    /// Whether a batch of `elapsed` nanoseconds can still be counted.
    pub fn has_room_for(&self, elapsed: u128) -> (r: bool)
        ensures
            r == self.can_record(elapsed),
    {
        self.batches < u64::MAX && self.total_hashes <= u64::MAX - self.samples_per_batch
            && self.total_time <= u128::MAX - elapsed
    }

    /// Counts one batch that took `elapsed` nanoseconds.
    pub fn record(&mut self, elapsed: u128)
        requires
            old(self).wf(),
            old(self).can_record(elapsed),
        ensures
            final(self).wf(),
            final(self).observed@ == old(self).observed@.push(elapsed),
            final(self).samples_per_batch == old(self).samples_per_batch,
            final(self).trace == old(self).trace,
            final(self).batches == old(self).batches + 1,
            final(self).total_hashes == old(self).total_hashes + old(self).samples_per_batch,
            final(self).total_time == old(self).total_time + elapsed,
            final(self).best_latency == if elapsed < old(self).best_latency {
                elapsed
            } else {
                old(self).best_latency
            },
            final(self).worst_latency == if elapsed > old(self).worst_latency {
                elapsed
            } else {
                old(self).worst_latency
            },
    {
        let ghost before = self.observed@;
        self.batches = self.batches + 1;
        self.total_hashes = self.total_hashes + self.samples_per_batch;
        self.total_time = self.total_time + elapsed;
        if elapsed < self.best_latency {
            self.best_latency = elapsed;
        }
        if elapsed > self.worst_latency {
            self.worst_latency = elapsed;
        }
        self.observed = Ghost(before.push(elapsed));
        proof {
            assert(self.observed@.drop_last() =~= before);
            assert(self.samples_per_batch * self.batches == self.samples_per_batch * (
            self.batches - 1) + self.samples_per_batch) by (nonlinear_arith);
        }
    }
}

/// Whether the window is still open after `since_start` nanoseconds of a
/// window of `benchmark_time` nanoseconds.
pub fn window_open(since_start: u128, benchmark_time: u128) -> (r: bool)
    ensures
        r == (since_start < benchmark_time),
{
    since_start < benchmark_time
}

/// Runs batches of `samples_to_test` hashing steps, all on one hasher, until
/// `benchmark_time` nanoseconds have passed since the start, and aggregates
/// their timings. The clock is read only between batches, so each batch
/// begins inside the window and the last one may overrun it. A run also ends
/// on a batch that could no longer be counted.
pub fn compute_poh_statistics(benchmark_time: u128, samples_to_test: u64) -> (r:
    BenchmarkStatistics)
    ensures
        r.wf(),
        r.samples_per_batch == samples_to_test,
        benchmark_time == 0 ==> r.batches == 0,
        r.trace@.opened_at.len() == r.batches,
        forall|i: int| 0 <= i < r.batches ==> r.trace@.opened_at[i] < benchmark_time,
        r.trace@.uncounted is None ==> r.trace@.last_reading >= benchmark_time,
        r.trace@.uncounted is None ==> r.trace@.digests == r.total_hashes,
        r.trace@.uncounted matches Some(e) ==> {
            &&& !r.can_record(e)
            &&& r.trace@.last_reading < benchmark_time
            &&& r.trace@.digests == r.total_hashes + samples_to_test
        },
{
    let mut stats = BenchmarkStatistics::new(samples_to_test);
    let mut hasher = HashState::new();
    let start = clock_now();
    loop
        invariant_except_break
            stats.trace@.uncounted is None,
            stats.trace@.digests == stats.total_hashes,
            hasher.digests() == stats.total_hashes,
        invariant
            stats.wf(),
            stats.samples_per_batch == samples_to_test,
            benchmark_time == 0 ==> stats.batches == 0,
            stats.trace@.opened_at.len() == stats.batches,
            forall|i: int| 0 <= i < stats.batches ==> stats.trace@.opened_at[i] < benchmark_time,
        ensures
            stats.trace@.uncounted is None ==> stats.trace@.last_reading >= benchmark_time,
            stats.trace@.uncounted is None ==> stats.trace@.digests == stats.total_hashes,
            stats.trace@.uncounted matches Some(e) ==> {
                &&& !stats.can_record(e)
                &&& stats.trace@.last_reading < benchmark_time
                &&& stats.trace@.digests == stats.total_hashes + samples_to_test
            },
        decreases u64::MAX - stats.batches,
    {
        let reading = nanos_since(&start);
        if !window_open(reading, benchmark_time) {
            stats.trace = Ghost(RunTrace { last_reading: reading, ..stats.trace@ });
            break;
        }
        let elapsed = compute_hash_time(&mut hasher, samples_to_test);
        if !stats.has_room_for(elapsed) {
            stats.trace = Ghost(
                RunTrace {
                    last_reading: reading,
                    uncounted: Some(elapsed),
                    digests: hasher.digests(),
                    ..stats.trace@
                },
            );
            break;
        }
        stats.record(elapsed);
        stats.trace = Ghost(
            RunTrace {
                opened_at: stats.trace@.opened_at.push(reading),
                last_reading: reading,
                digests: hasher.digests(),
                ..stats.trace@
            },
        );
    }
    stats
}

/// Over any completed run with at least one batch, the best latency is at most
/// the worst; when every batch took some time, the best latency is positive.
pub proof fn lemma_latency_bounds(stats: &BenchmarkStatistics)
    requires
        stats.wf(),
        stats.batches > 0,
    ensures
        stats.best_latency <= stats.worst_latency,
        (forall|i: int| 0 <= i < stats.observed@.len() ==> stats.observed@[i] > 0)
            ==> stats.best_latency > 0,
{
    lemma_least_le_greatest(stats.observed@);
    if forall|i: int| 0 <= i < stats.observed@.len() ==> stats.observed@[i] > 0 {
        lemma_least_positive(stats.observed@);
    }
}

/// Batches of zero hashing steps add no hashes, however many of them run.
pub proof fn lemma_empty_batches_add_no_hashes(stats: &BenchmarkStatistics)
    requires
        stats.wf(),
        stats.samples_per_batch == 0,
    ensures
        stats.total_hashes == 0,
{
}

/// The least element of a non-empty sequence is at most its greatest.
pub proof fn lemma_least_le_greatest(s: Seq<u128>)
    requires
        s.len() > 0,
    ensures
        least(s) <= greatest(s),
    decreases s.len(),
{
    if s.len() > 1 {
        lemma_least_le_greatest(s.drop_last());
    }
}

/// A sequence of positive durations has a positive least element.
pub proof fn lemma_least_positive(s: Seq<u128>)
    requires
        forall|i: int| 0 <= i < s.len() ==> s[i] > 0,
    ensures
        least(s) > 0,
    decreases s.len(),
{
    if s.len() > 0 {
        lemma_least_positive(s.drop_last());
    }
}

} // verus!
