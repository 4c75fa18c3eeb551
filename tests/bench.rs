use poh_bench::affinity::{
    affinity_error_from_errno, bind_core, binding_outcome, current_affinity, select_core,
    set_cpu_affinity_for_core, verify_binding, AffinityError, CPU_MASK_CAPACITY, NO_ERRNO,
};
use poh_bench::check::{check_poh_speed, pick_best_core, DEFAULT_SAMPLES};
use poh_bench::rate::{
    achieved_rate, average_latency, default_target_rate, evaluate, hashes_per_slot, target_rate,
    SpeedCheckFailure, HASHES_PER_TICK, NS_PER_SLOT, TICKS_PER_SLOT,
};
use poh_bench::hasher::HashState;
use poh_bench::sampler::compute_hash_time;
use poh_bench::stats::{compute_poh_statistics, window_open, BenchmarkStatistics};

fn run_of(samples: u64, batch_times: &[u128]) -> BenchmarkStatistics {
    let mut stats = BenchmarkStatistics::new(samples);
    for &t in batch_times {
        assert!(stats.has_room_for(t));
        stats.record(t);
    }
    stats
}

#[test]
fn default_target_rate_is_exact() {
    assert_eq!(default_target_rate(), 1_600_000);
    assert_eq!(
        target_rate(HASHES_PER_TICK, TICKS_PER_SLOT, NS_PER_SLOT),
        Some(1_600_000)
    );
}

#[test]
fn target_rate_truncates() {
    assert_eq!(target_rate(1, 1, 3), Some(333_333_333));
    assert_eq!(target_rate(10, 1, 3_000_000_000), Some(3));
}

#[test]
fn target_rate_rejects_empty_slot_and_overflow() {
    assert_eq!(target_rate(10_000, 64, 0), None);
    assert_eq!(target_rate(u64::MAX, u64::MAX, 1), None);
    assert_eq!(target_rate(u64::MAX, 1, 1), None);
    assert_eq!(target_rate(u64::MAX, 1, 1_000_000_000), Some(u64::MAX));
}

#[test]
fn hashes_per_slot_of_defaults() {
    assert_eq!(hashes_per_slot(10_000, 64), Some(640_000));
    assert_eq!(DEFAULT_SAMPLES, 640_000);
    assert_eq!(hashes_per_slot(u64::MAX, 2), None);
}

#[test]
fn achieved_rate_uses_whole_seconds() {
    assert_eq!(achieved_rate(3_200_000, 2_000_000_000), 1_600_000);
    assert_eq!(achieved_rate(3_000_000, 1_999_999_999), 3_000_000);
}

#[test]
fn achieved_rate_below_one_second() {
    assert_eq!(achieved_rate(800_000, 500_000_000), 1_600_000);
    assert_eq!(achieved_rate(0, 0), 0);
    assert_eq!(achieved_rate(5, 0), 0);
    assert_eq!(achieved_rate(u64::MAX, 1), u64::MAX);
}

#[test]
fn average_latency_is_time_per_batch() {
    assert_eq!(average_latency(1000, 40, 10), 250);
    assert_eq!(average_latency(1001, 40, 10), 250);
    assert_eq!(average_latency(1000, 40, 0), 0);
    assert_eq!(average_latency(0, 0, 10), 0);
}

#[test]
fn statistics_track_totals_and_extremes() {
    let stats = run_of(10, &[5, 3, 7]);
    assert_eq!(stats.batches, 3);
    assert_eq!(stats.total_hashes, 30);
    assert_eq!(stats.total_time, 15);
    assert_eq!(stats.best_latency, 3);
    assert_eq!(stats.worst_latency, 7);
    assert!(stats.best_latency <= stats.worst_latency);
    assert!(stats.best_latency > 0);
    let avg = average_latency(stats.total_time, stats.total_hashes, 10);
    assert_eq!(avg * (stats.total_hashes / 10) as u128, stats.total_time);
}

#[test]
fn fresh_statistics_are_empty() {
    let stats = BenchmarkStatistics::new(640_000);
    assert_eq!(stats.batches, 0);
    assert_eq!(stats.total_hashes, 0);
    assert_eq!(stats.total_time, 0);
    assert_eq!(stats.best_latency, u128::MAX);
    assert_eq!(stats.worst_latency, 0);
}

#[test]
fn statistics_refuse_overflowing_batches() {
    let mut stats = BenchmarkStatistics::new(u64::MAX);
    assert!(stats.has_room_for(1));
    stats.record(1);
    assert!(!stats.has_room_for(1));
    let big = run_of(1, &[u128::MAX - 1]);
    assert!(!big.has_room_for(2));
    assert!(big.has_room_for(1));
}

#[test]
fn empty_batches_contribute_no_hashes() {
    let stats = run_of(0, &[1, 2]);
    assert_eq!(stats.total_hashes, 0);
    assert_eq!(stats.batches, 2);
    let mut hasher = HashState::new();
    assert!(compute_hash_time(&mut hasher, 0) < 1_000_000_000);
}

#[test]
fn fast_core_passes() {
    let stats = run_of(10_000, &[5_000_000; 200]);
    assert_eq!(stats.total_time, 1_000_000_000);
    assert_eq!(evaluate(&stats, default_target_rate()), Ok(2_000_000));
}

#[test]
fn throttled_core_fails() {
    let stats = run_of(10_000, &[10_000_000; 200]);
    assert_eq!(
        evaluate(&stats, default_target_rate()),
        Err(SpeedCheckFailure { achieved: 1_000_000, target: 1_600_000 })
    );
}

#[test]
fn zero_window_runs_no_batch() {
    let stats = compute_poh_statistics(0, 10_000);
    assert_eq!(stats.batches, 0);
    assert_eq!(stats.total_hashes, 0);
    assert_eq!(stats.total_time, 0);
}

#[test]
fn short_window_runs_batches() {
    let stats = compute_poh_statistics(20_000_000, 1_000);
    assert!(stats.batches >= 1);
    assert_eq!(stats.total_hashes, 1_000 * stats.batches);
    assert!(stats.best_latency <= stats.worst_latency);
    assert!(stats.worst_latency <= stats.total_time);
}

#[test]
fn errno_classification() {
    assert_eq!(affinity_error_from_errno(22), AffinityError::InvalidCore);
    assert_eq!(affinity_error_from_errno(3), AffinityError::ProcessNotFound);
    assert_eq!(affinity_error_from_errno(1), AffinityError::PermissionDenied);
    assert_eq!(affinity_error_from_errno(5), AffinityError::PlatformError(5));
}

#[test]
fn core_index_past_the_list_is_invalid() {
    let cores = vec![0usize, 1];
    assert_eq!(select_core(2, &cores), Err(AffinityError::InvalidCore));
    assert_eq!(select_core(1, &cores), Ok(1));
    assert_eq!(bind_core(2, &cores), Err(AffinityError::InvalidCore));
    assert_eq!(bind_core(0, &vec![CPU_MASK_CAPACITY]), Err(AffinityError::InvalidCore));
    assert_eq!(set_cpu_affinity_for_core(CPU_MASK_CAPACITY), Err(AffinityError::InvalidCore));
    assert!(matches!(
        check_poh_speed(5, &cores, 0, None),
        Err(AffinityError::InvalidCore)
    ));
}

#[test]
fn binding_is_checked_against_read_back() {
    assert_eq!(verify_binding(3, &vec![1, 3]), Ok(()));
    assert_eq!(verify_binding(2, &vec![1, 3]), Err(AffinityError::BindingMismatch));
    assert_eq!(verify_binding(0, &vec![]), Err(AffinityError::BindingMismatch));
}

#[test]
fn affinity_reads_back_mask_positions() {
    match current_affinity() {
        Ok(ids) => {
            assert!(!ids.is_empty());
            assert!(ids.iter().all(|&c| c < CPU_MASK_CAPACITY));
            assert!(ids.windows(2).all(|w| w[0] < w[1]));
        }
        Err(e) => assert_eq!(e, AffinityError::PlatformError(NO_ERRNO)),
    }
}

#[test]
fn check_on_an_allowed_core() {
    let cores = match current_affinity() {
        Ok(ids) => ids,
        Err(_) => return,
    };
    match check_poh_speed(0, &cores, 0, Some(100)) {
        Ok(rep) => {
            assert_eq!(rep.core, cores[0]);
            assert!(rep.affinity.contains(&rep.core));
            assert_eq!(rep.samples_to_test, 100);
            assert_eq!(rep.stats.batches, 0);
            assert_eq!(rep.avg_latency, 0);
            assert_eq!(rep.target_rate, 1_600_000);
            assert_eq!(
                rep.verdict,
                Err(SpeedCheckFailure { achieved: 0, target: 1_600_000 })
            );
        }
        Err(e) => assert!(
            e == AffinityError::PlatformError(NO_ERRNO) || e == AffinityError::BindingMismatch
        ),
    }
}

#[test]
fn best_core_is_first_highest() {
    assert_eq!(
        pick_best_core(&vec![None, Some(5), Some(9), Some(9), Some(0)]),
        Some((2, 9))
    );
    assert_eq!(pick_best_core(&vec![None, Some(0)]), None);
    assert_eq!(pick_best_core(&vec![]), None);
}

#[test]
fn hashing_batches_reuse_one_hasher() {
    let mut hasher = HashState::new();
    hasher.absorb(7);
    hasher.finish_and_reset();
    let first = compute_hash_time(&mut hasher, 1_000);
    let second = compute_hash_time(&mut hasher, 1_000);
    assert!(first < 10_000_000_000);
    assert!(second < 10_000_000_000);
}

#[test]
fn window_closes_at_its_length() {
    assert!(window_open(5, 10));
    assert!(!window_open(10, 10));
    assert!(!window_open(11, 10));
    assert!(!window_open(0, 0));
}

#[test]
fn binding_outcome_follows_the_platform() {
    assert_eq!(
        binding_outcome(3, false, Some(vec![3])),
        Err(AffinityError::PlatformError(NO_ERRNO))
    );
    assert_eq!(
        binding_outcome(3, true, None),
        Err(AffinityError::PlatformError(NO_ERRNO))
    );
    assert_eq!(binding_outcome(3, true, Some(vec![1, 3])), Ok(vec![1, 3]));
    assert_eq!(
        binding_outcome(3, true, Some(vec![0, 1, 2])),
        Err(AffinityError::BindingMismatch)
    );
}
