//! The timed hashing batch: the cost of one hashing step, measured many times.
use crate::clock::{clock_now, nanos_since};
use crate::hasher::HashState;
use vstd::prelude::*;

verus! {

/// Relies on `rand::random::<u64>`: a pseudorandom value, of which nothing is
/// known.
#[verifier::external_body]
fn random_u64() -> (r: u64) {
    rand::random::<u64>()
}

/// Runs `samples` hashing steps on `hasher` and returns the wall-clock time
/// the batch took, in nanoseconds. Each step absorbs one fresh pseudorandom
/// value, then finishes the digest and resets the state in place. The time
/// itself is whatever the clock reports.
pub fn compute_hash_time(hasher: &mut HashState, samples: u64) -> (r: u128)
    ensures
        final(hasher).digests() == old(hasher).digests() + samples,
        samples > 0 ==> final(hasher).pending() == Seq::<u64>::empty(),
        samples == 0 ==> final(hasher).pending() == old(hasher).pending(),
{
    let start = clock_now();
    let mut i: u64 = 0;
    while i < samples
        invariant
            i <= samples,
            hasher.digests() == old(hasher).digests() + i,
            i > 0 ==> hasher.pending() == Seq::<u64>::empty(),
            i == 0 ==> hasher.pending() == old(hasher).pending(),
        decreases samples - i,
    {
        let x: u64 = random_u64();
        hasher.absorb(x);
        hasher.finish_and_reset();
        i = i + 1;
    }
    nanos_since(&start)
}

} // verus!
