//! A SHA-256 hasher with a model of what it has done: the digests it has
//! finished, and the values it has absorbed since its last reset.
use sha2::Digest;
use sha2::Sha256;
use vstd::prelude::*;

verus! {

/// sha2's SHA-256 state. sha2 spells its hasher through several layers of
/// generic wrappers, so the state is held here whole.
#[verifier::external_body]
struct Sha256State {
    inner: Sha256,
}

/// Relies on `Sha256::new` (sha2): a fresh hasher with nothing absorbed.
#[verifier::external_body]
fn sha256_new() -> (r: Sha256State) {
    Sha256State { inner: Sha256::new() }
}

/// Relies on `Digest::update` of `Sha256`: absorbs the eight little-endian
/// bytes of `x` into the running state.
#[verifier::external_body]
fn sha256_update_u64(h: &mut Sha256State, x: u64) {
    h.inner.update(x.to_le_bytes())
}

/// Relies on `Digest::finalize_reset` of `Sha256`: completes the digest and
/// resets the state for the next input. The digest itself is not needed.
#[verifier::external_body]
fn sha256_finalize_reset(h: &mut Sha256State) {
    let _ = h.inner.finalize_reset();
}

/// A running SHA-256 state, reused across many digests.
pub struct HashState {
    state: Sha256State,
    finished: Ghost<nat>,
    absorbed: Ghost<Seq<u64>>,
}

impl HashState {
    /// The number of digests finished since the hasher was made.
    pub closed spec fn digests(&self) -> nat {
        self.finished@
    }

    /// The values absorbed since the last digest was finished.
    pub closed spec fn pending(&self) -> Seq<u64> {
        self.absorbed@
    }

    /// A fresh hasher: no digest finished, nothing absorbed.
    pub fn new() -> (r: Self)
        ensures
            r.digests() == 0,
            r.pending() == Seq::<u64>::empty(),
    {
        HashState { state: sha256_new(), finished: Ghost(0), absorbed: Ghost(Seq::empty()) }
    }

    /// Absorbs the eight little-endian bytes of `x`.
    pub fn absorb(&mut self, x: u64)
        ensures
            final(self).digests() == old(self).digests(),
            final(self).pending() == old(self).pending().push(x),
    {
        sha256_update_u64(&mut self.state, x);
        self.absorbed = Ghost(self.absorbed@.push(x));
    }

    /// Finishes the digest of what was absorbed, discards it, and resets the
    /// state in place for the next input.
    pub fn finish_and_reset(&mut self)
        ensures
            final(self).digests() == old(self).digests() + 1,
            final(self).pending() == Seq::<u64>::empty(),
    {
        sha256_finalize_reset(&mut self.state);
        self.finished = Ghost(self.finished@ + 1);
        self.absorbed = Ghost(Seq::empty());
    }
}

} // verus!
