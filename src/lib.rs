//! Measures whether one CPU core sustains the sequential hashing rate that a
//! fixed-cadence hash chain needs: bind to the core, time batches of hashes,
//! aggregate the timings and compare the achieved rate with the target rate.

pub mod clock;
pub mod hasher;
pub mod sampler;
pub mod stats;
pub mod rate;
pub mod affinity;
pub mod check;
