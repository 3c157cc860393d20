//! Execution weights of calls, with saturating arithmetic.

use vstd::prelude::*;

verus! {

/// A weight: computation time and proof size, both saturating at `u64::MAX`.
#[derive(Debug, Clone, Copy, PartialEq, Eq)]
pub struct Weight {
    /// Computation time, in picoseconds.
    pub ref_time: u64,
    /// Size of the storage proof, in bytes.
    pub proof_size: u64,
}

/// `a + b`, or `u64::MAX` where the sum does not fit.
pub open spec fn sat_add(a: u64, b: u64) -> u64 {
    if a + b > u64::MAX { u64::MAX } else { (a + b) as u64 }
}

/// `a * b`, or `u64::MAX` where the product does not fit.
pub open spec fn sat_mul(a: u64, b: u64) -> u64 {
    if a * b > u64::MAX { u64::MAX } else { (a * b) as u64 }
}

impl Weight {
    /// The weight with the given components.
    pub fn from_parts(ref_time: u64, proof_size: u64) -> (r: Weight)
        ensures
            r.ref_time == ref_time,
            r.proof_size == proof_size,
    {
        Weight { ref_time, proof_size }
    }

    /// The zero weight.
    pub fn zero() -> (r: Weight)
        ensures
            r.ref_time == 0,
            r.proof_size == 0,
    {
        Weight { ref_time: 0, proof_size: 0 }
    }

    /// Component-wise saturating sum.
    pub fn saturating_add(self, other: Weight) -> (r: Weight)
        ensures
            r.ref_time == sat_add(self.ref_time, other.ref_time),
            r.proof_size == sat_add(self.proof_size, other.proof_size),
    {
        Weight {
            ref_time: self.ref_time.saturating_add(other.ref_time),
            proof_size: self.proof_size.saturating_add(other.proof_size),
        }
    }
}

/// The weight of one storage read and of one storage write.
#[derive(Debug, Clone, Copy, PartialEq, Eq)]
pub struct RuntimeDbWeight {
    /// Computation time of one read.
    pub read: u64,
    /// Computation time of one write.
    pub write: u64,
}

impl RuntimeDbWeight {
    /// The weight of `r` reads.
    pub fn reads(self, r: u64) -> (w: Weight)
        ensures
            w.ref_time == sat_mul(self.read, r),
            w.proof_size == 0,
    {
        let t = match self.read.checked_mul(r) {
            Some(t) => t,
            None => u64::MAX,
        };
        Weight::from_parts(t, 0)
    }

    /// The weight of `n` writes.
    pub fn writes(self, n: u64) -> (w: Weight)
        ensures
            w.ref_time == sat_mul(self.write, n),
            w.proof_size == 0,
    {
        let t = match self.write.checked_mul(n) {
            Some(t) => t,
            None => u64::MAX,
        };
        Weight::from_parts(t, 0)
    }
}

} // verus!
