//! Weights of the event pallet's calls.

use vstd::prelude::*;
use crate::weight::{sat_add, sat_mul, RuntimeDbWeight, Weight};

verus! {

/// Weights of the calls of the event pallet.
pub trait WeightInfo {
    fn create_event(&self) -> Weight;
    fn update_metadata(&self) -> Weight;
    fn cancel_event(&self) -> Weight;
    fn increment_sold(&self) -> Weight;
}

/// The weight of a call with base time `base`, `r` reads and `w` writes.
pub open spec fn base_reads_writes(db: RuntimeDbWeight, base: u64, r: u64, w: u64) -> Weight {
    Weight {
        ref_time: sat_add(sat_add(base, sat_mul(db.read, r)), sat_mul(db.write, w)),
        proof_size: 0,
    }
}

/// Placeholder weights over the runtime's storage weights.
pub struct SubstrateWeight {
    /// Weight of one storage read and one storage write.
    pub db: RuntimeDbWeight,
}

impl WeightInfo for SubstrateWeight {
    /// One read and two writes.
    fn create_event(&self) -> (r: Weight)
        ensures
            r == base_reads_writes(self.db, 10_000, 1, 2),
    {
        Weight::from_parts(10_000, 0).saturating_add(self.db.reads(1)).saturating_add(self.db.writes(2))
    }

    /// One read and one write.
    fn update_metadata(&self) -> (r: Weight)
        ensures
            r == base_reads_writes(self.db, 10_000, 1, 1),
    {
        Weight::from_parts(10_000, 0).saturating_add(self.db.reads(1)).saturating_add(self.db.writes(1))
    }

    /// One read and one write.
    fn cancel_event(&self) -> (r: Weight)
        ensures
            r == base_reads_writes(self.db, 10_000, 1, 1),
    {
        Weight::from_parts(10_000, 0).saturating_add(self.db.reads(1)).saturating_add(self.db.writes(1))
    }

    /// One read and one write.
    fn increment_sold(&self) -> (r: Weight)
        ensures
            r == base_reads_writes(self.db, 10_000, 1, 1),
    {
        Weight::from_parts(10_000, 0).saturating_add(self.db.reads(1)).saturating_add(self.db.writes(1))
    }
}

/// Zero weights, for tests.
impl WeightInfo for () {
    fn create_event(&self) -> (r: Weight)
        ensures
            r == (Weight { ref_time: 0, proof_size: 0 }),
    {
        Weight::zero()
    }

    fn update_metadata(&self) -> (r: Weight)
        ensures
            r == (Weight { ref_time: 0, proof_size: 0 }),
    {
        Weight::zero()
    }

    fn cancel_event(&self) -> (r: Weight)
        ensures
            r == (Weight { ref_time: 0, proof_size: 0 }),
    {
        Weight::zero()
    }

    fn increment_sold(&self) -> (r: Weight)
        ensures
            r == (Weight { ref_time: 0, proof_size: 0 }),
    {
        Weight::zero()
    }
}

} // verus!
