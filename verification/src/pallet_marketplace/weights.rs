//! Weights of the marketplace pallet's calls.

use vstd::prelude::*;
use crate::weight::{RuntimeDbWeight, Weight};
use crate::pallet_event::weights::base_reads_writes;

verus! {

/// Weights of the calls of the marketplace pallet.
pub trait WeightInfo {
    fn list(&self) -> Weight;
    fn delist(&self) -> Weight;
    fn buy(&self) -> Weight;
}

/// Placeholder weights over the runtime's storage weights.
pub struct SubstrateWeight {
    /// Weight of one storage read and one storage write.
    pub db: RuntimeDbWeight,
}

impl WeightInfo for SubstrateWeight {
    /// Two reads and three writes.
    fn list(&self) -> (r: Weight)
        ensures
            r == base_reads_writes(self.db, 10_000, 2, 3),
    {
        Weight::from_parts(10_000, 0).saturating_add(self.db.reads(2)).saturating_add(self.db.writes(3))
    }

    /// One read and two writes.
    fn delist(&self) -> (r: Weight)
        ensures
            r == base_reads_writes(self.db, 10_000, 1, 2),
    {
        Weight::from_parts(10_000, 0).saturating_add(self.db.reads(1)).saturating_add(self.db.writes(2))
    }

    /// One read and two writes.
    fn buy(&self) -> (r: Weight)
        ensures
            r == base_reads_writes(self.db, 10_000, 1, 2),
    {
        Weight::from_parts(10_000, 0).saturating_add(self.db.reads(1)).saturating_add(self.db.writes(2))
    }
}

/// Zero weights, for tests.
impl WeightInfo for () {
    fn list(&self) -> (r: Weight)
        ensures
            r == (Weight { ref_time: 0, proof_size: 0 }),
    {
        Weight::zero()
    }

    fn delist(&self) -> (r: Weight)
        ensures
            r == (Weight { ref_time: 0, proof_size: 0 }),
    {
        Weight::zero()
    }

    fn buy(&self) -> (r: Weight)
        ensures
            r == (Weight { ref_time: 0, proof_size: 0 }),
    {
        Weight::zero()
    }
}

} // verus!
