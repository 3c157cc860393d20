//! Weights of the scanner pallet's calls.

use vstd::prelude::*;
use crate::weight::{RuntimeDbWeight, Weight};
use crate::pallet_event::weights::base_reads_writes;

verus! {

/// Weights of the calls of the scanner pallet.
pub trait WeightInfo {
    fn authorize_scanner(&self) -> Weight;
    fn revoke_scanner(&self) -> Weight;
    fn validate_entry(&self) -> Weight;
}

/// Placeholder weights over the runtime's storage weights.
pub struct SubstrateWeight {
    /// Weight of one storage read and one storage write.
    pub db: RuntimeDbWeight,
}

impl WeightInfo for SubstrateWeight {
    /// One write.
    fn authorize_scanner(&self) -> (r: Weight)
        ensures
            r == base_reads_writes(self.db, 10_000, 0, 1),
    {
        Weight::from_parts(10_000, 0).saturating_add(self.db.writes(1))
    }

    /// One write.
    fn revoke_scanner(&self) -> (r: Weight)
        ensures
            r == base_reads_writes(self.db, 10_000, 0, 1),
    {
        Weight::from_parts(10_000, 0).saturating_add(self.db.writes(1))
    }

    /// Two reads and one write.
    fn validate_entry(&self) -> (r: Weight)
        ensures
            r == base_reads_writes(self.db, 10_000, 2, 1),
    {
        Weight::from_parts(10_000, 0).saturating_add(self.db.reads(2)).saturating_add(self.db.writes(1))
    }
}

/// Zero weights, for tests.
impl WeightInfo for () {
    fn authorize_scanner(&self) -> (r: Weight)
        ensures
            r == (Weight { ref_time: 0, proof_size: 0 }),
    {
        Weight::zero()
    }

    fn revoke_scanner(&self) -> (r: Weight)
        ensures
            r == (Weight { ref_time: 0, proof_size: 0 }),
    {
        Weight::zero()
    }

    fn validate_entry(&self) -> (r: Weight)
        ensures
            r == (Weight { ref_time: 0, proof_size: 0 }),
    {
        Weight::zero()
    }
}

} // verus!
