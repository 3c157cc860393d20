//! Weights of the ticket pallet's calls.

use vstd::prelude::*;
use crate::weight::{RuntimeDbWeight, Weight};
use crate::pallet_event::weights::base_reads_writes;

verus! {

/// Weights of the calls of the ticket pallet.
pub trait WeightInfo {
    fn create_event(&self) -> Weight;
    fn mint_tickets(&self, count: u32) -> Weight;
    fn purchase_ticket(&self) -> Weight;
    fn transfer_ticket(&self) -> Weight;
    fn validate_ticket(&self) -> Weight;
}

/// Placeholder weights over the runtime's storage weights.
pub struct SubstrateWeight {
    /// Weight of one storage read and one storage write.
    pub db: RuntimeDbWeight,
}

impl WeightInfo for SubstrateWeight {
    /// Reads the event counter; writes it and the event record.
    fn create_event(&self) -> (r: Weight)
        ensures
            r == base_reads_writes(self.db, 20_000, 1, 2),
    {
        Weight::from_parts(20_000, 0).saturating_add(self.db.reads(1)).saturating_add(self.db.writes(2))
    }

    /// Reads the ticket counter and the event; writes the counter, the event
    /// and, per ticket, its record and both index entries.
    fn mint_tickets(&self, count: u32) -> (r: Weight)
        ensures
            r == base_reads_writes(self.db, 20_000, 2, (2 + 3 * count) as u64),
    {
        Weight::from_parts(20_000, 0)
            .saturating_add(self.db.reads(2))
            .saturating_add(self.db.writes(2 + 3 * count as u64))
    }

    /// Reads the ticket and the event; writes the ticket, two owner index
    /// entries and the event.
    fn purchase_ticket(&self) -> (r: Weight)
        ensures
            r == base_reads_writes(self.db, 30_000, 2, 4),
    {
        Weight::from_parts(30_000, 0).saturating_add(self.db.reads(2)).saturating_add(self.db.writes(4))
    }

    /// Reads the ticket and the event; writes the ticket and two owner index
    /// entries.
    fn transfer_ticket(&self) -> (r: Weight)
        ensures
            r == base_reads_writes(self.db, 25_000, 2, 3),
    {
        Weight::from_parts(25_000, 0).saturating_add(self.db.reads(2)).saturating_add(self.db.writes(3))
    }

    /// Reads and writes the ticket.
    fn validate_ticket(&self) -> (r: Weight)
        ensures
            r == base_reads_writes(self.db, 15_000, 1, 1),
    {
        Weight::from_parts(15_000, 0).saturating_add(self.db.reads(1)).saturating_add(self.db.writes(1))
    }
}

/// Zero weights, for tests.
impl WeightInfo for () {
    fn create_event(&self) -> (r: Weight)
        ensures
            r == (Weight { ref_time: 0, proof_size: 0 }),
    {
        Weight::zero()
    }

    fn mint_tickets(&self, count: u32) -> (r: Weight)
        ensures
            r == (Weight { ref_time: 0, proof_size: 0 }),
    {
        Weight::zero()
    }

    fn purchase_ticket(&self) -> (r: Weight)
        ensures
            r == (Weight { ref_time: 0, proof_size: 0 }),
    {
        Weight::zero()
    }

    fn transfer_ticket(&self) -> (r: Weight)
        ensures
            r == (Weight { ref_time: 0, proof_size: 0 }),
    {
        Weight::zero()
    }

    fn validate_ticket(&self) -> (r: Weight)
        ensures
            r == (Weight { ref_time: 0, proof_size: 0 }),
    {
        Weight::zero()
    }
}

} // verus!
