//! The runtime: the four pallets side by side, the configuration they run
//! under, and the routing of each call to its pallet.

use vstd::prelude::*;
use crate::dispatch::{BlockNumber, DispatchResult, Origin};
use crate::pallet_event;
use crate::pallet_marketplace;
use crate::pallet_scanner;
use crate::pallet_ticket;
use crate::weight::RuntimeDbWeight;

verus! {

/// Longest name, venue, tier or seat string the ticket pallet stores.
pub const MAX_STRING_LENGTH: u32 = 128;

/// Storage weights of the RocksDB backend: 25 µs per read, 100 µs per write,
/// in picoseconds.
pub fn rocks_db_weight() -> (w: RuntimeDbWeight)
    ensures
        w.read == 25_000_000,
        w.write == 100_000_000,
{
    RuntimeDbWeight { read: 25_000_000, write: 100_000_000 }
}

/// The version of the runtime.
#[derive(Debug, Clone, PartialEq, Eq)]
pub struct RuntimeVersion {
    /// Name of the chain specification.
    pub spec_name: String,
    /// Name of the implementation.
    pub impl_name: String,
    /// Version of the block authoring logic.
    pub authoring_version: u32,
    /// Version of the runtime specification.
    pub spec_version: u32,
    /// Version of the implementation of the specification.
    pub impl_version: u32,
    /// Version of the transaction format.
    pub transaction_version: u32,
    /// Version of the system functions.
    pub system_version: u8,
}

/// The version of the native runtime, with the authoring versions it
/// accepts besides its own.
#[derive(Debug, Clone, PartialEq, Eq)]
pub struct NativeVersion {
    /// The runtime version.
    pub runtime_version: RuntimeVersion,
    /// Further specification versions this native runtime can author with.
    pub can_author_with: Vec<u32>,
}

/// The version of the native runtime: `roc-chain`, specification 100.
pub fn native_version() -> (v: NativeVersion)
    ensures
        v.runtime_version.spec_name@ == "roc-chain"@,
        v.runtime_version.impl_name@ == "roc-chain"@,
        v.runtime_version.authoring_version == 1,
        v.runtime_version.spec_version == 100,
        v.runtime_version.impl_version == 1,
        v.runtime_version.transaction_version == 1,
        v.runtime_version.system_version == 1,
        v.can_author_with@.len() == 0,
{
    NativeVersion {
        runtime_version: RuntimeVersion {
            spec_name: "roc-chain".to_owned(),
            impl_name: "roc-chain".to_owned(),
            authoring_version: 1,
            spec_version: 100,
            impl_version: 1,
            transaction_version: 1,
            system_version: 1,
        },
        can_author_with: Vec::new(),
    }
}

/// A call of any pallet.
#[derive(Debug)]
pub enum RuntimeCall {
    Ticket(pallet_ticket::Call<MAX_STRING_LENGTH>),
    Event(pallet_event::Call),
    Marketplace(pallet_marketplace::Call),
    Scanner(pallet_scanner::Call),
}

/// Why a call failed, tagged with its pallet.
#[derive(Debug, Clone, Copy, PartialEq, Eq)]
pub enum RuntimeError {
    Ticket(crate::dispatch::DispatchError<pallet_ticket::Error>),
    Event(crate::dispatch::DispatchError<pallet_event::Error>),
    Marketplace(crate::dispatch::DispatchError<pallet_marketplace::Error>),
    Scanner(crate::dispatch::DispatchError<pallet_scanner::Error>),
}

/// The pallet error `r`, tagged with its pallet by `tag`.
pub open spec fn tagged<E>(r: DispatchResult<E>, tag: spec_fn(crate::dispatch::DispatchError<E>) -> RuntimeError) -> Result<(), RuntimeError> {
    match r {
        Ok(()) => Ok(()),
        Err(e) => Err(tag(e)),
    }
}

/// The state of the four pallets and the current block number.
#[derive(Debug)]
pub struct Runtime {
    /// The block being built.
    pub block_number: BlockNumber,
    /// Tickets and the events they admit to.
    pub ticket: pallet_ticket::Pallet<MAX_STRING_LENGTH>,
    /// Event records and capacity.
    pub event: pallet_event::Pallet,
    /// The secondary marketplace.
    pub marketplace: pallet_marketplace::Pallet,
    /// Entry scanning.
    pub scanner: pallet_scanner::Pallet,
}

impl Runtime {
    /// The genesis state: every pallet empty, at block 0.
    pub fn new() -> (r: Runtime)
        ensures
            r.block_number == 0,
            r.ticket@.wf(),
            r.ticket@.next_event_id == 0,
            r.ticket@.next_ticket_id == 0,
            r.ticket@.events.is_empty(),
            r.ticket@.tickets.is_empty(),
            r.ticket@.tickets_by_owner.is_empty(),
            r.ticket@.tickets_by_event.is_empty(),
            r.ticket@.balances.is_empty(),
            r.ticket@.deposited.len() == 0,
            r.event@.wf(),
            r.event@.next_event_id == 0,
            r.event@.events.is_empty(),
            r.event@.deposited.len() == 0,
            r.marketplace@.wf(),
            r.marketplace@.next_listing_id == 0,
            r.marketplace@.listings.is_empty(),
            r.marketplace@.ticket_listing.is_empty(),
            r.marketplace@.deposited.len() == 0,
            r.scanner@.scan_record.is_empty(),
            r.scanner@.authorized_scanners.is_empty(),
            r.scanner@.deposited.len() == 0,
    {
        Runtime {
            block_number: 0,
            ticket: pallet_ticket::Pallet::new(),
            event: pallet_event::Pallet::new(),
            marketplace: pallet_marketplace::Pallet::new(),
            scanner: pallet_scanner::Pallet::new(),
        }
    }

    /// Starts block `n`.
    pub fn set_block_number(&mut self, n: BlockNumber)
        ensures
            final(self).block_number == n,
            final(self).ticket@ == old(self).ticket@,
            final(self).event@ == old(self).event@,
            final(self).marketplace@ == old(self).marketplace@,
            final(self).scanner@ == old(self).scanner@,
    {
        self.block_number = n;
    }

    /// Dispatches `call` from `origin` to its pallet in the current block.
    /// A marketplace purchase also moves the ticket and the payment in the
    /// ticket pallet; a scanner call reads the organizer from the event
    /// pallet and an entry marks the ticket used in the ticket pallet. Every
    /// other pallet is left as it was.
    pub fn dispatch(&mut self, origin: Origin, call: RuntimeCall) -> (r: Result<(), RuntimeError>)
        ensures
            final(self).block_number == old(self).block_number,
            match call {
                RuntimeCall::Ticket(c) => {
                    &&& final(self).ticket@ == pallet_ticket::step(old(self).ticket@, origin, c).0
                    &&& r == tagged(pallet_ticket::step(old(self).ticket@, origin, c).1, |e| RuntimeError::Ticket(e))
                    &&& final(self).event@ == old(self).event@
                    &&& final(self).marketplace@ == old(self).marketplace@
                    &&& final(self).scanner@ == old(self).scanner@
                },
                RuntimeCall::Event(c) => {
                    &&& final(self).event@ == pallet_event::step(old(self).event@, origin, c).0
                    &&& r == tagged(pallet_event::step(old(self).event@, origin, c).1, |e| RuntimeError::Event(e))
                    &&& final(self).ticket@ == old(self).ticket@
                    &&& final(self).marketplace@ == old(self).marketplace@
                    &&& final(self).scanner@ == old(self).scanner@
                },
                RuntimeCall::Marketplace(c) => {
                    &&& final(self).marketplace@ == pallet_marketplace::step(old(self).marketplace@, old(self).ticket@, origin, c).0
                    &&& final(self).ticket@ == pallet_marketplace::step(old(self).marketplace@, old(self).ticket@, origin, c).1
                    &&& r == tagged(pallet_marketplace::step(old(self).marketplace@, old(self).ticket@, origin, c).2, |e| RuntimeError::Marketplace(e))
                    &&& final(self).event@ == old(self).event@
                    &&& final(self).scanner@ == old(self).scanner@
                },
                RuntimeCall::Scanner(c) => {
                    &&& final(self).scanner@ == pallet_scanner::step(old(self).scanner@, old(self).event@, old(self).ticket@, origin, c, old(self).block_number).0
                    &&& final(self).ticket@ == pallet_scanner::step(old(self).scanner@, old(self).event@, old(self).ticket@, origin, c, old(self).block_number).1
                    &&& r == tagged(pallet_scanner::step(old(self).scanner@, old(self).event@, old(self).ticket@, origin, c, old(self).block_number).2, |e| RuntimeError::Scanner(e))
                    &&& final(self).event@ == old(self).event@
                    &&& final(self).marketplace@ == old(self).marketplace@
                },
            },
    {
        match call {
            RuntimeCall::Ticket(c) => match self.ticket.dispatch(origin, c) {
                Ok(()) => Ok(()),
                Err(e) => Err(RuntimeError::Ticket(e)),
            },
            RuntimeCall::Event(c) => match self.event.dispatch(origin, c) {
                Ok(()) => Ok(()),
                Err(e) => Err(RuntimeError::Event(e)),
            },
            RuntimeCall::Marketplace(c) => match self.marketplace.dispatch(&mut self.ticket, origin, c) {
                Ok(()) => Ok(()),
                Err(e) => Err(RuntimeError::Marketplace(e)),
            },
            RuntimeCall::Scanner(c) => match self.scanner.dispatch(&self.event, &mut self.ticket, origin, c, self.block_number) {
                Ok(()) => Ok(()),
                Err(e) => Err(RuntimeError::Scanner(e)),
            },
        }
    }
}

} // verus!
