//! Event records and capacity management.
//!
//! Organizers create event records that fix a ticket capacity and point at
//! off-chain metadata by an IPFS CID. The pallet counts sold tickets against
//! the capacity so that an event is never oversold.

pub mod laws;
pub mod weights;

use std::collections::HashMap;
use vstd::prelude::*;
use crate::bounded::BoundedBytes;
use crate::dispatch::{ensure_signed, signer_of, AccountId, DispatchError, DispatchResult, Origin};

verus! {

broadcast use vstd::std_specs::hash::group_hash_axioms;

/// An IPFS CID of at most 64 bytes.
pub type Cid = BoundedBytes<64>;

/// The on-chain record of an event.
#[derive(Debug, PartialEq, Eq)]
pub struct EventRecord {
    /// Account that created the event.
    pub organizer: AccountId,
    /// Maximum number of tickets that can be sold.
    pub capacity: u32,
    /// Number of tickets sold so far.
    pub sold: u32,
    /// IPFS CID of the off-chain metadata (name, venue, date, ...).
    pub metadata_cid: Cid,
    /// Whether the event has been cancelled.
    pub cancelled: bool,
}

/// What the pallet reports of each successful call.
#[derive(Debug, Clone, Copy, PartialEq, Eq)]
pub enum Event {
    /// A new event was created.
    EventCreated { event_id: u64, organizer: AccountId, capacity: u32 },
    /// Event metadata was updated.
    MetadataUpdated { event_id: u64 },
    /// An event was cancelled.
    EventCancelled { event_id: u64 },
    /// The sold count was incremented to `sold`.
    SoldIncremented { event_id: u64, sold: u32 },
}

/// Why a call of this pallet failed.
#[derive(Debug, Clone, Copy, PartialEq, Eq)]
pub enum Error {
    /// The event does not exist.
    EventNotFound,
    /// The caller is not the event organizer.
    NotOrganizer,
    /// The event has been cancelled.
    EventCancelled,
    /// The event is sold out.
    SoldOut,
    /// Arithmetic overflow on the sold count.
    SoldCountOverflow,
    /// Arithmetic overflow on the event id counter.
    EventIdOverflow,
}

/// A call of this pallet.
#[derive(Debug)]
pub enum Call {
    CreateEvent { capacity: u32, metadata_cid: Cid },
    UpdateMetadata { event_id: u64, new_cid: Cid },
    CancelEvent { event_id: u64 },
    IncrementSold { event_id: u64 },
}

/// The pallet's storage, and the events it has deposited.
#[derive(Debug)]
pub struct Pallet {
    /// The id the next created event gets.
    pub next_event_id: u64,
    /// Event records by id.
    pub events: HashMap<u64, EventRecord>,
    /// Events deposited so far, oldest first.
    pub deposited: Vec<Event>,
}

/// The abstract state of the pallet.
#[verifier::ext_equal]
pub struct PalletState {
    pub next_event_id: u64,
    pub events: Map<u64, EventRecord>,
    pub deposited: Seq<Event>,
}

impl View for Pallet {
    type V = PalletState;

    open spec fn view(&self) -> PalletState {
        PalletState { next_event_id: self.next_event_id, events: self.events@, deposited: self.deposited@ }
    }
}

impl PalletState {
    /// The storage invariant: every record has an id below the counter and
    /// has sold no more tickets than its capacity.
    pub open spec fn wf(self) -> bool {
        forall|id: u64| #[trigger] self.events.contains_key(id) ==> {
            &&& id < self.next_event_id
            &&& self.events[id].sold <= self.events[id].capacity
        }
    }

    /// The same state with `e` deposited.
    pub open spec fn deposit(self, e: Event) -> PalletState {
        PalletState { deposited: self.deposited.push(e), ..self }
    }

    /// The same state with the record at `id` replaced by `r`.
    pub open spec fn with_record(self, id: u64, r: EventRecord) -> PalletState {
        PalletState { events: self.events.insert(id, r), ..self }
    }
}

/// The organizer of event `event_id`, if the event exists.
pub open spec fn organizer_of(s: PalletState, event_id: u64) -> Option<AccountId> {
    if s.events.contains_key(event_id) { Some(s.events[event_id].organizer) } else { None }
}

/// `create_event`: a signed caller creates an event with the next free id.
pub open spec fn create_event_step(s: PalletState, origin: Origin, capacity: u32, metadata_cid: Cid) -> (PalletState, DispatchResult<Error>) {
    match signer_of::<Error>(origin) {
        Err(e) => (s, Err(e)),
        Ok(organizer) => if s.next_event_id == u64::MAX {
            (s, Err(DispatchError::Module(Error::EventIdOverflow)))
        } else {
            let id = s.next_event_id;
            let rec = EventRecord { organizer, capacity, sold: 0, metadata_cid, cancelled: false };
            (PalletState {
                next_event_id: (id + 1) as u64,
                events: s.events.insert(id, rec),
                deposited: s.deposited.push(Event::EventCreated { event_id: id, organizer, capacity }),
            }, Ok(()))
        },
    }
}

/// The check that `update_metadata` and `cancel_event` share: the event
/// exists, the caller organizes it and it is not cancelled.
pub open spec fn organizer_check(s: PalletState, caller: AccountId, event_id: u64) -> Result<(), Error> {
    if !s.events.contains_key(event_id) {
        Err(Error::EventNotFound)
    } else if s.events[event_id].organizer != caller {
        Err(Error::NotOrganizer)
    } else if s.events[event_id].cancelled {
        Err(Error::EventCancelled)
    } else {
        Ok(())
    }
}

/// `update_metadata`: the organizer replaces the CID of a live event.
pub open spec fn update_metadata_step(s: PalletState, origin: Origin, event_id: u64, new_cid: Cid) -> (PalletState, DispatchResult<Error>) {
    match signer_of::<Error>(origin) {
        Err(e) => (s, Err(e)),
        Ok(caller) => match organizer_check(s, caller, event_id) {
            Err(e) => (s, Err(DispatchError::Module(e))),
            Ok(()) => {
                let r = s.events[event_id];
                let r2 = EventRecord { metadata_cid: new_cid, ..r };
                (s.with_record(event_id, r2).deposit(Event::MetadataUpdated { event_id }), Ok(()))
            },
        },
    }
}

/// `cancel_event`: the organizer cancels a live event.
pub open spec fn cancel_event_step(s: PalletState, origin: Origin, event_id: u64) -> (PalletState, DispatchResult<Error>) {
    match signer_of::<Error>(origin) {
        Err(e) => (s, Err(e)),
        Ok(caller) => match organizer_check(s, caller, event_id) {
            Err(e) => (s, Err(DispatchError::Module(e))),
            Ok(()) => {
                let r = s.events[event_id];
                let r2 = EventRecord { cancelled: true, ..r };
                (s.with_record(event_id, r2).deposit(Event::EventCancelled { event_id }), Ok(()))
            },
        },
    }
}

/// `increment_sold`: any signed caller counts one more sold ticket of a live
/// event that is not sold out.
pub open spec fn increment_sold_step(s: PalletState, origin: Origin, event_id: u64) -> (PalletState, DispatchResult<Error>) {
    match signer_of::<Error>(origin) {
        Err(e) => (s, Err(e)),
        Ok(_) => if !s.events.contains_key(event_id) {
            (s, Err(DispatchError::Module(Error::EventNotFound)))
        } else if s.events[event_id].cancelled {
            (s, Err(DispatchError::Module(Error::EventCancelled)))
        } else if s.events[event_id].sold >= s.events[event_id].capacity {
            (s, Err(DispatchError::Module(Error::SoldOut)))
        } else {
            let r = s.events[event_id];
            let sold = (r.sold + 1) as u32;
            let r2 = EventRecord { sold, ..r };
            (s.with_record(event_id, r2).deposit(Event::SoldIncremented { event_id, sold }), Ok(()))
        },
    }
}

/// The effect of dispatching `call` from `origin` in state `s`.
pub open spec fn step(s: PalletState, origin: Origin, call: Call) -> (PalletState, DispatchResult<Error>) {
    match call {
        Call::CreateEvent { capacity, metadata_cid } => create_event_step(s, origin, capacity, metadata_cid),
        Call::UpdateMetadata { event_id, new_cid } => update_metadata_step(s, origin, event_id, new_cid),
        Call::CancelEvent { event_id } => cancel_event_step(s, origin, event_id),
        Call::IncrementSold { event_id } => increment_sold_step(s, origin, event_id),
    }
}

impl Pallet {
    /// An empty pallet: no events, counter at zero.
    pub fn new() -> (p: Pallet)
        ensures
            p@.next_event_id == 0,
            p@.events.is_empty(),
            p@.deposited.len() == 0,
            p@.wf(),
    {
        Pallet { next_event_id: 0, events: HashMap::new(), deposited: Vec::new() }
    }

    /// The id the next created event gets.
    pub fn next_event_id(&self) -> (r: u64)
        ensures
            r == self@.next_event_id,
    {
        self.next_event_id
    }

    /// The record of event `event_id`, if any.
    pub fn events(&self, event_id: u64) -> (r: Option<&EventRecord>)
        ensures
            r matches Some(rec) ==> self@.events.contains_key(event_id) && *rec == self@.events[event_id],
            r is None ==> !self@.events.contains_key(event_id),
    {
        self.events.get(&event_id)
    }

    /// The organizer of event `event_id`, if the event exists.
    pub fn organizer_of(&self, event_id: u64) -> (r: Option<AccountId>)
        ensures
            r == organizer_of(self@, event_id),
    {
        match self.events.get(&event_id) {
            Some(rec) => Some(rec.organizer),
            None => None,
        }
    }

    /// Creates a new event with the given capacity and metadata CID.
    pub fn create_event(&mut self, origin: Origin, capacity: u32, metadata_cid: Cid) -> (r: DispatchResult<Error>)
        ensures
            final(self)@ == create_event_step(old(self)@, origin, capacity, metadata_cid).0,
            r == create_event_step(old(self)@, origin, capacity, metadata_cid).1,
    {
        let ghost s0 = self@;
        let organizer = match ensure_signed::<Error>(origin) {
            Ok(who) => who,
            Err(e) => return Err(e),
        };
        let event_id = self.next_event_id;
        let next = match event_id.checked_add(1) {
            Some(n) => n,
            None => return Err(DispatchError::Module(Error::EventIdOverflow)),
        };
        self.next_event_id = next;
        self.events.insert(
            event_id,
            EventRecord { organizer, capacity, sold: 0, metadata_cid, cancelled: false },
        );
        self.deposited.push(Event::EventCreated { event_id, organizer, capacity });
        assert(self@ =~= create_event_step(s0, origin, capacity, metadata_cid).0);
        Ok(())
    }

    /// The shared check of `update_metadata` and `cancel_event`.
    fn check_organizer(&self, caller: AccountId, event_id: u64) -> (r: Result<(), Error>)
        ensures
            r == organizer_check(self@, caller, event_id),
    {
        match self.events.get(&event_id) {
            None => Err(Error::EventNotFound),
            Some(rec) => {
                if rec.organizer != caller {
                    Err(Error::NotOrganizer)
                } else if rec.cancelled {
                    Err(Error::EventCancelled)
                } else {
                    Ok(())
                }
            },
        }
    }

    /// Replaces the metadata CID of an event; the caller must organize it.
    pub fn update_metadata(&mut self, origin: Origin, event_id: u64, new_cid: Cid) -> (r: DispatchResult<Error>)
        ensures
            final(self)@ == update_metadata_step(old(self)@, origin, event_id, new_cid).0,
            r == update_metadata_step(old(self)@, origin, event_id, new_cid).1,
    {
        let ghost s0 = self@;
        let caller = match ensure_signed::<Error>(origin) {
            Ok(who) => who,
            Err(e) => return Err(e),
        };
        if let Err(e) = self.check_organizer(caller, event_id) {
            return Err(DispatchError::Module(e));
        }
        let mut rec = self.events.remove(&event_id).unwrap();
        rec.metadata_cid = new_cid;
        self.events.insert(event_id, rec);
        self.deposited.push(Event::MetadataUpdated { event_id });
        assert(self@ =~= update_metadata_step(s0, origin, event_id, new_cid).0);
        Ok(())
    }

    /// Cancels an event; the caller must organize it.
    pub fn cancel_event(&mut self, origin: Origin, event_id: u64) -> (r: DispatchResult<Error>)
        ensures
            final(self)@ == cancel_event_step(old(self)@, origin, event_id).0,
            r == cancel_event_step(old(self)@, origin, event_id).1,
    {
        let ghost s0 = self@;
        let caller = match ensure_signed::<Error>(origin) {
            Ok(who) => who,
            Err(e) => return Err(e),
        };
        if let Err(e) = self.check_organizer(caller, event_id) {
            return Err(DispatchError::Module(e));
        }
        let mut rec = self.events.remove(&event_id).unwrap();
        rec.cancelled = true;
        self.events.insert(event_id, rec);
        self.deposited.push(Event::EventCancelled { event_id });
        assert(self@ =~= cancel_event_step(s0, origin, event_id).0);
        Ok(())
    }

    /// Counts one more sold ticket of a live event that is not sold out.
    pub fn increment_sold(&mut self, origin: Origin, event_id: u64) -> (r: DispatchResult<Error>)
        ensures
            final(self)@ == increment_sold_step(old(self)@, origin, event_id).0,
            r == increment_sold_step(old(self)@, origin, event_id).1,
    {
        let ghost s0 = self@;
        match ensure_signed::<Error>(origin) {
            Ok(_) => {},
            Err(e) => return Err(e),
        }
        match self.events.get(&event_id) {
            None => return Err(DispatchError::Module(Error::EventNotFound)),
            Some(rec) => {
                if rec.cancelled {
                    return Err(DispatchError::Module(Error::EventCancelled));
                }
                if rec.sold >= rec.capacity {
                    return Err(DispatchError::Module(Error::SoldOut));
                }
            },
        }
        let mut rec = self.events.remove(&event_id).unwrap();
        let sold = match rec.sold.checked_add(1) {
            Some(n) => n,
            None => {
                self.events.insert(event_id, rec);
                return Err(DispatchError::Module(Error::SoldCountOverflow));
            },
        };
        rec.sold = sold;
        self.events.insert(event_id, rec);
        self.deposited.push(Event::SoldIncremented { event_id, sold });
        assert(self@ =~= increment_sold_step(s0, origin, event_id).0);
        Ok(())
    }

    /// Dispatches `call` from `origin`.
    pub fn dispatch(&mut self, origin: Origin, call: Call) -> (r: DispatchResult<Error>)
        ensures
            final(self)@ == step(old(self)@, origin, call).0,
            r == step(old(self)@, origin, call).1,
    {
        match call {
            Call::CreateEvent { capacity, metadata_cid } => self.create_event(origin, capacity, metadata_cid),
            Call::UpdateMetadata { event_id, new_cid } => self.update_metadata(origin, event_id, new_cid),
            Call::CancelEvent { event_id } => self.cancel_event(origin, event_id),
            Call::IncrementSold { event_id } => self.increment_sold(origin, event_id),
        }
    }
}

} // verus!
