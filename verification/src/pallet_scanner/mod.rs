//! Entry validation at the venue door.
//!
//! Scanner accounts are authorised per event by the event's organizer, as
//! the event records show it. An authorised scanner submits a ticket scan;
//! the pallet accepts each ticket once, checks through the ticket pallet
//! that the ticket exists and is unused and marks it used, records the block
//! of the scan for the audit trail, and reports the entry.

pub mod laws;
pub mod weights;

use std::collections::BTreeSet;
use std::collections::HashMap;
use vstd::prelude::*;
use crate::dispatch::{ensure_signed, signer_of, AccountId, BlockNumber, DispatchError, DispatchResult, Origin};
use crate::pallet_event;
use crate::pallet_ticket;

verus! {

broadcast use vstd::std_specs::hash::group_hash_axioms, vstd::std_specs::btree::group_btree_axioms, vstd::laws_cmp::group_laws_cmp;

/// What the pallet reports of each successful call.
#[derive(Debug, Clone, Copy, PartialEq, Eq)]
pub enum Event {
    /// A scanner was authorised for an event.
    ScannerAuthorized { event_id: u64, scanner: AccountId },
    /// A scanner's authorisation was revoked.
    ScannerRevoked { event_id: u64, scanner: AccountId },
    /// A ticket was validated for entry in block `block`.
    EntryValidated { event_id: u64, ticket_id: u64, scanner: AccountId, block: BlockNumber },
}

/// Why a call of this pallet failed.
#[derive(Debug, Clone, Copy, PartialEq, Eq)]
pub enum Error {
    /// The caller is not authorised to scan for this event.
    UnauthorizedScanner,
    /// The ticket has already been scanned.
    AlreadyScanned,
    /// The event has no record.
    EventNotFound,
    /// The caller is not the event's organizer.
    NotOrganizer,
    /// The ticket pallet refused the entry.
    Ticket(pallet_ticket::Error),
}

/// A call of this pallet.
#[derive(Debug, Clone, Copy, PartialEq, Eq)]
pub enum Call {
    AuthorizeScanner { event_id: u64, scanner: AccountId },
    RevokeScanner { event_id: u64, scanner: AccountId },
    ValidateEntry { event_id: u64, ticket_id: u64 },
}

/// The pallet's storage, and the events it has deposited.
#[derive(Debug)]
pub struct Pallet {
    /// The (event, scanner) pairs that are authorised; only the event's
    /// organizer adds or removes pairs.
    pub authorized_scanners: BTreeSet<(u64, AccountId)>,
    /// The block in which each scanned ticket was scanned.
    pub scan_record: HashMap<u64, BlockNumber>,
    /// Events deposited so far, oldest first.
    pub deposited: Vec<Event>,
}

/// The abstract state of the pallet.
#[verifier::ext_equal]
pub struct PalletState {
    pub authorized_scanners: Set<(u64, AccountId)>,
    pub scan_record: Map<u64, BlockNumber>,
    pub deposited: Seq<Event>,
}

impl View for Pallet {
    type V = PalletState;

    open spec fn view(&self) -> PalletState {
        PalletState {
            authorized_scanners: self.authorized_scanners@,
            scan_record: self.scan_record@,
            deposited: self.deposited@,
        }
    }
}

impl PalletState {
    /// The same state with `e` deposited.
    pub open spec fn deposit(self, e: Event) -> PalletState {
        PalletState { deposited: self.deposited.push(e), ..self }
    }
}

/// The check that `authorize_scanner` and `revoke_scanner` share: the event
/// has a record and `caller` is its organizer.
pub open spec fn organizer_check(ev: pallet_event::PalletState, caller: AccountId, event_id: u64) -> Result<(), Error> {
    match pallet_event::organizer_of(ev, event_id) {
        None => Err(Error::EventNotFound),
        Some(o) => if o != caller { Err(Error::NotOrganizer) } else { Ok(()) },
    }
}

/// `authorize_scanner`: the organizer of `event_id`, per the event records
/// `ev`, authorises `scanner` for it.
pub open spec fn authorize_scanner_step(s: PalletState, ev: pallet_event::PalletState, origin: Origin, event_id: u64, scanner: AccountId) -> (PalletState, DispatchResult<Error>) {
    match signer_of::<Error>(origin) {
        Err(e) => (s, Err(e)),
        Ok(caller) => match organizer_check(ev, caller, event_id) {
            Err(e) => (s, Err(DispatchError::Module(e))),
            Ok(()) => (PalletState {
                authorized_scanners: s.authorized_scanners.insert((event_id, scanner)),
                ..s
            }.deposit(Event::ScannerAuthorized { event_id, scanner }), Ok(())),
        },
    }
}

/// `revoke_scanner`: the organizer of `event_id`, per the event records
/// `ev`, revokes `scanner` for it.
pub open spec fn revoke_scanner_step(s: PalletState, ev: pallet_event::PalletState, origin: Origin, event_id: u64, scanner: AccountId) -> (PalletState, DispatchResult<Error>) {
    match signer_of::<Error>(origin) {
        Err(e) => (s, Err(e)),
        Ok(caller) => match organizer_check(ev, caller, event_id) {
            Err(e) => (s, Err(DispatchError::Module(e))),
            Ok(()) => (PalletState {
                authorized_scanners: s.authorized_scanners.remove((event_id, scanner)),
                ..s
            }.deposit(Event::ScannerRevoked { event_id, scanner }), Ok(())),
        },
    }
}

/// A failure of the ticket pallet as a failure of this pallet.
pub open spec fn lift_ticket_error(e: DispatchError<pallet_ticket::Error>) -> DispatchError<Error> {
    match e {
        DispatchError::BadOrigin => DispatchError::BadOrigin,
        DispatchError::Overflow => DispatchError::Overflow,
        DispatchError::Module(te) => DispatchError::Module(Error::Ticket(te)),
    }
}

/// `validate_entry` in block `now`: an authorised scanner admits a ticket
/// that has no scan record; the ticket pallet (state `t`) must find the
/// ticket unused and marks it used; the block of the scan is recorded.
pub open spec fn validate_entry_step(s: PalletState, t: pallet_ticket::PalletState, origin: Origin, event_id: u64, ticket_id: u64, now: BlockNumber) -> (PalletState, pallet_ticket::PalletState, DispatchResult<Error>) {
    match signer_of::<Error>(origin) {
        Err(e) => (s, t, Err(e)),
        Ok(scanner) => if !s.authorized_scanners.contains((event_id, scanner)) {
            (s, t, Err(DispatchError::Module(Error::UnauthorizedScanner)))
        } else if s.scan_record.contains_key(ticket_id) {
            (s, t, Err(DispatchError::Module(Error::AlreadyScanned)))
        } else {
            let used = pallet_ticket::validate_ticket_step(t, Origin::Signed(scanner), ticket_id);
            match used.1 {
                Err(e) => (s, t, Err(lift_ticket_error(e))),
                Ok(()) => (PalletState { scan_record: s.scan_record.insert(ticket_id, now), ..s }.deposit(
                    Event::EntryValidated { event_id, ticket_id, scanner, block: now },
                ), used.0, Ok(())),
            }
        },
    }
}

/// The effect of dispatching `call` from `origin` in block `now`, beside the
/// event records `ev` and the ticket pallet in state `t`.
pub open spec fn step(s: PalletState, ev: pallet_event::PalletState, t: pallet_ticket::PalletState, origin: Origin, call: Call, now: BlockNumber) -> (PalletState, pallet_ticket::PalletState, DispatchResult<Error>) {
    match call {
        Call::AuthorizeScanner { event_id, scanner } =>
            (authorize_scanner_step(s, ev, origin, event_id, scanner).0, t, authorize_scanner_step(s, ev, origin, event_id, scanner).1),
        Call::RevokeScanner { event_id, scanner } =>
            (revoke_scanner_step(s, ev, origin, event_id, scanner).0, t, revoke_scanner_step(s, ev, origin, event_id, scanner).1),
        Call::ValidateEntry { event_id, ticket_id } => validate_entry_step(s, t, origin, event_id, ticket_id, now),
    }
}

impl Pallet {
    /// A pallet with no authorised scanner and no scan.
    pub fn new() -> (p: Pallet)
        ensures
            p@.authorized_scanners.is_empty(),
            p@.scan_record.is_empty(),
            p@.deposited.len() == 0,
    {
        Pallet { authorized_scanners: BTreeSet::new(), scan_record: HashMap::new(), deposited: Vec::new() }
    }

    /// Whether `scanner` is authorised for `event_id`.
    pub fn authorized_scanners(&self, event_id: u64, scanner: AccountId) -> (r: bool)
        ensures
            r == self@.authorized_scanners.contains((event_id, scanner)),
    {
        self.authorized_scanners.contains(&(event_id, scanner))
    }

    /// The block in which `ticket_id` was scanned, if it was.
    pub fn scan_record(&self, ticket_id: u64) -> (r: Option<BlockNumber>)
        ensures
            r == (if self@.scan_record.contains_key(ticket_id) { Some(self@.scan_record[ticket_id]) } else { None::<BlockNumber> }),
    {
        match self.scan_record.get(&ticket_id) {
            Some(b) => Some(*b),
            None => None,
        }
    }

    /// The shared check of `authorize_scanner` and `revoke_scanner`.
    fn check_organizer(events: &pallet_event::Pallet, caller: AccountId, event_id: u64) -> (r: Result<(), Error>)
        ensures
            r == organizer_check(events@, caller, event_id),
    {
        match events.organizer_of(event_id) {
            None => Err(Error::EventNotFound),
            Some(o) => if o != caller { Err(Error::NotOrganizer) } else { Ok(()) },
        }
    }

    /// Authorises `scanner` to validate entries for `event_id`; the caller
    /// must be the event's organizer in `events`.
    pub fn authorize_scanner(&mut self, events: &pallet_event::Pallet, origin: Origin, event_id: u64, scanner: AccountId) -> (r: DispatchResult<Error>)
        ensures
            final(self)@ == authorize_scanner_step(old(self)@, events@, origin, event_id, scanner).0,
            r == authorize_scanner_step(old(self)@, events@, origin, event_id, scanner).1,
    {
        let ghost s0 = self@;
        let caller = match ensure_signed::<Error>(origin) {
            Ok(who) => who,
            Err(e) => return Err(e),
        };
        if let Err(e) = Self::check_organizer(events, caller, event_id) {
            return Err(DispatchError::Module(e));
        }
        self.authorized_scanners.insert((event_id, scanner));
        self.deposited.push(Event::ScannerAuthorized { event_id, scanner });
        assert(self@ =~= authorize_scanner_step(s0, events@, origin, event_id, scanner).0);
        Ok(())
    }

    /// Revokes the authorisation of `scanner` for `event_id`; the caller must
    /// be the event's organizer in `events`.
    pub fn revoke_scanner(&mut self, events: &pallet_event::Pallet, origin: Origin, event_id: u64, scanner: AccountId) -> (r: DispatchResult<Error>)
        ensures
            final(self)@ == revoke_scanner_step(old(self)@, events@, origin, event_id, scanner).0,
            r == revoke_scanner_step(old(self)@, events@, origin, event_id, scanner).1,
    {
        let ghost s0 = self@;
        let caller = match ensure_signed::<Error>(origin) {
            Ok(who) => who,
            Err(e) => return Err(e),
        };
        if let Err(e) = Self::check_organizer(events, caller, event_id) {
            return Err(DispatchError::Module(e));
        }
        self.authorized_scanners.remove(&(event_id, scanner));
        self.deposited.push(Event::ScannerRevoked { event_id, scanner });
        assert(self@ =~= revoke_scanner_step(s0, events@, origin, event_id, scanner).0);
        Ok(())
    }

    /// Validates `ticket_id` for entry to `event_id` in block `now`: the
    /// caller must be an authorised scanner, the ticket unscanned, and the
    /// ticket pallet `tickets` must find it unused; it is then marked used.
    pub fn validate_entry<const S: u32>(&mut self, tickets: &mut pallet_ticket::Pallet<S>, origin: Origin, event_id: u64, ticket_id: u64, now: BlockNumber) -> (r: DispatchResult<Error>)
        ensures
            final(self)@ == validate_entry_step(old(self)@, old(tickets)@, origin, event_id, ticket_id, now).0,
            final(tickets)@ == validate_entry_step(old(self)@, old(tickets)@, origin, event_id, ticket_id, now).1,
            r == validate_entry_step(old(self)@, old(tickets)@, origin, event_id, ticket_id, now).2,
    {
        let ghost s0 = self@;
        let scanner = match ensure_signed::<Error>(origin) {
            Ok(who) => who,
            Err(e) => return Err(e),
        };
        if !self.authorized_scanners.contains(&(event_id, scanner)) {
            return Err(DispatchError::Module(Error::UnauthorizedScanner));
        }
        if self.scan_record.contains_key(&ticket_id) {
            return Err(DispatchError::Module(Error::AlreadyScanned));
        }
        match tickets.validate_ticket(Origin::Signed(scanner), ticket_id) {
            Ok(()) => {},
            Err(DispatchError::BadOrigin) => return Err(DispatchError::BadOrigin),
            Err(DispatchError::Overflow) => return Err(DispatchError::Overflow),
            Err(DispatchError::Module(te)) => return Err(DispatchError::Module(Error::Ticket(te))),
        }
        self.scan_record.insert(ticket_id, now);
        self.deposited.push(Event::EntryValidated { event_id, ticket_id, scanner, block: now });
        assert(self@ =~= validate_entry_step(s0, old(tickets)@, origin, event_id, ticket_id, now).0);
        Ok(())
    }

    /// Dispatches `call` from `origin` in block `now`, beside the event
    /// records `events` and the ticket pallet `tickets`.
    pub fn dispatch<const S: u32>(&mut self, events: &pallet_event::Pallet, tickets: &mut pallet_ticket::Pallet<S>, origin: Origin, call: Call, now: BlockNumber) -> (r: DispatchResult<Error>)
        ensures
            final(self)@ == step(old(self)@, events@, old(tickets)@, origin, call, now).0,
            final(tickets)@ == step(old(self)@, events@, old(tickets)@, origin, call, now).1,
            r == step(old(self)@, events@, old(tickets)@, origin, call, now).2,
    {
        match call {
            Call::AuthorizeScanner { event_id, scanner } => self.authorize_scanner(events, origin, event_id, scanner),
            Call::RevokeScanner { event_id, scanner } => self.revoke_scanner(events, origin, event_id, scanner),
            Call::ValidateEntry { event_id, ticket_id } => self.validate_entry(tickets, origin, event_id, ticket_id, now),
        }
    }
}

} // verus!
