//! Tickets and the events they admit to.
//!
//! The pallet owns two kinds of records: `EventDetails`, created by an
//! organiser, which fix capacity, price and resale rules and count the
//! tickets sold; and `TicketDetails`, one per ticket, which track the
//! owner, prices and whether the ticket has been used for entry. Two
//! reverse indexes list the tickets of each owner and of each event.
//!
//! Calls: `create_event`, `mint_tickets`, `purchase_ticket` (primary sale
//! from the organiser), `transfer_ticket` (resale or gift, within the resale
//! cap) and `validate_ticket` (admission at the venue door).

pub mod laws;
pub mod weights;

use std::collections::BTreeSet;
use std::collections::HashMap;
use vstd::prelude::*;
use crate::balances::{free_of, transfer_result, Balances, TransferError};
use crate::bounded::BoundedBytes;
use crate::dispatch::{ensure_signed, signer_of, AccountId, Balance, DispatchError, DispatchResult, Origin};

verus! {

broadcast use vstd::std_specs::hash::group_hash_axioms, vstd::std_specs::btree::group_btree_axioms, vstd::laws_cmp::group_laws_cmp;

/// Identifies an event.
pub type EventId = u64;

/// Identifies a ticket.
pub type TicketId = u64;

/// The reasons a ticket transfer can be rejected.
#[derive(Debug, Clone, Copy, PartialEq, Eq)]
pub enum TransferRejectedReason {
    /// The ticket has already been scanned for entry.
    TicketAlreadyUsed,
    /// The requested resale price exceeds the organiser's resale cap.
    ResaleCapExceeded,
    /// The caller does not own the ticket.
    NotTicketOwner,
    /// The event has been deactivated.
    EventNotActive,
}

/// The record of an event created by an organiser; strings hold at most
/// `S` bytes.
#[derive(Debug, PartialEq, Eq)]
pub struct EventDetails<const S: u32> {
    /// Human-readable event name.
    pub name: BoundedBytes<S>,
    /// Venue name.
    pub venue_name: BoundedBytes<S>,
    /// Unix timestamp of the start of the event.
    pub date: u64,
    /// Maximum number of tickets that can be sold.
    pub capacity: u32,
    /// Primary sale price per ticket.
    pub ticket_price: Balance,
    /// Maximum resale price as a percentage of the original price.
    pub resale_cap_percent: u8,
    /// Number of tickets sold so far; never more than `capacity`.
    pub tickets_sold: u32,
    /// The account that created the event and manages it.
    pub creator: AccountId,
    /// Whether the event accepts mints, sales and transfers.
    pub is_active: bool,
}

/// The record of one ticket.
#[derive(Debug, PartialEq, Eq)]
pub struct TicketDetails<const S: u32> {
    /// The event this ticket admits to.
    pub event_id: EventId,
    /// Ticket tier.
    pub tier: BoundedBytes<S>,
    /// Seat reference, `None` for general admission.
    pub seat: Option<BoundedBytes<S>>,
    /// Price of the primary sale; the resale cap is computed from it.
    pub original_price: Balance,
    /// Price of the last transfer, or the original price.
    pub current_price: Balance,
    /// Current owner.
    pub owner: AccountId,
    /// Set once the ticket has been scanned for entry; never cleared.
    pub is_used: bool,
    /// Whether the owner offers the ticket for resale.
    pub is_listed_for_resale: bool,
}

/// What the pallet reports of each successful call.
#[derive(Debug, PartialEq, Eq)]
pub enum Event<const S: u32> {
    /// A new event was created.
    EventCreated { event_id: EventId, creator: AccountId, name: BoundedBytes<S> },
    /// Tickets `start_id .. start_id + count` were minted for an event.
    TicketsMinted { event_id: EventId, count: u32, start_id: TicketId },
    /// A ticket was bought in the primary sale.
    TicketPurchased { ticket_id: TicketId, buyer: AccountId, price: Balance },
    /// A ticket changed hands; `price` is 0 for a gift.
    TicketTransferred { ticket_id: TicketId, from: AccountId, to: AccountId, price: Balance },
    /// A ticket was scanned for entry.
    TicketValidated { ticket_id: TicketId, event_id: EventId },
    /// A transfer was rejected.
    TransferRejected { ticket_id: TicketId, reason: TransferRejectedReason },
}

/// Why a call of this pallet failed.
#[derive(Debug, Clone, Copy, PartialEq, Eq)]
pub enum Error {
    /// No event has the given id.
    EventNotFound,
    /// The event is not active.
    EventNotActive,
    /// All capacity has been sold.
    EventSoldOut,
    /// No ticket has the given id.
    TicketNotFound,
    /// The ticket has already been scanned for entry.
    TicketAlreadyUsed,
    /// The caller does not own the ticket.
    NotTicketOwner,
    /// The resale price exceeds `original_price * resale_cap_percent / 100`.
    ResaleCapExceeded,
    /// The buyer's free balance is below the price.
    InsufficientFunds,
    /// The caller, or the seller of a primary sale, is not the event creator.
    NotEventCreator,
    /// The event id counter overflowed.
    EventIdOverflow,
    /// The ticket id counter overflowed.
    TicketIdOverflow,
    /// The sold count overflowed.
    TicketsSoldOverflow,
    /// `original_price * resale_cap_percent` overflowed.
    ResaleCapArithmetic,
}

/// A call of this pallet.
#[derive(Debug)]
pub enum Call<const S: u32> {
    CreateEvent {
        name: BoundedBytes<S>,
        venue_name: BoundedBytes<S>,
        date: u64,
        capacity: u32,
        ticket_price: Balance,
        resale_cap_percent: u8,
    },
    MintTickets { event_id: EventId, count: u32 },
    PurchaseTicket { ticket_id: TicketId },
    TransferTicket { ticket_id: TicketId, to: AccountId, price: Balance },
    ValidateTicket { ticket_id: TicketId },
}

// ── Abstract values ──────────────────────────────────────────────────────────

/// An event record with its strings as byte sequences.
pub struct EventDetailsView {
    pub name: Seq<u8>,
    pub venue_name: Seq<u8>,
    pub date: u64,
    pub capacity: u32,
    pub ticket_price: Balance,
    pub resale_cap_percent: u8,
    pub tickets_sold: u32,
    pub creator: AccountId,
    pub is_active: bool,
}

/// A ticket record with its strings as byte sequences.
pub struct TicketDetailsView {
    pub event_id: EventId,
    pub tier: Seq<u8>,
    pub seat: Option<Seq<u8>>,
    pub original_price: Balance,
    pub current_price: Balance,
    pub owner: AccountId,
    pub is_used: bool,
    pub is_listed_for_resale: bool,
}

/// A deposited event with its strings as byte sequences.
pub enum EventView {
    EventCreated { event_id: EventId, creator: AccountId, name: Seq<u8> },
    TicketsMinted { event_id: EventId, count: u32, start_id: TicketId },
    TicketPurchased { ticket_id: TicketId, buyer: AccountId, price: Balance },
    TicketTransferred { ticket_id: TicketId, from: AccountId, to: AccountId, price: Balance },
    TicketValidated { ticket_id: TicketId, event_id: EventId },
    TransferRejected { ticket_id: TicketId, reason: TransferRejectedReason },
}

impl<const S: u32> View for EventDetails<S> {
    type V = EventDetailsView;

    open spec fn view(&self) -> EventDetailsView {
        EventDetailsView {
            name: self.name@,
            venue_name: self.venue_name@,
            date: self.date,
            capacity: self.capacity,
            ticket_price: self.ticket_price,
            resale_cap_percent: self.resale_cap_percent,
            tickets_sold: self.tickets_sold,
            creator: self.creator,
            is_active: self.is_active,
        }
    }
}

/// The seat of a ticket as a byte sequence.
pub open spec fn seat_view<const S: u32>(seat: Option<BoundedBytes<S>>) -> Option<Seq<u8>> {
    match seat {
        Some(b) => Some(b@),
        None => None,
    }
}

impl<const S: u32> View for TicketDetails<S> {
    type V = TicketDetailsView;

    open spec fn view(&self) -> TicketDetailsView {
        TicketDetailsView {
            event_id: self.event_id,
            tier: self.tier@,
            seat: seat_view(self.seat),
            original_price: self.original_price,
            current_price: self.current_price,
            owner: self.owner,
            is_used: self.is_used,
            is_listed_for_resale: self.is_listed_for_resale,
        }
    }
}

impl<const S: u32> View for Event<S> {
    type V = EventView;

    open spec fn view(&self) -> EventView {
        match *self {
            Event::EventCreated { event_id, creator, name } => EventView::EventCreated { event_id, creator, name: name@ },
            Event::TicketsMinted { event_id, count, start_id } => EventView::TicketsMinted { event_id, count, start_id },
            Event::TicketPurchased { ticket_id, buyer, price } => EventView::TicketPurchased { ticket_id, buyer, price },
            Event::TicketTransferred { ticket_id, from, to, price } => EventView::TicketTransferred { ticket_id, from, to, price },
            Event::TicketValidated { ticket_id, event_id } => EventView::TicketValidated { ticket_id, event_id },
            Event::TransferRejected { ticket_id, reason } => EventView::TransferRejected { ticket_id, reason },
        }
    }
}

// ── Storage ──────────────────────────────────────────────────────────────────

/// The pallet's storage, the free balances it moves, and the events it has
/// deposited.
#[derive(Debug)]
pub struct Pallet<const S: u32> {
    /// The id the next created event gets.
    pub next_event_id: EventId,
    /// The id the next minted ticket gets.
    pub next_ticket_id: TicketId,
    /// Event records by id.
    pub events: HashMap<EventId, EventDetails<S>>,
    /// Ticket records by id.
    pub tickets: HashMap<TicketId, TicketDetails<S>>,
    /// Reverse index: (owner, ticket) for every ticket.
    pub tickets_by_owner: BTreeSet<(AccountId, TicketId)>,
    /// Reverse index: (event, ticket) for every ticket.
    pub tickets_by_event: BTreeSet<(EventId, TicketId)>,
    /// Free balances of the native token.
    pub balances: Balances,
    /// Events deposited so far, oldest first.
    pub deposited: Vec<Event<S>>,
}

/// The abstract state of the pallet.
#[verifier::ext_equal]
pub struct PalletState {
    pub next_event_id: EventId,
    pub next_ticket_id: TicketId,
    pub events: Map<EventId, EventDetailsView>,
    pub tickets: Map<TicketId, TicketDetailsView>,
    pub tickets_by_owner: Set<(AccountId, TicketId)>,
    pub tickets_by_event: Set<(EventId, TicketId)>,
    pub balances: Map<AccountId, Balance>,
    pub deposited: Seq<EventView>,
}

/// The views of the events deposited, oldest first.
pub open spec fn deposited_view<const S: u32>(v: Seq<Event<S>>) -> Seq<EventView> {
    v.map_values(|e: Event<S>| e@)
}

impl<const S: u32> View for Pallet<S> {
    type V = PalletState;

    open spec fn view(&self) -> PalletState {
        PalletState {
            next_event_id: self.next_event_id,
            next_ticket_id: self.next_ticket_id,
            events: self.events@.map_values(|e: EventDetails<S>| e@),
            tickets: self.tickets@.map_values(|t: TicketDetails<S>| t@),
            tickets_by_owner: self.tickets_by_owner@,
            tickets_by_event: self.tickets_by_event@,
            balances: self.balances@,
            deposited: deposited_view(self.deposited@),
        }
    }
}

impl PalletState {
    /// The storage invariant:
    /// - event and ticket ids are below their counters;
    /// - no event has sold more tickets than its capacity;
    /// - every ticket belongs to an existing event;
    /// - a used ticket is not listed for resale;
    /// - the owner index holds (owner, ticket) exactly for each ticket and
    ///   its owner, and the event index (event, ticket) exactly for each
    ///   ticket and its event.
    pub open spec fn wf(self) -> bool {
        &&& forall|e: EventId| #[trigger] self.events.contains_key(e) ==> {
            &&& e < self.next_event_id
            &&& self.events[e].tickets_sold <= self.events[e].capacity
        }
        &&& forall|t: TicketId| #[trigger] self.tickets.contains_key(t) ==> {
            &&& t < self.next_ticket_id
            &&& self.events.contains_key(self.tickets[t].event_id)
            &&& (self.tickets[t].is_used ==> !self.tickets[t].is_listed_for_resale)
        }
        &&& forall|a: AccountId, t: TicketId| #[trigger] self.tickets_by_owner.contains((a, t))
            <==> (self.tickets.contains_key(t) && self.tickets[t].owner == a)
        &&& forall|e: EventId, t: TicketId| #[trigger] self.tickets_by_event.contains((e, t))
            <==> (self.tickets.contains_key(t) && self.tickets[t].event_id == e)
    }

    /// The same state with `e` deposited.
    pub open spec fn deposit(self, e: EventView) -> PalletState {
        PalletState { deposited: self.deposited.push(e), ..self }
    }
}

// ── Transitions ──────────────────────────────────────────────────────────────

/// `create_event`: a signed caller creates an active event with the next id.
pub open spec fn create_event_step<const S: u32>(
    s: PalletState,
    origin: Origin,
    name: BoundedBytes<S>,
    venue_name: BoundedBytes<S>,
    date: u64,
    capacity: u32,
    ticket_price: Balance,
    resale_cap_percent: u8,
) -> (PalletState, DispatchResult<Error>) {
    match signer_of::<Error>(origin) {
        Err(e) => (s, Err(e)),
        Ok(creator) => if s.next_event_id == u64::MAX {
            (s, Err(DispatchError::Module(Error::EventIdOverflow)))
        } else {
            let id = s.next_event_id;
            let rec = EventDetailsView {
                name: name@,
                venue_name: venue_name@,
                date,
                capacity,
                ticket_price,
                resale_cap_percent,
                tickets_sold: 0,
                creator,
                is_active: true,
            };
            (PalletState {
                next_event_id: (id + 1) as u64,
                events: s.events.insert(id, rec),
                ..s
            }.deposit(EventView::EventCreated { event_id: id, creator, name: name@ }), Ok(()))
        },
    }
}

/// The tickets left to mint: capacity minus tickets sold, or 0.
pub open spec fn remaining(e: EventDetailsView) -> int {
    if e.tickets_sold <= e.capacity { e.capacity - e.tickets_sold } else { 0 }
}

/// A freshly minted ticket of `event_id` owned by `owner` at `price`.
pub open spec fn minted_ticket(event_id: EventId, owner: AccountId, price: Balance) -> TicketDetailsView {
    TicketDetailsView {
        event_id,
        tier: Seq::empty(),
        seat: None,
        original_price: price,
        current_price: price,
        owner,
        is_used: false,
        is_listed_for_resale: false,
    }
}

/// `tickets` with the ids in `start .. end` set to fresh tickets.
pub open spec fn with_minted(tickets: Map<TicketId, TicketDetailsView>, event_id: EventId, owner: AccountId, price: Balance, start: int, end: int) -> Map<TicketId, TicketDetailsView> {
    Map::new(
        |t: TicketId| tickets.contains_key(t) || (start <= t < end),
        |t: TicketId| if start <= t < end { minted_ticket(event_id, owner, price) } else { tickets[t] },
    )
}

/// `index` with the pairs `(key, t)` for `t` in `start .. end` added.
pub open spec fn with_range(index: Set<(u64, TicketId)>, key: u64, start: int, end: int) -> Set<(u64, TicketId)> {
    index.union(Set::new(|p: (u64, TicketId)| p.0 == key && start <= p.1 < end))
}

/// `mint_tickets`: the creator of an active event mints `count` tickets,
/// numbered from the ticket counter, owned by the creator at the event price.
pub open spec fn mint_tickets_step(s: PalletState, origin: Origin, event_id: EventId, count: u32) -> (PalletState, DispatchResult<Error>) {
    match signer_of::<Error>(origin) {
        Err(e) => (s, Err(e)),
        Ok(caller) => if !s.events.contains_key(event_id) {
            (s, Err(DispatchError::Module(Error::EventNotFound)))
        } else if s.events[event_id].creator != caller {
            (s, Err(DispatchError::Module(Error::NotEventCreator)))
        } else if !s.events[event_id].is_active {
            (s, Err(DispatchError::Module(Error::EventNotActive)))
        } else if count > remaining(s.events[event_id]) {
            (s, Err(DispatchError::Module(Error::EventSoldOut)))
        } else if s.next_ticket_id + count > u64::MAX {
            (s, Err(DispatchError::Module(Error::TicketIdOverflow)))
        } else {
            let start = s.next_ticket_id;
            let end = start + count;
            let price = s.events[event_id].ticket_price;
            (PalletState {
                next_ticket_id: end as u64,
                tickets: with_minted(s.tickets, event_id, caller, price, start as int, end),
                tickets_by_owner: with_range(s.tickets_by_owner, caller, start as int, end),
                tickets_by_event: with_range(s.tickets_by_event, event_id, start as int, end),
                ..s
            }.deposit(EventView::TicketsMinted { event_id, count, start_id: start }), Ok(()))
        },
    }
}

/// The state after the owner of `ticket_id` changes from `from` to `to`,
/// with the new current price and resale flag.
pub open spec fn with_new_owner(s: PalletState, ticket_id: TicketId, from: AccountId, to: AccountId, current_price: Balance, listed: bool) -> PalletState {
    let t = s.tickets[ticket_id];
    PalletState {
        tickets: s.tickets.insert(ticket_id, TicketDetailsView { owner: to, current_price, is_listed_for_resale: listed, ..t }),
        tickets_by_owner: s.tickets_by_owner.remove((from, ticket_id)).insert((to, ticket_id)),
        ..s
    }
}

/// `purchase_ticket`: a signed buyer buys a ticket still held by the event
/// creator, paying the event's ticket price to the creator; the event counts
/// one more ticket sold.
pub open spec fn purchase_ticket_step(s: PalletState, origin: Origin, ticket_id: TicketId) -> (PalletState, DispatchResult<Error>) {
    match signer_of::<Error>(origin) {
        Err(e) => (s, Err(e)),
        Ok(buyer) => if !s.tickets.contains_key(ticket_id) {
            (s, Err(DispatchError::Module(Error::TicketNotFound)))
        } else if s.tickets[ticket_id].is_used {
            (s, Err(DispatchError::Module(Error::TicketAlreadyUsed)))
        } else if !s.events.contains_key(s.tickets[ticket_id].event_id) {
            (s, Err(DispatchError::Module(Error::EventNotFound)))
        } else {
            let t = s.tickets[ticket_id];
            let e = s.events[t.event_id];
            if !e.is_active {
                (s, Err(DispatchError::Module(Error::EventNotActive)))
            } else if t.owner != e.creator {
                (s, Err(DispatchError::Module(Error::NotEventCreator)))
            } else if e.tickets_sold >= e.capacity {
                (s, Err(DispatchError::Module(Error::EventSoldOut)))
            } else if free_of(s.balances, buyer) < e.ticket_price {
                (s, Err(DispatchError::Module(Error::InsufficientFunds)))
            } else {
                match transfer_result(s.balances, buyer, t.owner, e.ticket_price) {
                    Err(_) => (s, Err(DispatchError::Overflow)),
                    Ok(balances) => {
                        let e2 = EventDetailsView { tickets_sold: (e.tickets_sold + 1) as u32, ..e };
                        let s2 = with_new_owner(s, ticket_id, t.owner, buyer, t.current_price, t.is_listed_for_resale);
                        (PalletState {
                            events: s2.events.insert(t.event_id, e2),
                            balances,
                            ..s2
                        }.deposit(EventView::TicketPurchased { ticket_id, buyer, price: e.ticket_price }), Ok(()))
                    },
                }
            }
        },
    }
}

/// The highest resale price of `t` under the cap of `e`, if computable.
pub open spec fn resale_cap(t: TicketDetailsView, e: EventDetailsView) -> Option<int> {
    if t.original_price * e.resale_cap_percent > Balance::MAX {
        None
    } else {
        Some((t.original_price * e.resale_cap_percent) / 100)
    }
}

/// `transfer_ticket`: the owner of an unused ticket of an active event hands
/// it to `to` for `price`, which must not exceed the resale cap; a non-zero
/// price is paid by `to` to the owner.
pub open spec fn transfer_ticket_step(s: PalletState, origin: Origin, ticket_id: TicketId, to: AccountId, price: Balance) -> (PalletState, DispatchResult<Error>) {
    match signer_of::<Error>(origin) {
        Err(e) => (s, Err(e)),
        Ok(from) => if !s.tickets.contains_key(ticket_id) {
            (s, Err(DispatchError::Module(Error::TicketNotFound)))
        } else if s.tickets[ticket_id].owner != from {
            (s, Err(DispatchError::Module(Error::NotTicketOwner)))
        } else if s.tickets[ticket_id].is_used {
            (s, Err(DispatchError::Module(Error::TicketAlreadyUsed)))
        } else if !s.events.contains_key(s.tickets[ticket_id].event_id) {
            (s, Err(DispatchError::Module(Error::EventNotFound)))
        } else {
            let t = s.tickets[ticket_id];
            let e = s.events[t.event_id];
            if !e.is_active {
                (s, Err(DispatchError::Module(Error::EventNotActive)))
            } else {
                match resale_cap(t, e) {
                    None => (s, Err(DispatchError::Module(Error::ResaleCapArithmetic))),
                    Some(cap) => if price > cap {
                        (s, Err(DispatchError::Module(Error::ResaleCapExceeded)))
                    } else if price > 0 && free_of(s.balances, to) < price {
                        (s, Err(DispatchError::Module(Error::InsufficientFunds)))
                    } else {
                        let paid = if price > 0 { transfer_result(s.balances, to, from, price) } else { Ok(s.balances) };
                        match paid {
                            Err(_) => (s, Err(DispatchError::Overflow)),
                            Ok(balances) => {
                                let s2 = with_new_owner(s, ticket_id, from, to, price, false);
                                (PalletState { balances, ..s2 }.deposit(
                                    EventView::TicketTransferred { ticket_id, from, to, price },
                                ), Ok(()))
                            },
                        }
                    },
                }
            }
        },
    }
}

/// Whether `seller` may offer ticket `ticket_id` for `price`: the ticket
/// exists, `seller` owns it, it is unused, its event exists and is active,
/// and `price` is within the resale cap. These are the checks of
/// `transfer_ticket` before any payment, in the same order.
pub open spec fn resale_check(s: PalletState, seller: AccountId, ticket_id: TicketId, price: Balance) -> Result<(), Error> {
    if !s.tickets.contains_key(ticket_id) {
        Err(Error::TicketNotFound)
    } else if s.tickets[ticket_id].owner != seller {
        Err(Error::NotTicketOwner)
    } else if s.tickets[ticket_id].is_used {
        Err(Error::TicketAlreadyUsed)
    } else if !s.events.contains_key(s.tickets[ticket_id].event_id) {
        Err(Error::EventNotFound)
    } else if !s.events[s.tickets[ticket_id].event_id].is_active {
        Err(Error::EventNotActive)
    } else {
        match resale_cap(s.tickets[ticket_id], s.events[s.tickets[ticket_id].event_id]) {
            None => Err(Error::ResaleCapArithmetic),
            Some(cap) => if price > cap { Err(Error::ResaleCapExceeded) } else { Ok(()) },
        }
    }
}

/// The state after ticket `ticket_id` is offered for resale at `price`: an
/// existing, unused ticket is flagged as listed and its current price
/// becomes the asking price; anything else is left as it is.
pub open spec fn offered_for_resale(s: PalletState, ticket_id: TicketId, price: Balance) -> PalletState {
    if s.tickets.contains_key(ticket_id) && !s.tickets[ticket_id].is_used {
        let t = s.tickets[ticket_id];
        PalletState {
            tickets: s.tickets.insert(ticket_id, TicketDetailsView { is_listed_for_resale: true, current_price: price, ..t }),
            ..s
        }
    } else {
        s
    }
}

/// The state after `seller` withdraws ticket `ticket_id` from resale: when
/// the ticket exists and `seller` still owns it, it is no longer flagged as
/// listed and its current price is the original price again; anything else
/// is left as it is.
pub open spec fn withdrawn_from_resale(s: PalletState, ticket_id: TicketId, seller: AccountId) -> PalletState {
    if s.tickets.contains_key(ticket_id) && s.tickets[ticket_id].owner == seller {
        let t = s.tickets[ticket_id];
        PalletState {
            tickets: s.tickets.insert(ticket_id, TicketDetailsView { is_listed_for_resale: false, current_price: t.original_price, ..t }),
            ..s
        }
    } else {
        s
    }
}

/// `validate_ticket`: any signed caller marks an unused ticket as used.
pub open spec fn validate_ticket_step(s: PalletState, origin: Origin, ticket_id: TicketId) -> (PalletState, DispatchResult<Error>) {
    match signer_of::<Error>(origin) {
        Err(e) => (s, Err(e)),
        Ok(_) => if !s.tickets.contains_key(ticket_id) {
            (s, Err(DispatchError::Module(Error::TicketNotFound)))
        } else if s.tickets[ticket_id].is_used {
            (s, Err(DispatchError::Module(Error::TicketAlreadyUsed)))
        } else {
            let t = s.tickets[ticket_id];
            (PalletState {
                tickets: s.tickets.insert(ticket_id, TicketDetailsView { is_used: true, is_listed_for_resale: false, ..t }),
                ..s
            }.deposit(EventView::TicketValidated { ticket_id, event_id: t.event_id }), Ok(()))
        },
    }
}

/// The effect of dispatching `call` from `origin` in state `s`.
pub open spec fn step<const S: u32>(s: PalletState, origin: Origin, call: Call<S>) -> (PalletState, DispatchResult<Error>) {
    match call {
        Call::CreateEvent { name, venue_name, date, capacity, ticket_price, resale_cap_percent } =>
            create_event_step(s, origin, name, venue_name, date, capacity, ticket_price, resale_cap_percent),
        Call::MintTickets { event_id, count } => mint_tickets_step(s, origin, event_id, count),
        Call::PurchaseTicket { ticket_id } => purchase_ticket_step(s, origin, ticket_id),
        Call::TransferTicket { ticket_id, to, price } => transfer_ticket_step(s, origin, ticket_id, to, price),
        Call::ValidateTicket { ticket_id } => validate_ticket_step(s, origin, ticket_id),
    }
}

// ── Calls ────────────────────────────────────────────────────────────────────

impl<const S: u32> Pallet<S> {
    /// An empty pallet: no events, no tickets, no balances, counters at zero.
    pub fn new() -> (p: Pallet<S>)
        ensures
            p@.next_event_id == 0,
            p@.next_ticket_id == 0,
            p@.events.is_empty(),
            p@.tickets.is_empty(),
            p@.tickets_by_owner.is_empty(),
            p@.tickets_by_event.is_empty(),
            p@.balances.is_empty(),
            p@.deposited.len() == 0,
            p@.wf(),
    {
        let p = Pallet {
            next_event_id: 0,
            next_ticket_id: 0,
            events: HashMap::new(),
            tickets: HashMap::new(),
            tickets_by_owner: BTreeSet::new(),
            tickets_by_event: BTreeSet::new(),
            balances: Balances::new(),
            deposited: Vec::new(),
        };
        assert(p@.events =~= Map::empty());
        assert(p@.tickets =~= Map::empty());
        assert(p@.deposited =~= Seq::empty());
        p
    }

    /// The id the next created event gets.
    pub fn next_event_id(&self) -> (r: EventId)
        ensures
            r == self@.next_event_id,
    {
        self.next_event_id
    }

    /// The id the next minted ticket gets.
    pub fn next_ticket_id(&self) -> (r: TicketId)
        ensures
            r == self@.next_ticket_id,
    {
        self.next_ticket_id
    }

    /// The record of event `event_id`, if any.
    pub fn events(&self, event_id: EventId) -> (r: Option<&EventDetails<S>>)
        ensures
            r matches Some(e) ==> self@.events.contains_key(event_id) && e@ == self@.events[event_id],
            r is None ==> !self@.events.contains_key(event_id),
    {
        self.events.get(&event_id)
    }

    /// The record of ticket `ticket_id`, if any.
    pub fn tickets(&self, ticket_id: TicketId) -> (r: Option<&TicketDetails<S>>)
        ensures
            r matches Some(t) ==> self@.tickets.contains_key(ticket_id) && t@ == self@.tickets[ticket_id],
            r is None ==> !self@.tickets.contains_key(ticket_id),
    {
        self.tickets.get(&ticket_id)
    }

    /// Whether the owner index holds (`owner`, `ticket_id`).
    pub fn tickets_by_owner(&self, owner: AccountId, ticket_id: TicketId) -> (r: bool)
        ensures
            r == self@.tickets_by_owner.contains((owner, ticket_id)),
    {
        self.tickets_by_owner.contains(&(owner, ticket_id))
    }

    /// Whether the event index holds (`event_id`, `ticket_id`).
    pub fn tickets_by_event(&self, event_id: EventId, ticket_id: TicketId) -> (r: bool)
        ensures
            r == self@.tickets_by_event.contains((event_id, ticket_id)),
    {
        self.tickets_by_event.contains(&(event_id, ticket_id))
    }

    /// The free balance of `who`.
    pub fn free_balance(&self, who: AccountId) -> (r: Balance)
        ensures
            r == free_of(self@.balances, who),
    {
        self.balances.free_balance(who)
    }

    /// Appends `e` to the deposited events.
    fn deposit_event(&mut self, e: Event<S>)
        ensures
            final(self)@ == old(self)@.deposit(e@),
    {
        let ghost s0 = self@;
        self.deposited.push(e);
        assert(deposited_view(self.deposited@) =~= s0.deposited.push(e@));
        assert(self@ =~= s0.deposit(e@));
    }

    /// Creates an active event with the next event id.
    pub fn create_event(
        &mut self,
        origin: Origin,
        name: BoundedBytes<S>,
        venue_name: BoundedBytes<S>,
        date: u64,
        capacity: u32,
        ticket_price: Balance,
        resale_cap_percent: u8,
    ) -> (r: DispatchResult<Error>)
        ensures
            final(self)@ == create_event_step(old(self)@, origin, name, venue_name, date, capacity, ticket_price, resale_cap_percent).0,
            r == create_event_step(old(self)@, origin, name, venue_name, date, capacity, ticket_price, resale_cap_percent).1,
    {
        let ghost s0 = self@;
        let creator = match ensure_signed::<Error>(origin) {
            Ok(who) => who,
            Err(e) => return Err(e),
        };
        let event_id = self.next_event_id;
        let next = match event_id.checked_add(1) {
            Some(n) => n,
            None => return Err(DispatchError::Module(Error::EventIdOverflow)),
        };
        let announced = name.clone();
        let rec = EventDetails {
            name,
            venue_name,
            date,
            capacity,
            ticket_price,
            resale_cap_percent,
            tickets_sold: 0,
            creator,
            is_active: true,
        };
        self.next_event_id = next;
        self.events.insert(event_id, rec);
        assert(self@.events =~= s0.events.insert(event_id, rec@));
        self.deposit_event(Event::EventCreated { event_id, creator, name: announced });
        assert(self@ =~= create_event_step(s0, origin, name, venue_name, date, capacity, ticket_price, resale_cap_percent).0);
        Ok(())
    }

    /// Marks an unused ticket as used for entry.
    pub fn validate_ticket(&mut self, origin: Origin, ticket_id: TicketId) -> (r: DispatchResult<Error>)
        ensures
            final(self)@ == validate_ticket_step(old(self)@, origin, ticket_id).0,
            r == validate_ticket_step(old(self)@, origin, ticket_id).1,
    {
        let ghost s0 = self@;
        match ensure_signed::<Error>(origin) {
            Ok(_) => {},
            Err(e) => return Err(e),
        }
        match self.tickets.get(&ticket_id) {
            None => return Err(DispatchError::Module(Error::TicketNotFound)),
            Some(t) => if t.is_used {
                return Err(DispatchError::Module(Error::TicketAlreadyUsed));
            },
        }
        let mut t = self.tickets.remove(&ticket_id).unwrap();
        let event_id = t.event_id;
        t.is_used = true;
        t.is_listed_for_resale = false;
        let ghost tv = t@;
        self.tickets.insert(ticket_id, t);
        assert(self@.tickets =~= s0.tickets.insert(ticket_id, tv));
        self.deposit_event(Event::TicketValidated { ticket_id, event_id });
        assert(self@ =~= validate_ticket_step(s0, origin, ticket_id).0);
        Ok(())
    }
    /// Gives ticket `ticket_id` from `from` to `to`, with a new current price
    /// and resale flag, keeping the owner index in step.
    fn set_owner(&mut self, ticket_id: TicketId, from: AccountId, to: AccountId, current_price: Balance, listed: bool)
        requires
            old(self)@.tickets.contains_key(ticket_id),
        ensures
            final(self)@ == with_new_owner(old(self)@, ticket_id, from, to, current_price, listed),
    {
        let ghost s0 = self@;
        let mut t = self.tickets.remove(&ticket_id).unwrap();
        t.owner = to;
        t.current_price = current_price;
        t.is_listed_for_resale = listed;
        let ghost tv = t@;
        self.tickets.insert(ticket_id, t);
        self.tickets_by_owner.remove(&(from, ticket_id));
        self.tickets_by_owner.insert((to, ticket_id));
        assert(self@.tickets =~= s0.tickets.insert(ticket_id, tv));
        assert(self@ =~= with_new_owner(s0, ticket_id, from, to, current_price, listed));
    }

    /// Buys a ticket still held by the event creator at the event's ticket
    /// price, paid to the creator.
    pub fn purchase_ticket(&mut self, origin: Origin, ticket_id: TicketId) -> (r: DispatchResult<Error>)
        ensures
            final(self)@ == purchase_ticket_step(old(self)@, origin, ticket_id).0,
            r == purchase_ticket_step(old(self)@, origin, ticket_id).1,
    {
        let ghost s0 = self@;
        let buyer = match ensure_signed::<Error>(origin) {
            Ok(who) => who,
            Err(e) => return Err(e),
        };
        let (event_id, owner, current_price, listed) = match self.tickets.get(&ticket_id) {
            None => return Err(DispatchError::Module(Error::TicketNotFound)),
            Some(t) => {
                if t.is_used {
                    return Err(DispatchError::Module(Error::TicketAlreadyUsed));
                }
                (t.event_id, t.owner, t.current_price, t.is_listed_for_resale)
            },
        };
        let (price, sold) = match self.events.get(&event_id) {
            None => return Err(DispatchError::Module(Error::EventNotFound)),
            Some(e) => {
                if !e.is_active {
                    return Err(DispatchError::Module(Error::EventNotActive));
                }
                if owner != e.creator {
                    return Err(DispatchError::Module(Error::NotEventCreator));
                }
                if e.tickets_sold >= e.capacity {
                    return Err(DispatchError::Module(Error::EventSoldOut));
                }
                (e.ticket_price, e.tickets_sold)
            },
        };
        if self.balances.free_balance(buyer) < price {
            return Err(DispatchError::Module(Error::InsufficientFunds));
        }
        let new_sold = match sold.checked_add(1) {
            Some(n) => n,
            None => return Err(DispatchError::Module(Error::TicketsSoldOverflow)),
        };
        match self.balances.transfer(buyer, owner, price) {
            Ok(()) => {},
            Err(_) => return Err(DispatchError::Overflow),
        }
        let ghost s1 = self@;
        self.set_owner(ticket_id, owner, buyer, current_price, listed);
        let mut e = self.events.remove(&event_id).unwrap();
        e.tickets_sold = new_sold;
        let ghost ev = e@;
        self.events.insert(event_id, e);
        let ghost s2 = with_new_owner(s1, ticket_id, owner, buyer, current_price, listed);
        assert(self@.events =~= s2.events.insert(event_id, ev));
        self.deposit_event(Event::TicketPurchased { ticket_id, buyer, price });
        assert(self@ =~= purchase_ticket_step(s0, origin, ticket_id).0);
        Ok(())
    }

    /// Flags an existing, unused ticket as listed for resale at `price`.
    pub fn offer_for_resale(&mut self, ticket_id: TicketId, price: Balance)
        ensures
            final(self)@ == offered_for_resale(old(self)@, ticket_id, price),
    {
        let ghost s0 = self@;
        let eligible = match self.tickets.get(&ticket_id) {
            Some(t) => !t.is_used,
            None => false,
        };
        if !eligible {
            return;
        }
        let mut t = self.tickets.remove(&ticket_id).unwrap();
        t.is_listed_for_resale = true;
        t.current_price = price;
        let ghost tv = t@;
        self.tickets.insert(ticket_id, t);
        assert(self@.tickets =~= s0.tickets.insert(ticket_id, tv));
        assert(self@ =~= offered_for_resale(s0, ticket_id, price));
    }

    /// Clears the resale flag of a ticket that `seller` still owns and
    /// restores its original price.
    pub fn withdraw_from_resale(&mut self, ticket_id: TicketId, seller: AccountId)
        ensures
            final(self)@ == withdrawn_from_resale(old(self)@, ticket_id, seller),
    {
        let ghost s0 = self@;
        let owned = match self.tickets.get(&ticket_id) {
            Some(t) => t.owner == seller,
            None => false,
        };
        if !owned {
            return;
        }
        let mut t = self.tickets.remove(&ticket_id).unwrap();
        t.is_listed_for_resale = false;
        t.current_price = t.original_price;
        let ghost tv = t@;
        self.tickets.insert(ticket_id, t);
        assert(self@.tickets =~= s0.tickets.insert(ticket_id, tv));
        assert(self@ =~= withdrawn_from_resale(s0, ticket_id, seller));
    }

    /// Checks that `seller` may offer ticket `ticket_id` for `price`.
    pub fn check_resale(&self, seller: AccountId, ticket_id: TicketId, price: Balance) -> (r: Result<(), Error>)
        ensures
            r == resale_check(self@, seller, ticket_id, price),
    {
        let (event_id, original_price) = match self.tickets.get(&ticket_id) {
            None => return Err(Error::TicketNotFound),
            Some(t) => {
                if t.owner != seller {
                    return Err(Error::NotTicketOwner);
                }
                if t.is_used {
                    return Err(Error::TicketAlreadyUsed);
                }
                (t.event_id, t.original_price)
            },
        };
        let cap_percent = match self.events.get(&event_id) {
            None => return Err(Error::EventNotFound),
            Some(e) => {
                if !e.is_active {
                    return Err(Error::EventNotActive);
                }
                e.resale_cap_percent
            },
        };
        let max_price = match original_price.checked_mul(cap_percent as u128) {
            Some(p) => p / 100,
            None => return Err(Error::ResaleCapArithmetic),
        };
        if price > max_price {
            return Err(Error::ResaleCapExceeded);
        }
        Ok(())
    }

    /// Hands a ticket to `to` for `price`, within the resale cap; a non-zero
    /// price is paid by `to` to the current owner.
    pub fn transfer_ticket(&mut self, origin: Origin, ticket_id: TicketId, to: AccountId, price: Balance) -> (r: DispatchResult<Error>)
        ensures
            final(self)@ == transfer_ticket_step(old(self)@, origin, ticket_id, to, price).0,
            r == transfer_ticket_step(old(self)@, origin, ticket_id, to, price).1,
    {
        let ghost s0 = self@;
        let from = match ensure_signed::<Error>(origin) {
            Ok(who) => who,
            Err(e) => return Err(e),
        };
        let (event_id, original_price) = match self.tickets.get(&ticket_id) {
            None => return Err(DispatchError::Module(Error::TicketNotFound)),
            Some(t) => {
                if t.owner != from {
                    return Err(DispatchError::Module(Error::NotTicketOwner));
                }
                if t.is_used {
                    return Err(DispatchError::Module(Error::TicketAlreadyUsed));
                }
                (t.event_id, t.original_price)
            },
        };
        let cap_percent = match self.events.get(&event_id) {
            None => return Err(DispatchError::Module(Error::EventNotFound)),
            Some(e) => {
                if !e.is_active {
                    return Err(DispatchError::Module(Error::EventNotActive));
                }
                e.resale_cap_percent
            },
        };
        let max_price = match original_price.checked_mul(cap_percent as u128) {
            Some(p) => p / 100,
            None => return Err(DispatchError::Module(Error::ResaleCapArithmetic)),
        };
        if price > max_price {
            return Err(DispatchError::Module(Error::ResaleCapExceeded));
        }
        if price > 0 {
            if self.balances.free_balance(to) < price {
                return Err(DispatchError::Module(Error::InsufficientFunds));
            }
            match self.balances.transfer(to, from, price) {
                Ok(()) => {},
                Err(_) => return Err(DispatchError::Overflow),
            }
        }
        self.set_owner(ticket_id, from, to, price, false);
        self.deposit_event(Event::TicketTransferred { ticket_id, from, to, price });
        assert(self@ =~= transfer_ticket_step(s0, origin, ticket_id, to, price).0);
        Ok(())
    }
    /// Mints `count` tickets of an active event for its creator, numbered
    /// from the ticket counter, at the event's ticket price.
    pub fn mint_tickets(&mut self, origin: Origin, event_id: EventId, count: u32) -> (r: DispatchResult<Error>)
        ensures
            final(self)@ == mint_tickets_step(old(self)@, origin, event_id, count).0,
            r == mint_tickets_step(old(self)@, origin, event_id, count).1,
    {
        let ghost s0 = self@;
        let caller = match ensure_signed::<Error>(origin) {
            Ok(who) => who,
            Err(e) => return Err(e),
        };
        let price = match self.events.get(&event_id) {
            None => return Err(DispatchError::Module(Error::EventNotFound)),
            Some(e) => {
                if e.creator != caller {
                    return Err(DispatchError::Module(Error::NotEventCreator));
                }
                if !e.is_active {
                    return Err(DispatchError::Module(Error::EventNotActive));
                }
                let left = if e.tickets_sold <= e.capacity { e.capacity - e.tickets_sold } else { 0 };
                if count > left {
                    return Err(DispatchError::Module(Error::EventSoldOut));
                }
                e.ticket_price
            },
        };
        let start = self.next_ticket_id;
        let end = match start.checked_add(count as u64) {
            Some(n) => n,
            None => return Err(DispatchError::Module(Error::TicketIdOverflow)),
        };
        let mut id = start;
        while id < end
            invariant
                start <= id <= end,
                self@.next_ticket_id == s0.next_ticket_id,
                self@.next_event_id == s0.next_event_id,
                self@.events == s0.events,
                self@.balances == s0.balances,
                self@.deposited == s0.deposited,
                self@.tickets == with_minted(s0.tickets, event_id, caller, price, start as int, id as int),
                self@.tickets_by_owner == with_range(s0.tickets_by_owner, caller, start as int, id as int),
                self@.tickets_by_event == with_range(s0.tickets_by_event, event_id, start as int, id as int),
            decreases end - id,
        {
            let ghost before = self@;
            let t = TicketDetails {
                event_id,
                tier: BoundedBytes::new(),
                seat: None,
                original_price: price,
                current_price: price,
                owner: caller,
                is_used: false,
                is_listed_for_resale: false,
            };
            assert(t@ == minted_ticket(event_id, caller, price));
            self.tickets.insert(id, t);
            self.tickets_by_owner.insert((caller, id));
            self.tickets_by_event.insert((event_id, id));
            assert(self@.tickets =~= before.tickets.insert(id, minted_ticket(event_id, caller, price)));
            assert(self@.tickets =~= with_minted(s0.tickets, event_id, caller, price, start as int, id + 1));
            assert(self@.tickets_by_owner =~= with_range(s0.tickets_by_owner, caller, start as int, id + 1));
            assert(self@.tickets_by_event =~= with_range(s0.tickets_by_event, event_id, start as int, id + 1));
            id = id + 1;
        }
        self.next_ticket_id = end;
        self.deposit_event(Event::TicketsMinted { event_id, count, start_id: start });
        assert(self@ =~= mint_tickets_step(s0, origin, event_id, count).0);
        Ok(())
    }

    /// Dispatches `call` from `origin`.
    pub fn dispatch(&mut self, origin: Origin, call: Call<S>) -> (r: DispatchResult<Error>)
        ensures
            final(self)@ == step(old(self)@, origin, call).0,
            r == step(old(self)@, origin, call).1,
    {
        match call {
            Call::CreateEvent { name, venue_name, date, capacity, ticket_price, resale_cap_percent } =>
                self.create_event(origin, name, venue_name, date, capacity, ticket_price, resale_cap_percent),
            Call::MintTickets { event_id, count } => self.mint_tickets(origin, event_id, count),
            Call::PurchaseTicket { ticket_id } => self.purchase_ticket(origin, ticket_id),
            Call::TransferTicket { ticket_id, to, price } => self.transfer_ticket(origin, ticket_id, to, price),
            Call::ValidateTicket { ticket_id } => self.validate_ticket(origin, ticket_id),
        }
    }
}

} // verus!
