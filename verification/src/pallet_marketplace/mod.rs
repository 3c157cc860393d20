//! Secondary ticket marketplace.
//!
//! Ticket owners list tickets for resale at a fixed price within the event's
//! resale cap; the ticket is then flagged as listed, with the asking price
//! as its current price. Buyers purchase listed tickets directly. A purchase is a
//! transfer of the ticket pallet: the buyer pays the listing price to the
//! seller and becomes the ticket's owner. A ticket is in at most one listing
//! at a time, kept so by a reverse index from tickets to listings.

pub mod laws;
pub mod weights;

use std::collections::HashMap;
use vstd::prelude::*;
use crate::dispatch::{ensure_signed, signer_of, AccountId, Balance, DispatchError, DispatchResult, Origin};
use crate::pallet_ticket;

verus! {

broadcast use vstd::std_specs::hash::group_hash_axioms;

/// An active listing on the secondary market.
#[derive(Debug, Clone, Copy, PartialEq, Eq)]
pub struct Listing {
    /// The account selling the ticket.
    pub seller: AccountId,
    /// The ticket being listed.
    pub ticket_id: u64,
    /// Asking price in the smallest unit of the native token.
    pub price: Balance,
}

/// What the pallet reports of each successful call.
#[derive(Debug, Clone, Copy, PartialEq, Eq)]
pub enum Event {
    /// A ticket was listed for sale.
    TicketListed { listing_id: u64, ticket_id: u64, seller: AccountId, price: Balance },
    /// A listing was cancelled by its seller.
    ListingCancelled { listing_id: u64, ticket_id: u64 },
    /// A listed ticket was bought.
    TicketPurchased { listing_id: u64, ticket_id: u64, seller: AccountId, buyer: AccountId, price: Balance },
}

/// Why a call of this pallet failed.
#[derive(Debug, Clone, Copy, PartialEq, Eq)]
pub enum Error {
    /// The listing does not exist.
    ListingNotFound,
    /// The caller is not the listing's seller.
    NotSeller,
    /// The ticket is already listed.
    AlreadyListed,
    /// Overflow of the listing id counter.
    ListingIdOverflow,
    /// The ticket pallet refused to list or hand over the ticket.
    Ticket(pallet_ticket::Error),
}

/// A call of this pallet.
#[derive(Debug, Clone, Copy, PartialEq, Eq)]
pub enum Call {
    List { ticket_id: u64, price: Balance },
    Delist { listing_id: u64 },
    Buy { listing_id: u64 },
}

/// The pallet's storage, and the events it has deposited.
#[derive(Debug)]
pub struct Pallet {
    /// The id the next listing gets.
    pub next_listing_id: u64,
    /// Active listings by id.
    pub listings: HashMap<u64, Listing>,
    /// Reverse index: the listing of each listed ticket.
    pub ticket_listing: HashMap<u64, u64>,
    /// Events deposited so far, oldest first.
    pub deposited: Vec<Event>,
}

/// The abstract state of the pallet.
#[verifier::ext_equal]
pub struct PalletState {
    pub next_listing_id: u64,
    pub listings: Map<u64, Listing>,
    pub ticket_listing: Map<u64, u64>,
    pub deposited: Seq<Event>,
}

impl View for Pallet {
    type V = PalletState;

    open spec fn view(&self) -> PalletState {
        PalletState {
            next_listing_id: self.next_listing_id,
            listings: self.listings@,
            ticket_listing: self.ticket_listing@,
            deposited: self.deposited@,
        }
    }
}

impl PalletState {
    /// The storage invariant: listing ids are below the counter, and the
    /// reverse index maps exactly each listed ticket to its listing.
    pub open spec fn wf(self) -> bool {
        &&& forall|l: u64| #[trigger] self.listings.contains_key(l) ==> {
            &&& l < self.next_listing_id
            &&& self.ticket_listing.contains_key(self.listings[l].ticket_id)
            &&& self.ticket_listing[self.listings[l].ticket_id] == l
        }
        &&& forall|t: u64| #[trigger] self.ticket_listing.contains_key(t) ==> {
            &&& self.listings.contains_key(self.ticket_listing[t])
            &&& self.listings[self.ticket_listing[t]].ticket_id == t
        }
    }

    /// The same state with `e` deposited.
    pub open spec fn deposit(self, e: Event) -> PalletState {
        PalletState { deposited: self.deposited.push(e), ..self }
    }

    /// The same state without listing `l` and its index entry.
    pub open spec fn without_listing(self, l: u64) -> PalletState {
        PalletState {
            listings: self.listings.remove(l),
            ticket_listing: self.ticket_listing.remove(self.listings[l].ticket_id),
            ..self
        }
    }
}

/// `list`: a signed caller lists a ticket that is not listed yet, that the
/// caller owns and may resell at `price` (see `pallet_ticket::resale_check`).
/// The ticket pallet (state `t`) then flags the ticket as listed with
/// `price` as its current price.
pub open spec fn list_step(s: PalletState, t: pallet_ticket::PalletState, origin: Origin, ticket_id: u64, price: Balance) -> (PalletState, pallet_ticket::PalletState, DispatchResult<Error>) {
    match signer_of::<Error>(origin) {
        Err(e) => (s, t, Err(e)),
        Ok(seller) => if s.ticket_listing.contains_key(ticket_id) {
            (s, t, Err(DispatchError::Module(Error::AlreadyListed)))
        } else if pallet_ticket::resale_check(t, seller, ticket_id, price) is Err {
            (s, t, Err(DispatchError::Module(Error::Ticket(pallet_ticket::resale_check(t, seller, ticket_id, price)->Err_0))))
        } else if s.next_listing_id == u64::MAX {
            (s, t, Err(DispatchError::Module(Error::ListingIdOverflow)))
        } else {
            let l = s.next_listing_id;
            (PalletState {
                next_listing_id: (l + 1) as u64,
                listings: s.listings.insert(l, Listing { seller, ticket_id, price }),
                ticket_listing: s.ticket_listing.insert(ticket_id, l),
                deposited: s.deposited.push(Event::TicketListed { listing_id: l, ticket_id, seller, price }),
            }, pallet_ticket::offered_for_resale(t, ticket_id, price), Ok(()))
        },
    }
}

/// A failure of the ticket pallet as a failure of this pallet.
pub open spec fn lift_ticket_error(e: DispatchError<pallet_ticket::Error>) -> DispatchError<Error> {
    match e {
        DispatchError::BadOrigin => DispatchError::BadOrigin,
        DispatchError::Overflow => DispatchError::Overflow,
        DispatchError::Module(te) => DispatchError::Module(Error::Ticket(te)),
    }
}

/// `delist`: the seller withdraws a listing; in the ticket pallet (state
/// `t`) a ticket the seller still owns is no longer flagged as listed and
/// gets its original price back.
pub open spec fn delist_step(s: PalletState, t: pallet_ticket::PalletState, origin: Origin, listing_id: u64) -> (PalletState, pallet_ticket::PalletState, DispatchResult<Error>) {
    match signer_of::<Error>(origin) {
        Err(e) => (s, t, Err(e)),
        Ok(caller) => if !s.listings.contains_key(listing_id) {
            (s, t, Err(DispatchError::Module(Error::ListingNotFound)))
        } else if s.listings[listing_id].seller != caller {
            (s, t, Err(DispatchError::Module(Error::NotSeller)))
        } else {
            let tid = s.listings[listing_id].ticket_id;
            (s.without_listing(listing_id).deposit(Event::ListingCancelled { listing_id, ticket_id: tid }),
                pallet_ticket::withdrawn_from_resale(t, tid, caller), Ok(()))
        },
    }
}

/// `buy`: a signed caller buys a listed ticket. The seller transfers the
/// ticket to the buyer at the listing price through the ticket pallet, so
/// the buyer pays the seller and becomes the owner, within the resale cap;
/// then the listing is closed. If the transfer fails, nothing changes.
pub open spec fn buy_step(s: PalletState, t: pallet_ticket::PalletState, origin: Origin, listing_id: u64) -> (PalletState, pallet_ticket::PalletState, DispatchResult<Error>) {
    match signer_of::<Error>(origin) {
        Err(e) => (s, t, Err(e)),
        Ok(buyer) => if !s.listings.contains_key(listing_id) {
            (s, t, Err(DispatchError::Module(Error::ListingNotFound)))
        } else {
            let li = s.listings[listing_id];
            let moved = pallet_ticket::transfer_ticket_step(t, Origin::Signed(li.seller), li.ticket_id, buyer, li.price);
            match moved.1 {
                Err(e) => (s, t, Err(lift_ticket_error(e))),
                Ok(()) => (s.without_listing(listing_id).deposit(Event::TicketPurchased {
                    listing_id,
                    ticket_id: li.ticket_id,
                    seller: li.seller,
                    buyer,
                    price: li.price,
                }), moved.0, Ok(())),
            }
        },
    }
}

/// The effect of dispatching `call` from `origin` in state `s`, beside the
/// ticket pallet in state `t`.
pub open spec fn step(s: PalletState, t: pallet_ticket::PalletState, origin: Origin, call: Call) -> (PalletState, pallet_ticket::PalletState, DispatchResult<Error>) {
    match call {
        Call::List { ticket_id, price } => list_step(s, t, origin, ticket_id, price),
        Call::Delist { listing_id } => delist_step(s, t, origin, listing_id),
        Call::Buy { listing_id } => buy_step(s, t, origin, listing_id),
    }
}

impl Pallet {
    /// An empty marketplace.
    pub fn new() -> (p: Pallet)
        ensures
            p@.next_listing_id == 0,
            p@.listings.is_empty(),
            p@.ticket_listing.is_empty(),
            p@.deposited.len() == 0,
            p@.wf(),
    {
        Pallet { next_listing_id: 0, listings: HashMap::new(), ticket_listing: HashMap::new(), deposited: Vec::new() }
    }

    /// The id the next listing gets.
    pub fn next_listing_id(&self) -> (r: u64)
        ensures
            r == self@.next_listing_id,
    {
        self.next_listing_id
    }

    /// The listing with id `listing_id`, if any.
    pub fn listings(&self, listing_id: u64) -> (r: Option<Listing>)
        ensures
            r == (if self@.listings.contains_key(listing_id) { Some(self@.listings[listing_id]) } else { None::<Listing> }),
    {
        match self.listings.get(&listing_id) {
            Some(l) => Some(*l),
            None => None,
        }
    }

    /// The listing of ticket `ticket_id`, if it is listed.
    pub fn ticket_listing(&self, ticket_id: u64) -> (r: Option<u64>)
        ensures
            r == (if self@.ticket_listing.contains_key(ticket_id) { Some(self@.ticket_listing[ticket_id]) } else { None::<u64> }),
    {
        match self.ticket_listing.get(&ticket_id) {
            Some(l) => Some(*l),
            None => None,
        }
    }

    /// Lists a ticket of the caller for sale at `price`, within its resale
    /// cap, and flags the ticket as listed at that price.
    pub fn list<const S: u32>(&mut self, tickets: &mut pallet_ticket::Pallet<S>, origin: Origin, ticket_id: u64, price: Balance) -> (r: DispatchResult<Error>)
        ensures
            final(self)@ == list_step(old(self)@, old(tickets)@, origin, ticket_id, price).0,
            final(tickets)@ == list_step(old(self)@, old(tickets)@, origin, ticket_id, price).1,
            r == list_step(old(self)@, old(tickets)@, origin, ticket_id, price).2,
    {
        let ghost s0 = self@;
        let seller = match ensure_signed::<Error>(origin) {
            Ok(who) => who,
            Err(e) => return Err(e),
        };
        if self.ticket_listing.contains_key(&ticket_id) {
            return Err(DispatchError::Module(Error::AlreadyListed));
        }
        if let Err(te) = tickets.check_resale(seller, ticket_id, price) {
            return Err(DispatchError::Module(Error::Ticket(te)));
        }
        let listing_id = self.next_listing_id;
        let next = match listing_id.checked_add(1) {
            Some(n) => n,
            None => return Err(DispatchError::Module(Error::ListingIdOverflow)),
        };
        self.next_listing_id = next;
        self.listings.insert(listing_id, Listing { seller, ticket_id, price });
        self.ticket_listing.insert(ticket_id, listing_id);
        self.deposited.push(Event::TicketListed { listing_id, ticket_id, seller, price });
        tickets.offer_for_resale(ticket_id, price);
        assert(self@ =~= list_step(s0, old(tickets)@, origin, ticket_id, price).0);
        Ok(())
    }

    /// Withdraws a listing; the caller must be its seller. A ticket the
    /// seller still owns is no longer flagged as listed and gets its
    /// original price back.
    pub fn delist<const S: u32>(&mut self, tickets: &mut pallet_ticket::Pallet<S>, origin: Origin, listing_id: u64) -> (r: DispatchResult<Error>)
        ensures
            final(self)@ == delist_step(old(self)@, old(tickets)@, origin, listing_id).0,
            final(tickets)@ == delist_step(old(self)@, old(tickets)@, origin, listing_id).1,
            r == delist_step(old(self)@, old(tickets)@, origin, listing_id).2,
    {
        let ghost s0 = self@;
        let caller = match ensure_signed::<Error>(origin) {
            Ok(who) => who,
            Err(e) => return Err(e),
        };
        let listing = match self.listings.get(&listing_id) {
            Some(l) => *l,
            None => return Err(DispatchError::Module(Error::ListingNotFound)),
        };
        if listing.seller != caller {
            return Err(DispatchError::Module(Error::NotSeller));
        }
        self.listings.remove(&listing_id);
        self.ticket_listing.remove(&listing.ticket_id);
        self.deposited.push(Event::ListingCancelled { listing_id, ticket_id: listing.ticket_id });
        tickets.withdraw_from_resale(listing.ticket_id, caller);
        assert(self@ =~= delist_step(s0, old(tickets)@, origin, listing_id).0);
        Ok(())
    }

    /// Buys a listed ticket: the buyer pays the listing price to the seller
    /// and becomes the ticket's owner, then the listing is closed.
    pub fn buy<const S: u32>(&mut self, tickets: &mut pallet_ticket::Pallet<S>, origin: Origin, listing_id: u64) -> (r: DispatchResult<Error>)
        ensures
            final(self)@ == buy_step(old(self)@, old(tickets)@, origin, listing_id).0,
            final(tickets)@ == buy_step(old(self)@, old(tickets)@, origin, listing_id).1,
            r == buy_step(old(self)@, old(tickets)@, origin, listing_id).2,
    {
        let ghost s0 = self@;
        let buyer = match ensure_signed::<Error>(origin) {
            Ok(who) => who,
            Err(e) => return Err(e),
        };
        let listing = match self.listings.get(&listing_id) {
            Some(l) => *l,
            None => return Err(DispatchError::Module(Error::ListingNotFound)),
        };
        match tickets.transfer_ticket(Origin::Signed(listing.seller), listing.ticket_id, buyer, listing.price) {
            Ok(()) => {},
            Err(DispatchError::BadOrigin) => return Err(DispatchError::BadOrigin),
            Err(DispatchError::Overflow) => return Err(DispatchError::Overflow),
            Err(DispatchError::Module(te)) => return Err(DispatchError::Module(Error::Ticket(te))),
        }
        self.listings.remove(&listing_id);
        self.ticket_listing.remove(&listing.ticket_id);
        self.deposited.push(Event::TicketPurchased {
            listing_id,
            ticket_id: listing.ticket_id,
            seller: listing.seller,
            buyer,
            price: listing.price,
        });
        assert(self@ =~= buy_step(s0, old(tickets)@, origin, listing_id).0);
        Ok(())
    }

    /// Dispatches `call` from `origin`, beside the ticket pallet `tickets`.
    pub fn dispatch<const S: u32>(&mut self, tickets: &mut pallet_ticket::Pallet<S>, origin: Origin, call: Call) -> (r: DispatchResult<Error>)
        ensures
            final(self)@ == step(old(self)@, old(tickets)@, origin, call).0,
            final(tickets)@ == step(old(self)@, old(tickets)@, origin, call).1,
            r == step(old(self)@, old(tickets)@, origin, call).2,
    {
        match call {
            Call::List { ticket_id, price } => self.list(tickets, origin, ticket_id, price),
            Call::Delist { listing_id } => self.delist(tickets, origin, listing_id),
            Call::Buy { listing_id } => self.buy(tickets, origin, listing_id),
        }
    }
}

} // verus!
