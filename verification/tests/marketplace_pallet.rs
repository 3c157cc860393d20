use lib::bounded::BoundedBytes;
use lib::dispatch::{DispatchError, Origin};
use lib::pallet_marketplace::{Call, Error, Event, Listing, Pallet};
use lib::pallet_ticket;

type Tickets = pallet_ticket::Pallet<64>;

fn signed(who: u64) -> Origin {
    Origin::Signed(who)
}

fn b(s: &[u8]) -> BoundedBytes<64> {
    BoundedBytes::<64>::try_from(s.to_vec()).unwrap()
}

/// An empty marketplace beside a ticket pallet in which account 1 owns
/// tickets 0 to 42 of an event priced 1_000 with a 110 % resale cap, and
/// accounts 1, 2, 3 and 99 each hold 1_000_000.
fn new_test_ext() -> (Pallet, Tickets) {
    let mut t = Tickets::new();
    for who in [1, 2, 3, 99] {
        t.balances.set_free_balance(who, 1_000_000);
    }
    assert_eq!(t.create_event(signed(1), b(b"Show"), b(b"Hall"), 0, 100, 1_000, 110), Ok(()));
    assert_eq!(t.mint_tickets(signed(1), 0, 43), Ok(()));
    (Pallet::new(), t)
}

fn assert_noop<F: FnOnce(&mut Pallet, &mut Tickets) -> Result<(), DispatchError<Error>>>(
    p: &mut Pallet,
    t: &mut Tickets,
    f: F,
    err: DispatchError<Error>,
) {
    let before = (format!("{:?}", p), format!("{:?}", t));
    assert_eq!(f(p, t), Err(err));
    assert_eq!((format!("{:?}", p), format!("{:?}", t)), before);
}

fn ticket_error(e: pallet_ticket::Error) -> DispatchError<Error> {
    DispatchError::Module(Error::Ticket(e))
}

// ── list ──────────────────────────────────────────────────────────────────────

#[test]
fn list_creates_listing() {
    let (mut p, mut t) = new_test_ext();
    assert_eq!(p.list(&mut t, signed(1), 42, 1_000), Ok(()));

    let listing = p.listings(0).expect("listing should exist");
    assert_eq!(listing.seller, 1);
    assert_eq!(listing.ticket_id, 42);
    assert_eq!(listing.price, 1_000);
    assert_eq!(p.ticket_listing(42), Some(0));
}

#[test]
fn list_fails_if_already_listed() {
    let (mut p, mut t) = new_test_ext();
    assert_eq!(p.list(&mut t, signed(1), 42, 1_000), Ok(()));
    assert_noop(&mut p, &mut t, |p, t| p.list(t, signed(1), 42, 2_000), DispatchError::Module(Error::AlreadyListed));
}

// ── delist ────────────────────────────────────────────────────────────────────

#[test]
fn delist_removes_listing() {
    let (mut p, mut t) = new_test_ext();
    assert_eq!(p.list(&mut t, signed(1), 42, 1_000), Ok(()));
    assert_eq!(p.delist(&mut t, signed(1), 0), Ok(()));

    assert!(p.listings(0).is_none());
    assert!(p.ticket_listing(42).is_none());
}

#[test]
fn delist_fails_if_not_seller() {
    let (mut p, mut t) = new_test_ext();
    assert_eq!(p.list(&mut t, signed(1), 42, 1_000), Ok(()));
    assert_noop(&mut p, &mut t, |p, t| p.delist(t, signed(99), 0), DispatchError::Module(Error::NotSeller));
}

#[test]
fn delist_fails_if_listing_not_found() {
    let (mut p, mut t) = new_test_ext();
    assert_noop(&mut p, &mut t, |p, t| p.delist(t, signed(1), 999), DispatchError::Module(Error::ListingNotFound));
}

// ── buy ───────────────────────────────────────────────────────────────────────

#[test]
fn buy_removes_listing() {
    let (mut p, mut t) = new_test_ext();
    assert_eq!(p.list(&mut t, signed(1), 42, 1_000), Ok(()));
    assert_eq!(p.buy(&mut t, signed(2), 0), Ok(()));

    assert!(p.listings(0).is_none());
    assert!(p.ticket_listing(42).is_none());
}

#[test]
fn buy_fails_if_listing_not_found() {
    let (mut p, mut t) = new_test_ext();
    assert_noop(&mut p, &mut t, |p, t| p.buy(t, signed(2), 999), DispatchError::Module(Error::ListingNotFound));
}

// ── further cases ─────────────────────────────────────────────────────────────

#[test]
fn buy_moves_ticket_and_payment() {
    let (mut p, mut t) = new_test_ext();
    assert_eq!(p.list(&mut t, signed(1), 42, 1_050), Ok(()));
    assert_eq!(p.buy(&mut t, signed(2), 0), Ok(()));
    let ticket = t.tickets(42).unwrap();
    assert_eq!(ticket.owner, 2);
    assert_eq!(ticket.current_price, 1_050);
    assert_eq!(t.free_balance(1), 1_001_050);
    assert_eq!(t.free_balance(2), 998_950);
    assert!(t.tickets_by_owner(2, 42));
    assert!(!t.tickets_by_owner(1, 42));
    assert_eq!(
        t.deposited.last(),
        Some(&pallet_ticket::Event::TicketTransferred { ticket_id: 42, from: 1, to: 2, price: 1_050 })
    );
}

#[test]
fn list_fails_if_not_owner_or_above_cap() {
    let (mut p, mut t) = new_test_ext();
    assert_noop(&mut p, &mut t, |p, t| p.list(t, signed(2), 42, 1_000), ticket_error(pallet_ticket::Error::NotTicketOwner));
    assert_noop(&mut p, &mut t, |p, t| p.list(t, signed(1), 500, 1_000), ticket_error(pallet_ticket::Error::TicketNotFound));
    assert_noop(&mut p, &mut t, |p, t| p.list(t, signed(1), 42, 1_101), ticket_error(pallet_ticket::Error::ResaleCapExceeded));
    assert_eq!(p.list(&mut t, signed(1), 42, 1_100), Ok(()));
}

#[test]
fn buy_fails_without_funds_and_keeps_listing() {
    let (mut p, mut t) = new_test_ext();
    assert_eq!(p.list(&mut t, signed(1), 42, 1_000), Ok(()));
    t.balances.set_free_balance(3, 999);
    assert_noop(&mut p, &mut t, |p, t| p.buy(t, signed(3), 0), ticket_error(pallet_ticket::Error::InsufficientFunds));
    assert_eq!(p.buy(&mut t, signed(2), 0), Ok(()));
}

#[test]
fn buy_fails_if_seller_no_longer_owns_ticket() {
    let (mut p, mut t) = new_test_ext();
    assert_eq!(p.list(&mut t, signed(1), 42, 1_000), Ok(()));
    assert_eq!(t.transfer_ticket(signed(1), 42, 3, 0), Ok(()));
    assert_noop(&mut p, &mut t, |p, t| p.buy(t, signed(2), 0), ticket_error(pallet_ticket::Error::NotTicketOwner));
}

#[test]
fn buy_fails_for_used_ticket_or_inactive_event() {
    let (mut p, mut t) = new_test_ext();
    assert_eq!(p.list(&mut t, signed(1), 41, 1_000), Ok(()));
    assert_eq!(p.list(&mut t, signed(1), 42, 1_000), Ok(()));
    assert_eq!(t.validate_ticket(signed(9), 41), Ok(()));
    assert_noop(&mut p, &mut t, |p, t| p.buy(t, signed(2), 0), ticket_error(pallet_ticket::Error::TicketAlreadyUsed));
    t.events.get_mut(&0).unwrap().is_active = false;
    assert_noop(&mut p, &mut t, |p, t| p.buy(t, signed(2), 1), ticket_error(pallet_ticket::Error::EventNotActive));
}

#[test]
fn list_deposits_event_and_increments_id() {
    let (mut p, mut t) = new_test_ext();
    assert_eq!(p.list(&mut t, signed(1), 7, 300), Ok(()));
    assert_eq!(p.list(&mut t, signed(1), 8, 400), Ok(()));
    assert_eq!(p.next_listing_id(), 2);
    assert_eq!(p.listings(1), Some(Listing { seller: 1, ticket_id: 8, price: 400 }));
    assert_eq!(p.deposited.last(), Some(&Event::TicketListed { listing_id: 1, ticket_id: 8, seller: 1, price: 400 }));
}

#[test]
fn list_fails_on_id_overflow_and_bad_origin() {
    let (mut p, mut t) = new_test_ext();
    assert_noop(&mut p, &mut t, |p, t| p.list(t, Origin::Unsigned, 1, 1), DispatchError::BadOrigin);
    p.next_listing_id = u64::MAX;
    assert_noop(&mut p, &mut t, |p, t| p.list(t, signed(1), 1, 1), DispatchError::Module(Error::ListingIdOverflow));
}

#[test]
fn buy_deposits_purchase_event() {
    let (mut p, mut t) = new_test_ext();
    assert_eq!(p.list(&mut t, signed(1), 42, 1_000), Ok(()));
    assert_eq!(p.buy(&mut t, signed(2), 0), Ok(()));
    assert_eq!(
        p.deposited.last(),
        Some(&Event::TicketPurchased { listing_id: 0, ticket_id: 42, seller: 1, buyer: 2, price: 1_000 })
    );
}

#[test]
fn ticket_can_be_relisted_after_delist() {
    let (mut p, mut t) = new_test_ext();
    assert_eq!(p.list(&mut t, signed(1), 42, 1_000), Ok(()));
    assert_eq!(p.delist(&mut t, signed(1), 0), Ok(()));
    assert_eq!(p.deposited.last(), Some(&Event::ListingCancelled { listing_id: 0, ticket_id: 42 }));
    assert_eq!(p.list(&mut t, signed(1), 42, 900), Ok(()));
    assert_eq!(p.ticket_listing(42), Some(1));
}

#[test]
fn marketplace_dispatch_routes_calls() {
    let (mut p, mut t) = new_test_ext();
    assert_eq!(p.dispatch(&mut t, signed(1), Call::List { ticket_id: 3, price: 10 }), Ok(()));
    assert_eq!(p.dispatch(&mut t, signed(1), Call::List { ticket_id: 4, price: 10 }), Ok(()));
    assert_eq!(p.dispatch(&mut t, signed(1), Call::Delist { listing_id: 0 }), Ok(()));
    assert_eq!(p.dispatch(&mut t, signed(2), Call::Buy { listing_id: 1 }), Ok(()));
    assert_eq!(p.dispatch(&mut t, signed(2), Call::Buy { listing_id: 1 }), Err(DispatchError::Module(Error::ListingNotFound)));
    assert_eq!(t.tickets(4).unwrap().owner, 2);
    assert_eq!(t.tickets(3).unwrap().owner, 1);
}

#[test]
fn marketplace_benchmark_setups_hold() {
    let (mut p, mut t) = new_test_ext();
    assert_eq!(p.list(&mut t, signed(1), 0, 1_000), Ok(()));
    assert!(p.listings(0).is_some());
    assert_eq!(p.delist(&mut t, signed(1), 0), Ok(()));
    assert!(p.listings(0).is_none());
    assert_eq!(p.list(&mut t, signed(1), 0, 1_000), Ok(()));
    assert_eq!(p.buy(&mut t, signed(2), 1), Ok(()));
    assert!(p.listings(1).is_none());
}

#[test]
fn listing_flags_ticket_with_asking_price() {
    let (mut p, mut t) = new_test_ext();
    assert_eq!(p.list(&mut t, signed(1), 42, 1_080), Ok(()));
    let ticket = t.tickets(42).unwrap();
    assert!(ticket.is_listed_for_resale);
    assert_eq!(ticket.current_price, 1_080);
    assert_eq!(ticket.original_price, 1_000);
}

#[test]
fn delisting_clears_flag_and_restores_price() {
    let (mut p, mut t) = new_test_ext();
    assert_eq!(p.list(&mut t, signed(1), 42, 1_080), Ok(()));
    assert_eq!(p.delist(&mut t, signed(1), 0), Ok(()));
    let ticket = t.tickets(42).unwrap();
    assert!(!ticket.is_listed_for_resale);
    assert_eq!(ticket.current_price, 1_000);
}

#[test]
fn buying_clears_flag() {
    let (mut p, mut t) = new_test_ext();
    assert_eq!(p.list(&mut t, signed(1), 42, 1_080), Ok(()));
    assert_eq!(p.buy(&mut t, signed(2), 0), Ok(()));
    let ticket = t.tickets(42).unwrap();
    assert!(!ticket.is_listed_for_resale);
    assert_eq!(ticket.current_price, 1_080);
}

#[test]
fn stale_delist_leaves_new_owners_ticket_alone() {
    let (mut p, mut t) = new_test_ext();
    assert_eq!(p.list(&mut t, signed(1), 42, 1_080), Ok(()));
    assert_eq!(t.transfer_ticket(signed(1), 42, 3, 500), Ok(()));
    assert_eq!(p.delist(&mut t, signed(1), 0), Ok(()));
    let ticket = t.tickets(42).unwrap();
    assert_eq!(ticket.owner, 3);
    assert_eq!(ticket.current_price, 500);
}
