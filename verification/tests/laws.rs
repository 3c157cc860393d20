//! The library's laws, checked on concrete runs.

use lib::bounded::BoundedBytes;
use lib::dispatch::Origin;
use lib::pallet_event;
use lib::pallet_marketplace;
use lib::pallet_scanner;
use lib::pallet_ticket::{Error, Pallet};

type Tickets = Pallet<64>;

fn b(s: &[u8]) -> BoundedBytes<64> {
    BoundedBytes::<64>::try_from(s.to_vec()).unwrap()
}

/// The storage invariant of the ticket pallet, checked by enumeration.
fn ticket_wf(p: &Tickets) -> bool {
    let events_ok = p.events.iter().all(|(id, e)| *id < p.next_event_id && e.tickets_sold <= e.capacity);
    let tickets_ok = p.tickets.iter().all(|(id, t)| {
        *id < p.next_ticket_id && p.events.contains_key(&t.event_id) && !(t.is_used && t.is_listed_for_resale)
    });
    let owner_ok = p.tickets_by_owner.len() == p.tickets.len()
        && p.tickets.iter().all(|(id, t)| p.tickets_by_owner.contains(&(t.owner, *id)));
    let event_ok = p.tickets_by_event.len() == p.tickets.len()
        && p.tickets.iter().all(|(id, t)| p.tickets_by_event.contains(&(t.event_id, *id)));
    events_ok && tickets_ok && owner_ok && event_ok
}

fn total_funds(p: &Tickets) -> u128 {
    p.balances.free.values().sum()
}

/// A pallet after a busy run: two events, tickets sold, resold, validated.
fn busy() -> Tickets {
    let mut p = Tickets::new();
    for who in 1..=4 {
        p.balances.set_free_balance(who, 10_000);
    }
    assert_eq!(p.create_event(Origin::Signed(1), b(b"A"), b(b"V"), 0, 3, 100, 150), Ok(()));
    assert_eq!(p.create_event(Origin::Signed(2), b(b"B"), b(b"W"), 0, 2, 300, 100), Ok(()));
    assert_eq!(p.mint_tickets(Origin::Signed(1), 0, 3), Ok(()));
    assert_eq!(p.mint_tickets(Origin::Signed(2), 1, 2), Ok(()));
    assert_eq!(p.purchase_ticket(Origin::Signed(3), 0), Ok(()));
    assert_eq!(p.purchase_ticket(Origin::Signed(4), 3), Ok(()));
    assert_eq!(p.transfer_ticket(Origin::Signed(3), 0, 4, 150), Ok(()));
    assert_eq!(p.validate_ticket(Origin::Signed(9), 3), Ok(()));
    p
}

#[test]
fn law_ticket_wf_holds_after_every_call() {
    let mut p = Tickets::new();
    p.balances.set_free_balance(5, 1_000);
    assert!(ticket_wf(&p));
    assert_eq!(p.create_event(Origin::Signed(1), b(b"A"), b(b"V"), 0, 2, 10, 120), Ok(()));
    assert!(ticket_wf(&p));
    assert_eq!(p.mint_tickets(Origin::Signed(1), 0, 2), Ok(()));
    assert!(ticket_wf(&p));
    assert_eq!(p.purchase_ticket(Origin::Signed(5), 1), Ok(()));
    assert!(ticket_wf(&p));
    assert_eq!(p.transfer_ticket(Origin::Signed(5), 1, 6, 0), Ok(()));
    assert!(ticket_wf(&p));
    assert_eq!(p.validate_ticket(Origin::Signed(7), 1), Ok(()));
    assert!(ticket_wf(&p));
    assert!(ticket_wf(&busy()));
}

#[test]
fn law_funds_conserved_over_a_run() {
    let p = busy();
    assert_eq!(total_funds(&p), 40_000);
    // Buyer 3 paid 100 and was paid 150; buyer 4 paid 300 and 150.
    assert_eq!(p.free_balance(1), 10_100);
    assert_eq!(p.free_balance(2), 10_300);
    assert_eq!(p.free_balance(3), 10_050);
    assert_eq!(p.free_balance(4), 9_550);
}

#[test]
fn law_sold_never_exceeds_capacity() {
    let mut p = busy();
    assert_eq!(p.purchase_ticket(Origin::Signed(3), 1), Ok(()));
    assert_eq!(p.purchase_ticket(Origin::Signed(3), 2), Ok(()));
    let e = p.events(0).unwrap();
    assert_eq!((e.tickets_sold, e.capacity), (3, 3));
    // More tickets than capacity can be minted, but never sold.
    assert_eq!(p.mint_tickets(Origin::Signed(1), 0, 1), Err(lib::dispatch::DispatchError::Module(Error::EventSoldOut)));
}

#[test]
fn law_used_ticket_is_spent_for_good() {
    let mut p = busy();
    let t = 3;
    assert!(p.tickets(t).unwrap().is_used);
    assert!(p.validate_ticket(Origin::Signed(9), t).is_err());
    assert!(p.transfer_ticket(Origin::Signed(4), t, 1, 0).is_err());
    assert!(p.purchase_ticket(Origin::Signed(1), t).is_err());
    assert!(p.tickets(t).unwrap().is_used);
}

#[test]
fn law_transfer_respects_resale_cap() {
    let mut p = busy();
    // Ticket 0 of event 0: price 100, cap 150 %.
    assert!(p.transfer_ticket(Origin::Signed(4), 0, 2, 151).is_err());
    assert_eq!(p.transfer_ticket(Origin::Signed(4), 0, 2, 150), Ok(()));
    let t = p.tickets(0).unwrap();
    assert!(t.current_price * 100 <= t.original_price * 150);
}

#[test]
fn law_minted_ids_are_fresh_and_contiguous() {
    let p = busy();
    assert_eq!(p.next_ticket_id(), 5);
    for id in 0..3 {
        assert_eq!(p.tickets(id).unwrap().event_id, 0);
    }
    for id in 3..5 {
        assert_eq!(p.tickets(id).unwrap().event_id, 1);
    }
}

#[test]
fn law_success_deposits_one_event_failure_none() {
    let mut p = busy();
    let n = p.deposited.len();
    assert_eq!(n, 8);
    assert!(p.validate_ticket(Origin::Signed(9), 99).is_err());
    assert_eq!(p.deposited.len(), n);
    assert_eq!(p.validate_ticket(Origin::Signed(9), 4), Ok(()));
    assert_eq!(p.deposited.len(), n + 1);
}

#[test]
fn law_event_records_persist() {
    let mut p = pallet_event::Pallet::new();
    let cid = || BoundedBytes::<64>::try_from(b"Qm".to_vec()).unwrap();
    assert_eq!(p.create_event(Origin::Signed(1), 2, cid()), Ok(()));
    assert_eq!(p.increment_sold(Origin::Signed(5), 0), Ok(()));
    assert_eq!(p.cancel_event(Origin::Signed(1), 0), Ok(()));
    assert!(p.increment_sold(Origin::Signed(5), 0).is_err());
    assert!(p.cancel_event(Origin::Signed(1), 0).is_err());
    let r = p.events(0).unwrap();
    assert_eq!((r.organizer, r.capacity, r.sold, r.cancelled), (1, 2, 1, true));
    // A new event never overwrites an old one.
    assert_eq!(p.create_event(Origin::Signed(2), 9, cid()), Ok(()));
    assert_eq!(p.events(0).unwrap().organizer, 1);
    assert_eq!(p.events(1).unwrap().organizer, 2);
}

/// A ticket pallet in which account 1 owns tickets 0 to 11 priced 5, with a
/// 200 % resale cap, and accounts 2 and 3 hold 1_000.
fn resale_tickets() -> Tickets {
    let mut t = Tickets::new();
    t.balances.set_free_balance(2, 1_000);
    t.balances.set_free_balance(3, 1_000);
    assert_eq!(t.create_event(Origin::Signed(1), b(b"A"), b(b"V"), 0, 20, 5, 200), Ok(()));
    assert_eq!(t.mint_tickets(Origin::Signed(1), 0, 12), Ok(()));
    t
}

#[test]
fn law_marketplace_delist_undoes_list() {
    let mut t = resale_tickets();
    let mut p = pallet_marketplace::Pallet::new();
    assert_eq!(p.list(&mut t, Origin::Signed(1), 10, 5), Ok(()));
    let before = (p.listings(0), p.ticket_listing(10), p.listings(1), p.ticket_listing(11));
    assert_eq!(p.list(&mut t, Origin::Signed(1), 11, 7), Ok(()));
    assert_eq!(p.delist(&mut t, Origin::Signed(1), 1), Ok(()));
    assert_eq!((p.listings(0), p.ticket_listing(10), p.listings(1), p.ticket_listing(11)), before);
}

#[test]
fn law_marketplace_ticket_in_one_listing() {
    let mut t = resale_tickets();
    let mut p = pallet_marketplace::Pallet::new();
    assert_eq!(p.list(&mut t, Origin::Signed(1), 10, 5), Ok(()));
    assert!(p.list(&mut t, Origin::Signed(1), 10, 6).is_err());
    assert_eq!(p.buy(&mut t, Origin::Signed(3), 0), Ok(()));
    assert_eq!(p.list(&mut t, Origin::Signed(3), 10, 6), Ok(()));
    assert_eq!(p.ticket_listing(10), Some(1));
    assert!(p.listings(0).is_none());
}

#[test]
fn law_marketplace_buy_moves_ticket_and_funds() {
    let mut t = resale_tickets();
    let mut p = pallet_marketplace::Pallet::new();
    assert_eq!(p.list(&mut t, Origin::Signed(1), 3, 10), Ok(()));
    assert_eq!(p.buy(&mut t, Origin::Signed(2), 0), Ok(()));
    assert_eq!(t.tickets(3).unwrap().owner, 2);
    assert_eq!((t.free_balance(1), t.free_balance(2)), (10, 990));
}

#[test]
fn law_marketplace_bought_listing_never_bought_again() {
    let mut t = resale_tickets();
    let mut p = pallet_marketplace::Pallet::new();
    assert_eq!(p.list(&mut t, Origin::Signed(1), 3, 10), Ok(()));
    assert_eq!(p.buy(&mut t, Origin::Signed(2), 0), Ok(()));
    // Later calls: the ticket is listed again and new listings come and go.
    assert_eq!(p.list(&mut t, Origin::Signed(2), 3, 10), Ok(()));
    assert_eq!(p.list(&mut t, Origin::Signed(1), 4, 10), Ok(()));
    assert_eq!(p.delist(&mut t, Origin::Signed(1), 2), Ok(()));
    let before = (format!("{:?}", p), format!("{:?}", t));
    assert_eq!(
        p.buy(&mut t, Origin::Signed(3), 0),
        Err(lib::dispatch::DispatchError::Module(pallet_marketplace::Error::ListingNotFound))
    );
    assert_eq!((format!("{:?}", p), format!("{:?}", t)), before);
}

#[test]
fn law_scanner_no_double_entry_and_permanent_record() {
    let mut ev = pallet_event::Pallet::new();
    for _ in 0..4 {
        assert_eq!(ev.create_event(Origin::Signed(1), 5, b(b"Qm")), Ok(()));
    }
    let mut t = resale_tickets();
    let mut p = pallet_scanner::Pallet::new();
    assert_eq!(p.authorize_scanner(&ev, Origin::Signed(1), 3, 4), Ok(()));
    assert_eq!(p.validate_entry(&mut t, Origin::Signed(4), 3, 8, 100), Ok(()));
    assert!(p.validate_entry(&mut t, Origin::Signed(4), 3, 8, 101).is_err());
    assert_eq!(p.revoke_scanner(&ev, Origin::Signed(1), 3, 4), Ok(()));
    assert_eq!(p.scan_record(8), Some(100));
    assert!(t.tickets(8).unwrap().is_used);
}

#[test]
fn law_scanner_revoke_undoes_authorize() {
    let mut ev = pallet_event::Pallet::new();
    for _ in 0..4 {
        assert_eq!(ev.create_event(Origin::Signed(1), 5, b(b"Qm")), Ok(()));
    }
    let mut p = pallet_scanner::Pallet::new();
    assert_eq!(p.authorize_scanner(&ev, Origin::Signed(1), 3, 5), Ok(()));
    assert_eq!(p.authorize_scanner(&ev, Origin::Signed(1), 3, 4), Ok(()));
    assert_eq!(p.revoke_scanner(&ev, Origin::Signed(1), 3, 4), Ok(()));
    assert!(!p.authorized_scanners(3, 4));
    assert!(p.authorized_scanners(3, 5));
}

#[test]
fn law_scanner_only_organizer_authorizes() {
    let mut ev = pallet_event::Pallet::new();
    assert_eq!(ev.create_event(Origin::Signed(1), 5, b(b"Qm")), Ok(()));
    let mut p = pallet_scanner::Pallet::new();
    assert!(p.authorize_scanner(&ev, Origin::Signed(2), 0, 2).is_err());
    assert!(!p.authorized_scanners(0, 2));
    assert_eq!(p.authorize_scanner(&ev, Origin::Signed(1), 0, 2), Ok(()));
    assert!(p.revoke_scanner(&ev, Origin::Signed(2), 0, 2).is_err());
    assert!(p.authorized_scanners(0, 2));
}
