use lib::bounded::BoundedBytes;
use lib::dispatch::{DispatchError, Origin};
use lib::pallet_event;
use lib::pallet_scanner::{Call, Error, Event, Pallet};
use lib::pallet_ticket;

type Tickets = pallet_ticket::Pallet<64>;

fn signed(who: u64) -> Origin {
    Origin::Signed(who)
}

/// The block the scans below happen in.
const BLOCK: u64 = 1;

fn b(s: &[u8]) -> BoundedBytes<64> {
    BoundedBytes::<64>::try_from(s.to_vec()).unwrap()
}

/// An empty scanner pallet, beside event records 0 to 42 all organized by
/// account 1 and a ticket pallet holding tickets 0 to 99.
fn new_test_ext() -> (Pallet, pallet_event::Pallet, Tickets) {
    let mut ev = pallet_event::Pallet::new();
    for _ in 0..43 {
        assert_eq!(ev.create_event(signed(1), 1_000, b(b"Qm")), Ok(()));
    }
    let mut t = Tickets::new();
    assert_eq!(t.create_event(signed(1), b(b"Show"), b(b"Hall"), 0, 200, 10, 100), Ok(()));
    assert_eq!(t.mint_tickets(signed(1), 0, 100), Ok(()));
    (Pallet::new(), ev, t)
}

fn assert_noop<F: FnOnce(&mut Pallet, &mut Tickets) -> Result<(), DispatchError<Error>>>(
    p: &mut Pallet,
    t: &mut Tickets,
    f: F,
    err: DispatchError<Error>,
) {
    let before = (format!("{:?}", p), format!("{:?}", t));
    assert_eq!(f(p, t), Err(err));
    assert_eq!((format!("{:?}", p), format!("{:?}", t)), before);
}

// ── authorize_scanner ─────────────────────────────────────────────────────────

#[test]
fn authorize_scanner_sets_flag() {
    let (mut p, ev, _) = new_test_ext();
    assert_eq!(p.authorize_scanner(&ev, signed(1), 42, 10), Ok(()));
    assert!(p.authorized_scanners(42, 10));
}

// ── revoke_scanner ────────────────────────────────────────────────────────────

#[test]
fn revoke_scanner_clears_flag() {
    let (mut p, ev, _) = new_test_ext();
    assert_eq!(p.authorize_scanner(&ev, signed(1), 42, 10), Ok(()));
    assert_eq!(p.revoke_scanner(&ev, signed(1), 42, 10), Ok(()));
    assert!(!p.authorized_scanners(42, 10));
}

// ── validate_entry ────────────────────────────────────────────────────────────

#[test]
fn validate_entry_records_scan() {
    let (mut p, ev, mut t) = new_test_ext();
    assert_eq!(p.authorize_scanner(&ev, signed(1), 42, 10), Ok(()));
    assert_eq!(p.validate_entry(&mut t, signed(10), 42, 99, BLOCK), Ok(()));
    assert!(p.scan_record(99).is_some());
}

#[test]
fn validate_entry_fails_if_unauthorized() {
    let (mut p, _, mut t) = new_test_ext();
    assert_noop(&mut p, &mut t, |p, t| p.validate_entry(t, signed(99), 42, 0, BLOCK), DispatchError::Module(Error::UnauthorizedScanner));
}

#[test]
fn validate_entry_fails_if_already_scanned() {
    let (mut p, ev, mut t) = new_test_ext();
    assert_eq!(p.authorize_scanner(&ev, signed(1), 42, 10), Ok(()));
    assert_eq!(p.validate_entry(&mut t, signed(10), 42, 99, BLOCK), Ok(()));
    assert_noop(&mut p, &mut t, |p, t| p.validate_entry(t, signed(10), 42, 99, BLOCK), DispatchError::Module(Error::AlreadyScanned));
}

// ── further cases ─────────────────────────────────────────────────────────────

#[test]
fn only_the_organizer_authorizes() {
    let (mut p, ev, mut t) = new_test_ext();
    assert_noop(&mut p, &mut t, |p, _| p.authorize_scanner(&ev, signed(2), 42, 10), DispatchError::Module(Error::NotOrganizer));
    assert_noop(&mut p, &mut t, |p, _| p.authorize_scanner(&ev, signed(1), 43, 10), DispatchError::Module(Error::EventNotFound));
    assert_eq!(p.authorize_scanner(&ev, signed(1), 42, 10), Ok(()));
    assert_noop(&mut p, &mut t, |p, _| p.revoke_scanner(&ev, signed(10), 42, 10), DispatchError::Module(Error::NotOrganizer));
    assert_noop(&mut p, &mut t, |p, _| p.revoke_scanner(&ev, signed(1), 43, 10), DispatchError::Module(Error::EventNotFound));
    assert!(p.authorized_scanners(42, 10));
}

#[test]
fn validate_entry_marks_ticket_used() {
    let (mut p, ev, mut t) = new_test_ext();
    assert_eq!(p.authorize_scanner(&ev, signed(1), 42, 10), Ok(()));
    assert_eq!(p.validate_entry(&mut t, signed(10), 42, 7, BLOCK), Ok(()));
    assert!(t.tickets(7).unwrap().is_used);
    assert_eq!(t.deposited.last(), Some(&pallet_ticket::Event::TicketValidated { ticket_id: 7, event_id: 0 }));
}

#[test]
fn validate_entry_needs_an_unused_ticket() {
    let (mut p, ev, mut t) = new_test_ext();
    assert_eq!(p.authorize_scanner(&ev, signed(1), 42, 10), Ok(()));
    assert_noop(
        &mut p,
        &mut t,
        |p, t| p.validate_entry(t, signed(10), 42, 100, BLOCK),
        DispatchError::Module(Error::Ticket(pallet_ticket::Error::TicketNotFound)),
    );
    assert_eq!(t.validate_ticket(signed(5), 3), Ok(()));
    assert_noop(
        &mut p,
        &mut t,
        |p, t| p.validate_entry(t, signed(10), 42, 3, BLOCK),
        DispatchError::Module(Error::Ticket(pallet_ticket::Error::TicketAlreadyUsed)),
    );
}

#[test]
fn validate_entry_records_block_and_event() {
    let (mut p, ev, mut t) = new_test_ext();
    assert_eq!(p.authorize_scanner(&ev, signed(1), 7, 10), Ok(()));
    assert_eq!(p.validate_entry(&mut t, signed(10), 7, 5, 1234), Ok(()));
    assert_eq!(p.scan_record(5), Some(1234));
    assert_eq!(p.deposited.last(), Some(&Event::EntryValidated { event_id: 7, ticket_id: 5, scanner: 10, block: 1234 }));
}

#[test]
fn authorization_is_per_event() {
    let (mut p, ev, mut t) = new_test_ext();
    assert_eq!(p.authorize_scanner(&ev, signed(1), 7, 10), Ok(()));
    assert!(!p.authorized_scanners(8, 10));
    assert_noop(&mut p, &mut t, |p, t| p.validate_entry(t, signed(10), 8, 5, BLOCK), DispatchError::Module(Error::UnauthorizedScanner));
}

#[test]
fn revoked_scanner_cannot_validate() {
    let (mut p, ev, mut t) = new_test_ext();
    assert_eq!(p.authorize_scanner(&ev, signed(1), 7, 10), Ok(()));
    assert_eq!(p.revoke_scanner(&ev, signed(1), 7, 10), Ok(()));
    assert_eq!(p.deposited.last(), Some(&Event::ScannerRevoked { event_id: 7, scanner: 10 }));
    assert_noop(&mut p, &mut t, |p, t| p.validate_entry(t, signed(10), 7, 5, BLOCK), DispatchError::Module(Error::UnauthorizedScanner));
}

#[test]
fn scanner_calls_need_signed_origin() {
    let (mut p, ev, mut t) = new_test_ext();
    assert_noop(&mut p, &mut t, |p, _| p.authorize_scanner(&ev, Origin::Root, 7, 10), DispatchError::BadOrigin);
    assert_noop(&mut p, &mut t, |p, _| p.revoke_scanner(&ev, Origin::Unsigned, 7, 10), DispatchError::BadOrigin);
    assert_noop(&mut p, &mut t, |p, t| p.validate_entry(t, Origin::Unsigned, 7, 5, BLOCK), DispatchError::BadOrigin);
}

#[test]
fn scanner_dispatch_routes_calls() {
    let (mut p, ev, mut t) = new_test_ext();
    assert_eq!(p.dispatch(&ev, &mut t, signed(1), Call::AuthorizeScanner { event_id: 0, scanner: 3 }, BLOCK), Ok(()));
    assert_eq!(p.dispatch(&ev, &mut t, signed(3), Call::ValidateEntry { event_id: 0, ticket_id: 0 }, 9), Ok(()));
    assert_eq!(p.scan_record(0), Some(9));
    assert_eq!(p.dispatch(&ev, &mut t, signed(1), Call::RevokeScanner { event_id: 0, scanner: 3 }, BLOCK), Ok(()));
    assert!(!p.authorized_scanners(0, 3));
}

#[test]
fn scanner_benchmark_setups_hold() {
    let (mut p, ev, mut t) = new_test_ext();
    assert_eq!(p.authorize_scanner(&ev, signed(1), 0, 200), Ok(()));
    assert!(p.authorized_scanners(0, 200));
    assert_eq!(p.validate_entry(&mut t, signed(200), 0, 0, BLOCK), Ok(()));
    assert!(p.scan_record(0).is_some());
    assert_eq!(p.revoke_scanner(&ev, signed(1), 0, 200), Ok(()));
    assert!(!p.authorized_scanners(0, 200));
}
