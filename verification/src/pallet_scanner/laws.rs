//! Properties that hold of every call of the scanner pallet.

use vstd::prelude::*;
use crate::dispatch::{AccountId, BlockNumber, Origin};
use crate::pallet_event;
use crate::pallet_ticket;
use super::{step, authorize_scanner_step, revoke_scanner_step, validate_entry_step, Call, PalletState};

verus! {

/// A call that fails leaves this pallet and the ticket pallet unchanged.
pub proof fn law_failed_call_changes_nothing(s: PalletState, ev: pallet_event::PalletState, t: pallet_ticket::PalletState, origin: Origin, call: Call, now: BlockNumber)
    ensures
        step(s, ev, t, origin, call, now).2 is Err ==> step(s, ev, t, origin, call, now).0 == s && step(s, ev, t, origin, call, now).1 == t,
{
}

/// A call that succeeds deposits exactly one event after those already
/// deposited.
pub proof fn law_success_deposits_one_event(s: PalletState, ev: pallet_event::PalletState, t: pallet_ticket::PalletState, origin: Origin, call: Call, now: BlockNumber)
    ensures
        step(s, ev, t, origin, call, now).2 is Ok ==> {
            &&& step(s, ev, t, origin, call, now).0.deposited.len() == s.deposited.len() + 1
            &&& step(s, ev, t, origin, call, now).0.deposited.take(s.deposited.len() as int) == s.deposited
        },
{
    if step(s, ev, t, origin, call, now).2 is Ok {
        assert(step(s, ev, t, origin, call, now).0.deposited.take(s.deposited.len() as int) =~= s.deposited);
    }
}

/// The audit trail only grows: a recorded scan is never removed or changed.
pub proof fn law_scan_record_permanent(s: PalletState, ev: pallet_event::PalletState, t: pallet_ticket::PalletState, origin: Origin, call: Call, now: BlockNumber, ticket_id: u64)
    requires
        s.scan_record.contains_key(ticket_id),
    ensures
        step(s, ev, t, origin, call, now).0.scan_record.contains_key(ticket_id),
        step(s, ev, t, origin, call, now).0.scan_record[ticket_id] == s.scan_record[ticket_id],
{
}

/// A ticket is admitted at most once: validating a ticket that has a scan
/// record fails, whoever calls, and changes nothing.
pub proof fn law_no_double_entry(s: PalletState, t: pallet_ticket::PalletState, origin: Origin, event_id: u64, ticket_id: u64, now: BlockNumber)
    requires
        s.scan_record.contains_key(ticket_id),
    ensures
        validate_entry_step(s, t, origin, event_id, ticket_id, now).2 is Err,
        validate_entry_step(s, t, origin, event_id, ticket_id, now).0 == s,
        validate_entry_step(s, t, origin, event_id, ticket_id, now).1 == t,
{
}

/// `validate_entry` succeeds exactly for an authorised scanner and a ticket
/// without a scan record that the ticket pallet holds unused; it then
/// records the current block and the ticket is used.
pub proof fn law_validate_entry_succeeds_iff(s: PalletState, t: pallet_ticket::PalletState, scanner: AccountId, event_id: u64, ticket_id: u64, now: BlockNumber)
    ensures
        validate_entry_step(s, t, Origin::Signed(scanner), event_id, ticket_id, now).2 is Ok <==> {
            &&& s.authorized_scanners.contains((event_id, scanner))
            &&& !s.scan_record.contains_key(ticket_id)
            &&& t.tickets.contains_key(ticket_id)
            &&& !t.tickets[ticket_id].is_used
        },
        validate_entry_step(s, t, Origin::Signed(scanner), event_id, ticket_id, now).2 is Ok ==> {
            &&& validate_entry_step(s, t, Origin::Signed(scanner), event_id, ticket_id, now).0.scan_record[ticket_id] == now
            &&& validate_entry_step(s, t, Origin::Signed(scanner), event_id, ticket_id, now).1.tickets[ticket_id].is_used
        },
{
}

/// Only the organizer of an event, as the event records show it, changes
/// who may scan for it: any call from anyone else leaves the
/// authorisations unchanged.
pub proof fn law_only_organizer_authorizes(s: PalletState, ev: pallet_event::PalletState, t: pallet_ticket::PalletState, caller: AccountId, call: Call, now: BlockNumber)
    requires
        pallet_event::organizer_of(ev, match call {
            Call::AuthorizeScanner { event_id, .. } => event_id,
            Call::RevokeScanner { event_id, .. } => event_id,
            Call::ValidateEntry { event_id, .. } => event_id,
        }) != Some(caller),
    ensures
        step(s, ev, t, Origin::Signed(caller), call, now).0.authorized_scanners == s.authorized_scanners,
        call is AuthorizeScanner || call is RevokeScanner ==> step(s, ev, t, Origin::Signed(caller), call, now).2 is Err,
{
}

/// Revoking a scanner right after authorising it leaves the authorisations
/// as they were without that pair, and the scanner unauthorised.
pub proof fn law_revoke_undoes_authorize(s: PalletState, ev: pallet_event::PalletState, who: AccountId, event_id: u64, scanner: AccountId)
    requires
        pallet_event::organizer_of(ev, event_id) == Some(who),
    ensures
        ({
            let s1 = authorize_scanner_step(s, ev, Origin::Signed(who), event_id, scanner).0;
            let s2 = revoke_scanner_step(s1, ev, Origin::Signed(who), event_id, scanner).0;
            &&& s2.authorized_scanners == s.authorized_scanners.remove((event_id, scanner))
            &&& !s2.authorized_scanners.contains((event_id, scanner))
        }),
{
    let s1 = authorize_scanner_step(s, ev, Origin::Signed(who), event_id, scanner).0;
    let s2 = revoke_scanner_step(s1, ev, Origin::Signed(who), event_id, scanner).0;
    assert(s2.authorized_scanners =~= s.authorized_scanners.remove((event_id, scanner)));
}

/// `authorize_scanner` by the event's organizer succeeds for every
/// scanner, the organizer's own account included, and afterwards exactly
/// that pair has been added: the scanner is authorised for the event and
/// every other pair is as it was. Anyone else's call fails.
pub proof fn law_authorize_adds_exactly_the_pair(s: PalletState, ev: pallet_event::PalletState, who: AccountId, event_id: u64, scanner: AccountId, e: u64, a: AccountId)
    ensures
        authorize_scanner_step(s, ev, Origin::Signed(who), event_id, scanner).1 is Ok
            <==> pallet_event::organizer_of(ev, event_id) == Some(who),
        authorize_scanner_step(s, ev, Origin::Signed(who), event_id, scanner).1 is Ok ==> {
            let s2 = authorize_scanner_step(s, ev, Origin::Signed(who), event_id, scanner).0;
            &&& s2.authorized_scanners.contains((event_id, scanner))
            &&& ((e, a) != (event_id, scanner) ==> s2.authorized_scanners.contains((e, a)) == s.authorized_scanners.contains((e, a)))
            &&& s2.scan_record == s.scan_record
        },
{
}

/// `revoke_scanner` by the event's organizer succeeds for every scanner and
/// afterwards exactly that pair has been removed; anyone else's call fails.
pub proof fn law_revoke_removes_exactly_the_pair(s: PalletState, ev: pallet_event::PalletState, who: AccountId, event_id: u64, scanner: AccountId, e: u64, a: AccountId)
    ensures
        revoke_scanner_step(s, ev, Origin::Signed(who), event_id, scanner).1 is Ok
            <==> pallet_event::organizer_of(ev, event_id) == Some(who),
        revoke_scanner_step(s, ev, Origin::Signed(who), event_id, scanner).1 is Ok ==> {
            let s2 = revoke_scanner_step(s, ev, Origin::Signed(who), event_id, scanner).0;
            &&& !s2.authorized_scanners.contains((event_id, scanner))
            &&& ((e, a) != (event_id, scanner) ==> s2.authorized_scanners.contains((e, a)) == s.authorized_scanners.contains((e, a)))
            &&& s2.scan_record == s.scan_record
        },
{
}

/// An organizer who authorises a scanner, their own account included, can
/// then have that scanner admit an unscanned ticket that the ticket pallet
/// holds unused.
pub proof fn law_authorized_scanner_can_admit(
    s: PalletState,
    ev: pallet_event::PalletState,
    t: pallet_ticket::PalletState,
    who: AccountId,
    event_id: u64,
    scanner: AccountId,
    ticket_id: u64,
    now: BlockNumber,
)
    requires
        pallet_event::organizer_of(ev, event_id) == Some(who),
        !s.scan_record.contains_key(ticket_id),
        t.tickets.contains_key(ticket_id),
        !t.tickets[ticket_id].is_used,
    ensures
        ({
            let s1 = authorize_scanner_step(s, ev, Origin::Signed(who), event_id, scanner).0;
            validate_entry_step(s1, t, Origin::Signed(scanner), event_id, ticket_id, now).2 is Ok
        }),
{
}

} // verus!
