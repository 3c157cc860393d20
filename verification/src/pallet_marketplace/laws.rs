//! Properties that hold of every call of the marketplace pallet.

use vstd::prelude::*;
use crate::balances::free_of;
use crate::dispatch::{signer_of, AccountId, Balance, DispatchError, Origin};
use crate::pallet_ticket;
use super::{step, list_step, delist_step, buy_step, Call, Error, PalletState};

verus! {

/// Every call keeps the storage invariant: the reverse index maps exactly
/// each listed ticket to its listing.
pub proof fn law_wf_preserved(s: PalletState, t: pallet_ticket::PalletState, origin: Origin, call: Call)
    requires
        s.wf(),
    ensures
        step(s, t, origin, call).0.wf(),
{
    let s2 = step(s, t, origin, call).0;
    assert forall|l: u64| #[trigger] s2.listings.contains_key(l) implies {
        &&& l < s2.next_listing_id
        &&& s2.ticket_listing.contains_key(s2.listings[l].ticket_id)
        &&& s2.ticket_listing[s2.listings[l].ticket_id] == l
    } by {
        if s.listings.contains_key(l) {
            assert(s.ticket_listing.contains_key(s.listings[l].ticket_id));
        }
    }
    assert forall|x: u64| #[trigger] s2.ticket_listing.contains_key(x) implies {
        &&& s2.listings.contains_key(s2.ticket_listing[x])
        &&& s2.listings[s2.ticket_listing[x]].ticket_id == x
    } by {
        if s.ticket_listing.contains_key(x) {
            assert(s.listings.contains_key(s.ticket_listing[x]));
        }
    }
}

/// In a well-formed state a ticket is in at most one listing.
pub proof fn law_ticket_listed_at_most_once(s: PalletState, l1: u64, l2: u64)
    requires
        s.wf(),
        s.listings.contains_key(l1),
        s.listings.contains_key(l2),
        s.listings[l1].ticket_id == s.listings[l2].ticket_id,
    ensures
        l1 == l2,
{
    assert(s.ticket_listing[s.listings[l1].ticket_id] == l1);
}

/// A call that fails leaves this pallet and the ticket pallet unchanged.
pub proof fn law_failed_call_changes_nothing(s: PalletState, t: pallet_ticket::PalletState, origin: Origin, call: Call)
    ensures
        step(s, t, origin, call).2 is Err ==> step(s, t, origin, call).0 == s && step(s, t, origin, call).1 == t,
{
}

/// A call that succeeds deposits exactly one event after those already
/// deposited.
pub proof fn law_success_deposits_one_event(s: PalletState, t: pallet_ticket::PalletState, origin: Origin, call: Call)
    ensures
        step(s, t, origin, call).2 is Ok ==> {
            &&& step(s, t, origin, call).0.deposited.len() == s.deposited.len() + 1
            &&& step(s, t, origin, call).0.deposited.take(s.deposited.len() as int) == s.deposited
        },
{
    if step(s, t, origin, call).2 is Ok {
        assert(step(s, t, origin, call).0.deposited.take(s.deposited.len() as int) =~= s.deposited);
    }
}

/// Only the owner of an unused ticket of an active event lists it, and
/// only at a price within the event's resale cap; the ticket is then flagged
/// as listed, with the asking price as its current price.
pub proof fn law_list_by_owner_within_cap(s: PalletState, t: pallet_ticket::PalletState, seller: AccountId, ticket_id: u64, price: Balance)
    requires
        list_step(s, t, Origin::Signed(seller), ticket_id, price).2 is Ok,
    ensures
        list_step(s, t, Origin::Signed(seller), ticket_id, price).1.tickets[ticket_id].is_listed_for_resale,
        list_step(s, t, Origin::Signed(seller), ticket_id, price).1.tickets[ticket_id].current_price == price,
        list_step(s, t, Origin::Signed(seller), ticket_id, price).1.tickets[ticket_id].owner == seller,
        t.tickets.contains_key(ticket_id),
        t.tickets[ticket_id].owner == seller,
        !t.tickets[ticket_id].is_used,
        t.events.contains_key(t.tickets[ticket_id].event_id),
        t.events[t.tickets[ticket_id].event_id].is_active,
        pallet_ticket::resale_cap(t.tickets[ticket_id], t.events[t.tickets[ticket_id].event_id]) matches Some(cap) && price <= cap,
{
}

/// A successful purchase hands the ticket to the buyer, moves the listing
/// price from the buyer to the seller, and closes the listing.
pub proof fn law_buy_moves_ticket_and_funds(s: PalletState, t: pallet_ticket::PalletState, buyer: AccountId, listing_id: u64)
    requires
        buy_step(s, t, Origin::Signed(buyer), listing_id).2 is Ok,
    ensures
        ({
            let r = buy_step(s, t, Origin::Signed(buyer), listing_id);
            let li = s.listings[listing_id];
            &&& s.listings.contains_key(listing_id)
            &&& !r.0.listings.contains_key(listing_id)
            &&& r.1.tickets[li.ticket_id].owner == buyer
            &&& t.tickets[li.ticket_id].owner == li.seller
            &&& pallet_ticket::resale_cap(t.tickets[li.ticket_id], t.events[t.tickets[li.ticket_id].event_id]) matches Some(cap) && li.price <= cap
            &&& buyer != li.seller ==> {
                &&& free_of(r.1.balances, buyer) == free_of(t.balances, buyer) - li.price
                &&& free_of(r.1.balances, li.seller) == free_of(t.balances, li.seller) + li.price
            }
        }),
{
}

/// A seller who lists a ticket and then withdraws that listing leaves the
/// listings and the reverse index as they were, and the ticket no longer
/// flagged as listed, at its original price.
pub proof fn law_delist_undoes_list(s: PalletState, t: pallet_ticket::PalletState, seller: u64, ticket_id: u64, price: Balance)
    requires
        s.wf(),
        list_step(s, t, Origin::Signed(seller), ticket_id, price).2 is Ok,
    ensures
        ({
            let s1 = list_step(s, t, Origin::Signed(seller), ticket_id, price);
            let s2 = delist_step(s1.0, s1.1, Origin::Signed(seller), s.next_listing_id);
            &&& s2.2 is Ok
            &&& s2.0.listings == s.listings
            &&& s2.0.ticket_listing == s.ticket_listing
            &&& !s2.1.tickets[ticket_id].is_listed_for_resale
            &&& s2.1.tickets[ticket_id].current_price == t.tickets[ticket_id].original_price
            &&& s2.1.tickets[ticket_id].owner == t.tickets[ticket_id].owner
        }),
{
    let s1 = list_step(s, t, Origin::Signed(seller), ticket_id, price);
    let s2 = delist_step(s1.0, s1.1, Origin::Signed(seller), s.next_listing_id).0;
    assert(!s.listings.contains_key(s.next_listing_id));
    assert(s2.listings =~= s.listings);
    assert(s2.ticket_listing =~= s.ticket_listing);
}

/// Every call keeps the ticket pallet's storage invariant too.
pub proof fn law_ticket_wf_preserved(s: PalletState, t: pallet_ticket::PalletState, origin: Origin, call: Call)
    requires
        t.wf(),
    ensures
        step(s, t, origin, call).1.wf(),
{
    match call {
        Call::List { ticket_id, price } => {
            pallet_ticket::laws::law_resale_flags_keep_wf(t, ticket_id, price, 0);
        },
        Call::Delist { listing_id } => {
            if s.listings.contains_key(listing_id) {
                pallet_ticket::laws::law_resale_flags_keep_wf(t, s.listings[listing_id].ticket_id, 0, signer_of::<Error>(origin)->Ok_0);
            }
        },
        Call::Buy { listing_id } => {
            if s.listings.contains_key(listing_id) {
                let li = s.listings[listing_id];
                pallet_ticket::laws::law_wf_preserved::<0>(t, Origin::Signed(li.seller),
                    pallet_ticket::Call::TransferTicket { ticket_id: li.ticket_id, to: signer_of::<Error>(origin)->Ok_0, price: li.price });
            }
        },
    }
}

/// The states after dispatching `calls` in order, each with its origin.
pub open spec fn run(s: PalletState, t: pallet_ticket::PalletState, calls: Seq<(Origin, Call)>) -> (PalletState, pallet_ticket::PalletState)
    decreases calls.len(),
{
    if calls.len() == 0 {
        (s, t)
    } else {
        let r = step(s, t, calls[0].0, calls[0].1);
        run(r.0, r.1, calls.drop_first())
    }
}

/// A listing id below the counter that has no listing never gets one
/// again, whatever calls follow: ids are never reused.
pub proof fn law_closed_listing_stays_closed(s: PalletState, t: pallet_ticket::PalletState, calls: Seq<(Origin, Call)>, l: u64)
    requires
        s.wf(),
        l < s.next_listing_id,
        !s.listings.contains_key(l),
    ensures
        run(s, t, calls).0.wf(),
        l < run(s, t, calls).0.next_listing_id,
        !run(s, t, calls).0.listings.contains_key(l),
    decreases calls.len(),
{
    if calls.len() > 0 {
        let r = step(s, t, calls[0].0, calls[0].1);
        law_wf_preserved(s, t, calls[0].0, calls[0].1);
        law_closed_listing_stays_closed(r.0, r.1, calls.drop_first(), l);
    }
}

/// A listing is bought at most once: after a successful purchase, and any
/// calls after it, buying the same listing fails with `ListingNotFound`
/// and changes nothing.
pub proof fn law_bought_listing_never_bought_again(
    s: PalletState,
    t: pallet_ticket::PalletState,
    buyer: AccountId,
    listing_id: u64,
    calls: Seq<(Origin, Call)>,
    later_buyer: AccountId,
)
    requires
        s.wf(),
        buy_step(s, t, Origin::Signed(buyer), listing_id).2 is Ok,
    ensures
        ({
            let b = buy_step(s, t, Origin::Signed(buyer), listing_id);
            let after = run(b.0, b.1, calls);
            let again = buy_step(after.0, after.1, Origin::Signed(later_buyer), listing_id);
            &&& again.2 == Err::<(), DispatchError<Error>>(DispatchError::Module(Error::ListingNotFound))
            &&& again.0 == after.0
            &&& again.1 == after.1
        }),
{
    let b = buy_step(s, t, Origin::Signed(buyer), listing_id);
    law_wf_preserved(s, t, Origin::Signed(buyer), Call::Buy { listing_id });
    law_closed_listing_stays_closed(b.0, b.1, calls, listing_id);
}

} // verus!
