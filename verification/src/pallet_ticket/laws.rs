//! Properties that hold of every call of the ticket pallet.

use vstd::prelude::*;
use crate::balances::free_of;
use crate::bounded::BoundedBytes;
use crate::dispatch::{signer_of, AccountId, Balance, Origin};
use super::{
    create_event_step, mint_tickets_step, minted_ticket, purchase_ticket_step, step, transfer_ticket_step,
    validate_ticket_step, with_new_owner, remaining, resale_check, offered_for_resale, withdrawn_from_resale, Call, Error, EventId, PalletState, TicketId,
};

verus! {

broadcast use vstd::std_specs::hash::group_hash_axioms;

proof fn create_event_keeps_wf<const S: u32>(
    s: PalletState,
    origin: Origin,
    name: BoundedBytes<S>,
    venue_name: BoundedBytes<S>,
    date: u64,
    capacity: u32,
    ticket_price: Balance,
    resale_cap_percent: u8,
)
    requires
        s.wf(),
    ensures
        create_event_step(s, origin, name, venue_name, date, capacity, ticket_price, resale_cap_percent).0.wf(),
{
    let s2 = create_event_step(s, origin, name, venue_name, date, capacity, ticket_price, resale_cap_percent).0;
    assert forall|e: EventId| #[trigger] s2.events.contains_key(e) implies
        e < s2.next_event_id && s2.events[e].tickets_sold <= s2.events[e].capacity by {
        if s.events.contains_key(e) {
            assert(s.events[e].tickets_sold <= s.events[e].capacity);
        }
    }
    assert forall|t: TicketId| #[trigger] s2.tickets.contains_key(t) implies {
        &&& t < s2.next_ticket_id
        &&& s2.events.contains_key(s2.tickets[t].event_id)
        &&& (s2.tickets[t].is_used ==> !s2.tickets[t].is_listed_for_resale)
    } by {
        assert(s.tickets.contains_key(t));
    }
}

proof fn mint_tickets_keeps_wf(s: PalletState, origin: Origin, event_id: EventId, count: u32)
    requires
        s.wf(),
    ensures
        mint_tickets_step(s, origin, event_id, count).0.wf(),
{
    let s2 = mint_tickets_step(s, origin, event_id, count).0;
    if mint_tickets_step(s, origin, event_id, count).1 is Ok {
        let start = s.next_ticket_id as int;
        let end = start + count;
        assert forall|t: TicketId| #[trigger] s2.tickets.contains_key(t) implies {
            &&& t < s2.next_ticket_id
            &&& s2.events.contains_key(s2.tickets[t].event_id)
            &&& (s2.tickets[t].is_used ==> !s2.tickets[t].is_listed_for_resale)
        } by {
            if !(start <= t < end) {
                assert(s.tickets.contains_key(t));
            }
        }
        assert forall|a: AccountId, t: TicketId| #[trigger] s2.tickets_by_owner.contains((a, t))
            <==> (s2.tickets.contains_key(t) && s2.tickets[t].owner == a) by {
            if start <= t < end {
                assert(!s.tickets.contains_key(t));
                assert(!s.tickets_by_owner.contains((a, t)));
            } else {
                assert(s.tickets_by_owner.contains((a, t)) <==> (s.tickets.contains_key(t) && s.tickets[t].owner == a));
            }
        }
        assert forall|e: EventId, t: TicketId| #[trigger] s2.tickets_by_event.contains((e, t))
            <==> (s2.tickets.contains_key(t) && s2.tickets[t].event_id == e) by {
            if start <= t < end {
                assert(!s.tickets.contains_key(t));
                assert(!s.tickets_by_event.contains((e, t)));
            } else {
                assert(s.tickets_by_event.contains((e, t)) <==> (s.tickets.contains_key(t) && s.tickets[t].event_id == e));
            }
        }
    }
}

/// Changing a ticket's owner (and its price and resale flag) keeps the
/// invariant when the ticket is unused or the flag is cleared.
proof fn new_owner_keeps_wf(s: PalletState, ticket_id: TicketId, to: AccountId, current_price: Balance, listed: bool)
    requires
        s.wf(),
        s.tickets.contains_key(ticket_id),
        s.tickets[ticket_id].is_used ==> !listed,
    ensures
        with_new_owner(s, ticket_id, s.tickets[ticket_id].owner, to, current_price, listed).wf(),
{
    let from = s.tickets[ticket_id].owner;
    let s2 = with_new_owner(s, ticket_id, from, to, current_price, listed);
    assert forall|t: TicketId| #[trigger] s2.tickets.contains_key(t) implies {
        &&& t < s2.next_ticket_id
        &&& s2.events.contains_key(s2.tickets[t].event_id)
        &&& (s2.tickets[t].is_used ==> !s2.tickets[t].is_listed_for_resale)
    } by {
        assert(s.tickets.contains_key(t));
    }
    assert forall|a: AccountId, t: TicketId| #[trigger] s2.tickets_by_owner.contains((a, t))
        <==> (s2.tickets.contains_key(t) && s2.tickets[t].owner == a) by {
        assert(s.tickets_by_owner.contains((a, t)) <==> (s.tickets.contains_key(t) && s.tickets[t].owner == a));
    }
    assert forall|e: EventId, t: TicketId| #[trigger] s2.tickets_by_event.contains((e, t))
        <==> (s2.tickets.contains_key(t) && s2.tickets[t].event_id == e) by {
        assert(s.tickets_by_event.contains((e, t)) <==> (s.tickets.contains_key(t) && s.tickets[t].event_id == e));
    }
}

proof fn purchase_ticket_keeps_wf(s: PalletState, origin: Origin, ticket_id: TicketId)
    requires
        s.wf(),
    ensures
        purchase_ticket_step(s, origin, ticket_id).0.wf(),
{
    if purchase_ticket_step(s, origin, ticket_id).1 is Ok {
        let t = s.tickets[ticket_id];
        let buyer = signer_of::<Error>(origin)->Ok_0;
        new_owner_keeps_wf(s, ticket_id, buyer, t.current_price, t.is_listed_for_resale);
        let s1 = with_new_owner(s, ticket_id, t.owner, buyer, t.current_price, t.is_listed_for_resale);
        let s2 = purchase_ticket_step(s, origin, ticket_id).0;
        assert forall|e: EventId| #[trigger] s2.events.contains_key(e) implies
            e < s2.next_event_id && s2.events[e].tickets_sold <= s2.events[e].capacity by {
            assert(s1.events.contains_key(e));
        }
        assert forall|x: TicketId| #[trigger] s2.tickets.contains_key(x) implies {
            &&& x < s2.next_ticket_id
            &&& s2.events.contains_key(s2.tickets[x].event_id)
            &&& (s2.tickets[x].is_used ==> !s2.tickets[x].is_listed_for_resale)
        } by {
            assert(s1.tickets.contains_key(x));
        }
    }
}

proof fn transfer_ticket_keeps_wf(s: PalletState, origin: Origin, ticket_id: TicketId, to: AccountId, price: Balance)
    requires
        s.wf(),
    ensures
        transfer_ticket_step(s, origin, ticket_id, to, price).0.wf(),
{
    if transfer_ticket_step(s, origin, ticket_id, to, price).1 is Ok {
        new_owner_keeps_wf(s, ticket_id, to, price, false);
    }
}

proof fn validate_ticket_keeps_wf(s: PalletState, origin: Origin, ticket_id: TicketId)
    requires
        s.wf(),
    ensures
        validate_ticket_step(s, origin, ticket_id).0.wf(),
{
    let s2 = validate_ticket_step(s, origin, ticket_id).0;
    if validate_ticket_step(s, origin, ticket_id).1 is Ok {
        assert forall|t: TicketId| #[trigger] s2.tickets.contains_key(t) implies {
            &&& t < s2.next_ticket_id
            &&& s2.events.contains_key(s2.tickets[t].event_id)
            &&& (s2.tickets[t].is_used ==> !s2.tickets[t].is_listed_for_resale)
        } by {
            assert(s.tickets.contains_key(t));
        }
        assert forall|a: AccountId, t: TicketId| #[trigger] s2.tickets_by_owner.contains((a, t))
            <==> (s2.tickets.contains_key(t) && s2.tickets[t].owner == a) by {
            assert(s.tickets_by_owner.contains((a, t)) <==> (s.tickets.contains_key(t) && s.tickets[t].owner == a));
        }
        assert forall|e: EventId, t: TicketId| #[trigger] s2.tickets_by_event.contains((e, t))
            <==> (s2.tickets.contains_key(t) && s2.tickets[t].event_id == e) by {
            assert(s.tickets_by_event.contains((e, t)) <==> (s.tickets.contains_key(t) && s.tickets[t].event_id == e));
        }
    }
}

/// Every call keeps the storage invariant: ids below their counters, no
/// event sold beyond capacity, every ticket of an existing event, no used
/// ticket listed for resale, and both reverse indexes in step with the
/// ticket records.
pub proof fn law_wf_preserved<const S: u32>(s: PalletState, origin: Origin, call: Call<S>)
    requires
        s.wf(),
    ensures
        step(s, origin, call).0.wf(),
{
    match call {
        Call::CreateEvent { name, venue_name, date, capacity, ticket_price, resale_cap_percent } =>
            create_event_keeps_wf(s, origin, name, venue_name, date, capacity, ticket_price, resale_cap_percent),
        Call::MintTickets { event_id, count } => mint_tickets_keeps_wf(s, origin, event_id, count),
        Call::PurchaseTicket { ticket_id } => purchase_ticket_keeps_wf(s, origin, ticket_id),
        Call::TransferTicket { ticket_id, to, price } => transfer_ticket_keeps_wf(s, origin, ticket_id, to, price),
        Call::ValidateTicket { ticket_id } => validate_ticket_keeps_wf(s, origin, ticket_id),
    }
}

/// A call that fails leaves the state, balances and deposited events
/// included, unchanged.
pub proof fn law_failed_call_changes_nothing<const S: u32>(s: PalletState, origin: Origin, call: Call<S>)
    ensures
        step(s, origin, call).1 is Err ==> step(s, origin, call).0 == s,
{
}

/// A call that succeeds deposits exactly one event after those already
/// deposited.
pub proof fn law_success_deposits_one_event<const S: u32>(s: PalletState, origin: Origin, call: Call<S>)
    ensures
        step(s, origin, call).1 is Ok ==> {
            &&& step(s, origin, call).0.deposited.len() == s.deposited.len() + 1
            &&& step(s, origin, call).0.deposited.take(s.deposited.len() as int) == s.deposited
        },
{
    if step(s, origin, call).1 is Ok {
        assert(step(s, origin, call).0.deposited.take(s.deposited.len() as int) =~= s.deposited);
    }
}

/// Records are never removed. An event keeps its creator, capacity, price
/// and resale cap and never counts fewer tickets sold; a ticket keeps its
/// event and original price, and once used it stays used.
pub proof fn law_records_persist<const S: u32>(s: PalletState, origin: Origin, call: Call<S>, e: EventId, t: TicketId)
    requires
        s.wf(),
    ensures
        ({
            let s2 = step(s, origin, call).0;
            &&& s.events.contains_key(e) ==> {
                &&& s2.events.contains_key(e)
                &&& s2.events[e].creator == s.events[e].creator
                &&& s2.events[e].capacity == s.events[e].capacity
                &&& s2.events[e].ticket_price == s.events[e].ticket_price
                &&& s2.events[e].resale_cap_percent == s.events[e].resale_cap_percent
                &&& s2.events[e].tickets_sold >= s.events[e].tickets_sold
            }
            &&& s.tickets.contains_key(t) ==> {
                &&& s2.tickets.contains_key(t)
                &&& s2.tickets[t].event_id == s.tickets[t].event_id
                &&& s2.tickets[t].original_price == s.tickets[t].original_price
                &&& (s.tickets[t].is_used ==> s2.tickets[t].is_used)
            }
        }),
{
}

/// The free balances after a call differ from those before only in that one
/// account paid an amount to another: every other account keeps its
/// balance and the two accounts together hold what they held before.
pub open spec fn funds_moved(m1: Map<AccountId, Balance>, m2: Map<AccountId, Balance>, from: AccountId, to: AccountId) -> bool {
    &&& forall|x: AccountId| x != from && x != to ==> #[trigger] free_of(m2, x) == free_of(m1, x)
    &&& from != to ==> free_of(m2, from) + free_of(m2, to) == free_of(m1, from) + free_of(m1, to)
    &&& from == to ==> free_of(m2, from) == free_of(m1, from)
}

/// No call creates or destroys funds: at most one payment between two
/// accounts happens.
pub proof fn law_funds_conserved<const S: u32>(s: PalletState, origin: Origin, call: Call<S>)
    ensures
        exists|from: AccountId, to: AccountId| funds_moved(s.balances, step(s, origin, call).0.balances, from, to),
{
    let s2 = step(s, origin, call).0;
    match call {
        Call::PurchaseTicket { ticket_id } => {
            if purchase_ticket_step(s, origin, ticket_id).1 is Ok {
                let buyer = signer_of::<Error>(origin)->Ok_0;
                let owner = s.tickets[ticket_id].owner;
                assert(funds_moved(s.balances, s2.balances, buyer, owner));
            } else {
                assert(funds_moved(s.balances, s2.balances, 0, 0));
            }
        },
        Call::TransferTicket { ticket_id, to, price } => {
            if transfer_ticket_step(s, origin, ticket_id, to, price).1 is Ok {
                let from = signer_of::<Error>(origin)->Ok_0;
                assert(funds_moved(s.balances, s2.balances, to, from));
            } else {
                assert(funds_moved(s.balances, s2.balances, 0, 0));
            }
        },
        _ => {
            assert(funds_moved(s.balances, s2.balances, 0, 0));
        },
    }
}

/// A successful purchase was of a ticket still held by the event creator;
/// the buyer paid the event's ticket price to the creator, now owns the
/// ticket, and the event counts one more ticket sold.
pub proof fn law_purchase_is_primary_sale(s: PalletState, buyer: AccountId, ticket_id: TicketId)
    requires
        purchase_ticket_step(s, Origin::Signed(buyer), ticket_id).1 is Ok,
    ensures
        ({
            let s2 = purchase_ticket_step(s, Origin::Signed(buyer), ticket_id).0;
            let t = s.tickets[ticket_id];
            let e = s.events[t.event_id];
            &&& t.owner == e.creator
            &&& !t.is_used
            &&& e.is_active
            &&& s2.tickets[ticket_id].owner == buyer
            &&& s2.events[t.event_id].tickets_sold == e.tickets_sold + 1
            &&& buyer != e.creator ==> {
                &&& free_of(s2.balances, buyer) == free_of(s.balances, buyer) - e.ticket_price
                &&& free_of(s2.balances, e.creator) == free_of(s.balances, e.creator) + e.ticket_price
            }
        }),
{
}

/// A successful transfer moved an unused ticket of an active event from its
/// owner to `to` at a price within the resale cap,
/// `original_price * resale_cap_percent / 100`, and paid that price.
pub proof fn law_transfer_respects_resale_cap(s: PalletState, from: AccountId, ticket_id: TicketId, to: AccountId, price: Balance)
    requires
        transfer_ticket_step(s, Origin::Signed(from), ticket_id, to, price).1 is Ok,
    ensures
        ({
            let s2 = transfer_ticket_step(s, Origin::Signed(from), ticket_id, to, price).0;
            let t = s.tickets[ticket_id];
            let e = s.events[t.event_id];
            &&& t.owner == from
            &&& !t.is_used
            &&& e.is_active
            &&& price * 100 <= t.original_price * e.resale_cap_percent
            &&& s2.tickets[ticket_id].owner == to
            &&& s2.tickets[ticket_id].current_price == price
            &&& s2.tickets[ticket_id].current_price <= s2.tickets[ticket_id].original_price * e.resale_cap_percent / 100
            &&& from != to ==> {
                &&& free_of(s2.balances, to) == free_of(s.balances, to) - price
                &&& free_of(s2.balances, from) == free_of(s.balances, from) + price
            }
        }),
{
    let t = s.tickets[ticket_id];
    let e = s.events[t.event_id];
    let p = t.original_price * e.resale_cap_percent;
    assert(price <= p / 100);
    assert(price * 100 <= p) by (nonlinear_arith)
        requires
            price <= p / 100,
            p >= 0;
}

/// A used ticket cannot be validated, bought or transferred again.
pub proof fn law_used_ticket_is_spent(s: PalletState, origin: Origin, ticket_id: TicketId, to: AccountId, price: Balance)
    requires
        s.tickets.contains_key(ticket_id),
        s.tickets[ticket_id].is_used,
    ensures
        validate_ticket_step(s, origin, ticket_id).1 is Err,
        purchase_ticket_step(s, origin, ticket_id).1 is Err,
        transfer_ticket_step(s, origin, ticket_id, to, price).1 is Err,
{
}

/// `mint_tickets` numbers its tickets contiguously from the ticket counter,
/// with ids no existing ticket has, all owned by the event creator at the
/// event's ticket price.
pub proof fn law_minted_ids_fresh_and_contiguous(s: PalletState, origin: Origin, event_id: EventId, count: u32, t: TicketId)
    requires
        s.wf(),
        mint_tickets_step(s, origin, event_id, count).1 is Ok,
        s.next_ticket_id <= t < s.next_ticket_id + count,
    ensures
        !s.tickets.contains_key(t),
        mint_tickets_step(s, origin, event_id, count).0.tickets.contains_key(t),
        mint_tickets_step(s, origin, event_id, count).0.tickets[t]
            == minted_ticket(event_id, s.events[event_id].creator, s.events[event_id].ticket_price),
        mint_tickets_step(s, origin, event_id, count).0.next_ticket_id == s.next_ticket_id + count,
{
}

/// Tickets are minted only by the creator of an active event, and never
/// more at once than its capacity minus the tickets sold.
pub proof fn law_mint_needs_active_event_of_caller(s: PalletState, caller: AccountId, event_id: EventId, count: u32)
    requires
        mint_tickets_step(s, Origin::Signed(caller), event_id, count).1 is Ok,
    ensures
        s.events.contains_key(event_id),
        s.events[event_id].creator == caller,
        s.events[event_id].is_active,
        count <= remaining(s.events[event_id]),
{
}

/// `transfer_ticket` succeeds exactly when the resale checks pass and, for
/// a non-zero price, the receiver can pay it without the owner's balance
/// overflowing. In particular a price exactly at the cap is accepted on
/// those terms, and one unit above it never is.
pub proof fn law_transfer_succeeds_iff(s: PalletState, from: AccountId, ticket_id: TicketId, to: AccountId, price: Balance)
    ensures
        transfer_ticket_step(s, Origin::Signed(from), ticket_id, to, price).1 is Ok <==> {
            &&& resale_check(s, from, ticket_id, price) is Ok
            &&& price > 0 ==> {
                &&& free_of(s.balances, to) >= price
                &&& (to == from || free_of(s.balances, from) + price <= Balance::MAX)
            }
        },
{
}

/// Offering a ticket for resale, or withdrawing it, keeps the storage
/// invariant; neither touches owners, indexes or balances.
pub proof fn law_resale_flags_keep_wf(s: PalletState, ticket_id: TicketId, price: Balance, seller: AccountId)
    requires
        s.wf(),
    ensures
        offered_for_resale(s, ticket_id, price).wf(),
        withdrawn_from_resale(s, ticket_id, seller).wf(),
        offered_for_resale(s, ticket_id, price).balances == s.balances,
        withdrawn_from_resale(s, ticket_id, seller).balances == s.balances,
{
    let s1 = offered_for_resale(s, ticket_id, price);
    let s2 = withdrawn_from_resale(s, ticket_id, seller);
    assert forall|t: TicketId| #[trigger] s1.tickets.contains_key(t) implies {
        &&& t < s1.next_ticket_id
        &&& s1.events.contains_key(s1.tickets[t].event_id)
        &&& (s1.tickets[t].is_used ==> !s1.tickets[t].is_listed_for_resale)
    } by {
        assert(s.tickets.contains_key(t));
    }
    assert forall|a: AccountId, t: TicketId| #[trigger] s1.tickets_by_owner.contains((a, t))
        <==> (s1.tickets.contains_key(t) && s1.tickets[t].owner == a) by {
        assert(s.tickets_by_owner.contains((a, t)) <==> (s.tickets.contains_key(t) && s.tickets[t].owner == a));
    }
    assert forall|e: EventId, t: TicketId| #[trigger] s1.tickets_by_event.contains((e, t))
        <==> (s1.tickets.contains_key(t) && s1.tickets[t].event_id == e) by {
        assert(s.tickets_by_event.contains((e, t)) <==> (s.tickets.contains_key(t) && s.tickets[t].event_id == e));
    }
    assert forall|t: TicketId| #[trigger] s2.tickets.contains_key(t) implies {
        &&& t < s2.next_ticket_id
        &&& s2.events.contains_key(s2.tickets[t].event_id)
        &&& (s2.tickets[t].is_used ==> !s2.tickets[t].is_listed_for_resale)
    } by {
        assert(s.tickets.contains_key(t));
    }
    assert forall|a: AccountId, t: TicketId| #[trigger] s2.tickets_by_owner.contains((a, t))
        <==> (s2.tickets.contains_key(t) && s2.tickets[t].owner == a) by {
        assert(s.tickets_by_owner.contains((a, t)) <==> (s.tickets.contains_key(t) && s.tickets[t].owner == a));
    }
    assert forall|e: EventId, t: TicketId| #[trigger] s2.tickets_by_event.contains((e, t))
        <==> (s2.tickets.contains_key(t) && s2.tickets[t].event_id == e) by {
        assert(s.tickets_by_event.contains((e, t)) <==> (s.tickets.contains_key(t) && s.tickets[t].event_id == e));
    }
}

/// `create_event` from a signed account succeeds unless the event id
/// counter is exhausted; it then stores, under the old counter value, a
/// record holding exactly the given name, venue, date, capacity, price and
/// resale cap, with nothing sold, the signer as creator and the event
/// active, and changes no other record, ticket or balance.
pub proof fn law_create_event_stores_inputs<const S: u32>(
    s: PalletState,
    who: AccountId,
    name: BoundedBytes<S>,
    venue_name: BoundedBytes<S>,
    date: u64,
    capacity: u32,
    ticket_price: Balance,
    resale_cap_percent: u8,
    other: EventId,
)
    ensures
        create_event_step(s, Origin::Signed(who), name, venue_name, date, capacity, ticket_price, resale_cap_percent).1 is Ok
            <==> s.next_event_id < u64::MAX,
        create_event_step(s, Origin::Signed(who), name, venue_name, date, capacity, ticket_price, resale_cap_percent).1 is Ok ==> ({
            let s2 = create_event_step(s, Origin::Signed(who), name, venue_name, date, capacity, ticket_price, resale_cap_percent).0;
            let e = s2.events[s.next_event_id];
            &&& s2.events.contains_key(s.next_event_id)
            &&& e.name == name@
            &&& e.venue_name == venue_name@
            &&& e.date == date
            &&& e.capacity == capacity
            &&& e.ticket_price == ticket_price
            &&& e.resale_cap_percent == resale_cap_percent
            &&& e.tickets_sold == 0
            &&& e.creator == who
            &&& e.is_active
            &&& s2.next_event_id == s.next_event_id + 1
            &&& (other != s.next_event_id ==> s2.events.contains_key(other) == s.events.contains_key(other))
            &&& (other != s.next_event_id && s.events.contains_key(other) ==> s2.events[other] == s.events[other])
            &&& s2.tickets == s.tickets
            &&& s2.balances == s.balances
        }),
{
}

/// A successful purchase changes the ticket's event only in its sold count,
/// by exactly one: the event stays active and keeps its capacity, price,
/// resale cap, creator, name, venue and date. The ticket changes only its
/// owner, to the buyer; no other event or ticket changes.
pub proof fn law_purchase_changes_event_only_in_sold(s: PalletState, buyer: AccountId, ticket_id: TicketId, other_event: EventId, other_ticket: TicketId)
    requires
        purchase_ticket_step(s, Origin::Signed(buyer), ticket_id).1 is Ok,
    ensures
        ({
            let s2 = purchase_ticket_step(s, Origin::Signed(buyer), ticket_id).0;
            let t = s.tickets[ticket_id];
            let t2 = s2.tickets[ticket_id];
            let e = s.events[t.event_id];
            let e2 = s2.events[t.event_id];
            &&& s2.events.contains_key(t.event_id)
            &&& e2.tickets_sold == e.tickets_sold + 1
            &&& e2.is_active
            &&& e2.is_active == e.is_active
            &&& e2.capacity == e.capacity
            &&& e2.ticket_price == e.ticket_price
            &&& e2.resale_cap_percent == e.resale_cap_percent
            &&& e2.creator == e.creator
            &&& e2.name == e.name
            &&& e2.venue_name == e.venue_name
            &&& e2.date == e.date
            &&& s2.events.dom() == s.events.dom()
            &&& (other_event != t.event_id && s.events.contains_key(other_event) ==> s2.events[other_event] == s.events[other_event])
            &&& s2.tickets.contains_key(ticket_id)
            &&& t2.owner == buyer
            &&& t2.event_id == t.event_id
            &&& t2.original_price == t.original_price
            &&& t2.current_price == t.current_price
            &&& t2.is_used == t.is_used
            &&& t2.is_listed_for_resale == t.is_listed_for_resale
            &&& t2.tier == t.tier
            &&& t2.seat == t.seat
            &&& s2.tickets.dom() == s.tickets.dom()
            &&& (other_ticket != ticket_id && s.tickets.contains_key(other_ticket) ==> s2.tickets[other_ticket] == s.tickets[other_ticket])
        }),
{
}

} // verus!
