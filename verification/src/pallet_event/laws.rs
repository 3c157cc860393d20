//! Properties that hold of every call of the event pallet.

use vstd::prelude::*;
use crate::dispatch::Origin;
use super::{step, create_event_step, increment_sold_step, Call, Cid, PalletState};

verus! {

/// Every call keeps the storage invariant: records have ids below the
/// counter and never more tickets sold than their capacity.
pub proof fn law_wf_preserved(s: PalletState, origin: Origin, call: Call)
    requires
        s.wf(),
    ensures
        step(s, origin, call).0.wf(),
{
    let s2 = step(s, origin, call).0;
    assert forall|id: u64| #[trigger] s2.events.contains_key(id) implies
        id < s2.next_event_id && s2.events[id].sold <= s2.events[id].capacity by {
        if s.events.contains_key(id) {
            assert(s.events[id].sold <= s.events[id].capacity);
        }
    }
}

/// A call that fails leaves the state, deposited events included, unchanged.
pub proof fn law_failed_call_changes_nothing(s: PalletState, origin: Origin, call: Call)
    ensures
        step(s, origin, call).1 is Err ==> step(s, origin, call).0 == s,
{
}

/// A call that succeeds deposits exactly one event after those already
/// deposited.
pub proof fn law_success_deposits_one_event(s: PalletState, origin: Origin, call: Call)
    ensures
        step(s, origin, call).1 is Ok ==> {
            &&& step(s, origin, call).0.deposited.len() == s.deposited.len() + 1
            &&& step(s, origin, call).0.deposited.take(s.deposited.len() as int) == s.deposited
        },
{
    if step(s, origin, call).1 is Ok {
        assert(step(s, origin, call).0.deposited.take(s.deposited.len() as int) =~= s.deposited);
    }
}

/// Records are never removed; their organizer and capacity never change,
/// their sold count never decreases, and a cancelled event stays cancelled.
pub proof fn law_records_persist(s: PalletState, origin: Origin, call: Call, id: u64)
    requires
        s.events.contains_key(id),
        s.wf(),
    ensures
        ({
            let s2 = step(s, origin, call).0;
            &&& s2.events.contains_key(id)
            &&& s2.events[id].organizer == s.events[id].organizer
            &&& s2.events[id].capacity == s.events[id].capacity
            &&& s2.events[id].sold >= s.events[id].sold
            &&& s.events[id].cancelled ==> s2.events[id].cancelled
        }),
{
}

/// `create_event` gives the new event an id that no existing record has.
pub proof fn law_create_event_fresh_id(s: PalletState, origin: Origin, capacity: u32, cid: super::Cid)
    requires
        s.wf(),
        create_event_step(s, origin, capacity, cid).1 is Ok,
    ensures
        !s.events.contains_key(s.next_event_id),
        create_event_step(s, origin, capacity, cid).0.events.contains_key(s.next_event_id),
        create_event_step(s, origin, capacity, cid).0.next_event_id == s.next_event_id + 1,
{
}

/// A sale is counted exactly when the event exists, is not cancelled and
/// is not sold out, so an event is never oversold.
pub proof fn law_increment_sold_succeeds_iff(s: PalletState, who: u64, event_id: u64)
    ensures
        increment_sold_step(s, Origin::Signed(who), event_id).1 is Ok <==> {
            &&& s.events.contains_key(event_id)
            &&& !s.events[event_id].cancelled
            &&& s.events[event_id].sold < s.events[event_id].capacity
        },
        increment_sold_step(s, Origin::Signed(who), event_id).1 is Ok ==>
            increment_sold_step(s, Origin::Signed(who), event_id).0.events[event_id].sold == s.events[event_id].sold + 1,
{
}

/// `create_event` from a signed account succeeds unless the id counter is
/// exhausted; it then stores, under the old counter value, a record holding
/// exactly the given capacity and CID, with the signer as organizer, nothing
/// sold and not cancelled, and leaves every other record as it was.
pub proof fn law_create_event_stores_inputs(s: PalletState, who: u64, capacity: u32, cid: Cid, other: u64)
    ensures
        create_event_step(s, Origin::Signed(who), capacity, cid).1 is Ok <==> s.next_event_id < u64::MAX,
        create_event_step(s, Origin::Signed(who), capacity, cid).1 is Ok ==> ({
            let s2 = create_event_step(s, Origin::Signed(who), capacity, cid).0;
            let r = s2.events[s.next_event_id];
            &&& s2.events.contains_key(s.next_event_id)
            &&& r.organizer == who
            &&& r.capacity == capacity
            &&& r.sold == 0
            &&& r.metadata_cid == cid
            &&& !r.cancelled
            &&& s2.next_event_id == s.next_event_id + 1
            &&& (other != s.next_event_id ==> s2.events.contains_key(other) == s.events.contains_key(other))
            &&& (other != s.next_event_id && s.events.contains_key(other) ==> s2.events[other] == s.events[other])
        }),
{
}

/// A successful `increment_sold` changes only the sold count of its event,
/// by exactly one: organizer, capacity, CID and the cancelled flag stay as
/// they were, and so do all other records and the id counter.
pub proof fn law_increment_sold_changes_only_sold(s: PalletState, who: u64, event_id: u64, other: u64)
    requires
        increment_sold_step(s, Origin::Signed(who), event_id).1 is Ok,
    ensures
        ({
            let s2 = increment_sold_step(s, Origin::Signed(who), event_id).0;
            let old = s.events[event_id];
            let new = s2.events[event_id];
            &&& s2.events.contains_key(event_id)
            &&& new.sold == old.sold + 1
            &&& new.organizer == old.organizer
            &&& new.capacity == old.capacity
            &&& new.metadata_cid == old.metadata_cid
            &&& new.cancelled == old.cancelled
            &&& !new.cancelled
            &&& s2.next_event_id == s.next_event_id
            &&& s2.events.dom() == s.events.dom()
            &&& (other != event_id && s.events.contains_key(other) ==> s2.events[other] == s.events[other])
        }),
{
}

} // verus!
