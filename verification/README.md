# Ticketing state machines, verified

The on-chain logic of an event ticketing platform, written in Verus and
proved against its specification:

- `pallet_event` — event records with a capacity, an IPFS metadata CID and a
  sold count that never exceeds the capacity.
- `pallet_ticket` — events with prices and resale caps, tickets minted in
  contiguous batches, primary sales from the organiser, transfers within the
  resale cap, and entry validation; two reverse indexes (tickets by owner, by
  event) kept in step with the ticket records; free balances moved on sales.
- `pallet_marketplace` — fixed-price resale listings, one per ticket, made
  only by the ticket's owner within the resale cap, which flag the ticket
  as listed at the asking price; a purchase is a ticket transfer in which
  the buyer pays the seller and becomes the owner.
- `pallet_scanner` — scanner authorisation per event by the event's
  organizer, entry that marks the ticket used, and a permanent record of the
  block in which each ticket was scanned.
- `runtime` — the four pallets side by side, their configuration, and the
  routing of calls.
- `balances`, `bounded`, `dispatch`, `weight` — free balances, bounded byte
  strings, origins and dispatch errors, saturating weights.

Each pallet has an abstract state (`PalletState`), one spec function per call
that gives the next state and the result, executable calls proved to follow
those spec functions exactly, and a `laws` module with properties of every
call: a failed call changes nothing, a successful call deposits exactly one
event, the storage invariant is kept (for the event, ticket and marketplace
pallets, which have one), and pallet-specific facts such as conservation of
funds, the resale cap, listing ids never reused, only organizers authorising
scanners, and at most one entry per ticket.

`tests/` exercises the calls on concrete values.
