//! Verified state machines for an on-chain event ticketing platform: event
//! records and capacity, primary ticket sales and capped resale, a secondary
//! marketplace, and gate-entry scanning.

pub mod balances;
pub mod bounded;
pub mod dispatch;
pub mod weight;
pub mod pallet_event;
pub mod pallet_marketplace;
pub mod pallet_scanner;
pub mod pallet_ticket;
pub mod runtime;
