use lib::pallet_event::weights::{SubstrateWeight as EventWeight, WeightInfo as EventWeightInfo};
use lib::pallet_marketplace::weights::{SubstrateWeight as MarketWeight, WeightInfo as MarketWeightInfo};
use lib::pallet_scanner::weights::{SubstrateWeight as ScannerWeight, WeightInfo as ScannerWeightInfo};
use lib::pallet_ticket::weights::{SubstrateWeight as TicketWeight, WeightInfo as TicketWeightInfo};
use lib::weight::{RuntimeDbWeight, Weight};

/// Storage weights of a RocksDB backend: 25 µs per read, 100 µs per write.
const ROCKS_DB: RuntimeDbWeight = RuntimeDbWeight { read: 25_000_000, write: 100_000_000 };

#[test]
fn weight_arithmetic_saturates() {
    let w = Weight::from_parts(u64::MAX - 1, 7).saturating_add(Weight::from_parts(5, 3));
    assert_eq!(w, Weight { ref_time: u64::MAX, proof_size: 10 });
    assert_eq!(ROCKS_DB.reads(2), Weight { ref_time: 50_000_000, proof_size: 0 });
    assert_eq!(RuntimeDbWeight { read: u64::MAX, write: 1 }.reads(2).ref_time, u64::MAX);
    assert_eq!(Weight::zero(), Weight { ref_time: 0, proof_size: 0 });
}

#[test]
fn event_pallet_weights() {
    let w = EventWeight { db: ROCKS_DB };
    assert_eq!(w.create_event().ref_time, 10_000 + 25_000_000 + 200_000_000);
    assert_eq!(w.update_metadata().ref_time, 10_000 + 25_000_000 + 100_000_000);
    assert_eq!(w.cancel_event().ref_time, 125_010_000);
    assert_eq!(w.increment_sold().ref_time, 125_010_000);
    assert_eq!(EventWeightInfo::create_event(&()), Weight::zero());
    assert_eq!(TicketWeightInfo::create_event(&()), Weight::zero());
}

#[test]
fn marketplace_pallet_weights() {
    let w = MarketWeight { db: ROCKS_DB };
    assert_eq!(w.list().ref_time, 10_000 + 50_000_000 + 300_000_000);
    assert_eq!(w.delist().ref_time, 10_000 + 25_000_000 + 200_000_000);
    assert_eq!(w.buy().ref_time, 225_010_000);
    assert_eq!(().buy(), Weight::zero());
}

#[test]
fn scanner_pallet_weights() {
    let w = ScannerWeight { db: ROCKS_DB };
    assert_eq!(w.authorize_scanner().ref_time, 100_010_000);
    assert_eq!(w.revoke_scanner().ref_time, 100_010_000);
    assert_eq!(w.validate_entry().ref_time, 10_000 + 50_000_000 + 100_000_000);
    assert_eq!(().validate_entry(), Weight::zero());
}

#[test]
fn ticket_pallet_weights() {
    let w = TicketWeight { db: ROCKS_DB };
    assert_eq!(w.create_event().ref_time, 20_000 + 25_000_000 + 200_000_000);
    assert_eq!(w.mint_tickets(3).ref_time, 20_000 + 50_000_000 + 11 * 100_000_000);
    assert_eq!(w.mint_tickets(0).ref_time, 20_000 + 50_000_000 + 200_000_000);
    assert_eq!(w.purchase_ticket().ref_time, 30_000 + 50_000_000 + 400_000_000);
    assert_eq!(w.transfer_ticket().ref_time, 25_000 + 50_000_000 + 300_000_000);
    assert_eq!(w.validate_ticket().ref_time, 15_000 + 25_000_000 + 100_000_000);
    assert_eq!(w.mint_tickets(u32::MAX).ref_time, 1_288_490_188_750_020_000);
    assert_eq!(TicketWeight { db: RuntimeDbWeight { read: 1, write: u64::MAX / 2 } }.mint_tickets(1).ref_time, u64::MAX);
    assert_eq!(().mint_tickets(9), Weight::zero());
    assert_eq!(w.validate_ticket().proof_size, 0);
}
