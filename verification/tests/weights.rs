use telurean_pallets::nft_hierarchy::weights::{
    RuntimeDbWeight, SubstrateWeight, Weight, WeightInfo,
};

#[test]
fn costs_with_the_reference_backend() {
    let table = SubstrateWeight {
        db_weight: RuntimeDbWeight { read: 25_000_000, write: 100_000_000 },
    };
    assert_eq!(table.create_ownership(), Weight::from_parts(110_000_000, 0));
    assert_eq!(table.remove_ownership(), Weight::from_parts(135_000_000, 1489));
    assert_eq!(table.get_owned_assets(), Weight::from_parts(110_000_000, 0));
    // The fallback table assumes that backend.
    assert_eq!(().create_ownership(), table.create_ownership());
    assert_eq!(().remove_ownership(), table.remove_ownership());
    assert_eq!(().get_owned_assets(), table.get_owned_assets());
}

#[test]
fn costs_follow_the_backend() {
    let table = SubstrateWeight { db_weight: RuntimeDbWeight { read: 3, write: 5 } };
    assert_eq!(table.create_ownership().ref_time(), 10_000_005);
    assert_eq!(table.create_ownership().proof_size(), 0);
    assert_eq!(table.remove_ownership().ref_time(), 10_000_008);
    assert_eq!(table.remove_ownership().proof_size(), 1489);
    assert_eq!(table.get_owned_assets().ref_time(), 10_000_005);
    let free = SubstrateWeight { db_weight: RuntimeDbWeight { read: 0, write: 0 } };
    assert_eq!(free.remove_ownership(), Weight::from_parts(10_000_000, 1489));
}

#[test]
fn costs_saturate() {
    let table =
        SubstrateWeight { db_weight: RuntimeDbWeight { read: u64::MAX, write: u64::MAX } };
    assert_eq!(table.create_ownership(), Weight::from_parts(u64::MAX, 0));
    assert_eq!(table.remove_ownership(), Weight::from_parts(u64::MAX, 1489));
    let near = SubstrateWeight {
        db_weight: RuntimeDbWeight { read: 1, write: u64::MAX - 10_000_001 },
    };
    assert_eq!(near.create_ownership().ref_time(), u64::MAX - 1);
    assert_eq!(near.remove_ownership().ref_time(), u64::MAX);
}

#[test]
fn weights_add_part_by_part() {
    let sum = Weight::from_parts(1, 2).saturating_add(Weight::from_parts(10, 20));
    assert_eq!((sum.ref_time(), sum.proof_size()), (11, 22));
    let held = Weight::from_parts(u64::MAX, 2).saturating_add(Weight::from_parts(1, u64::MAX));
    assert_eq!((held.ref_time(), held.proof_size()), (u64::MAX, u64::MAX));
    let db = RuntimeDbWeight { read: 7, write: 9 };
    assert_eq!(db.reads(3), Weight::from_parts(21, 0));
    assert_eq!(db.writes(0), Weight::from_parts(0, 0));
    assert_eq!(db.writes(u64::MAX), Weight::from_parts(u64::MAX, 0));
}
