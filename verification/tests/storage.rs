use telurean_pallets::storage::DoubleMap;

#[test]
fn records_are_kept_by_collection_and_item() {
    let mut table: DoubleMap<u8> = DoubleMap::new();
    assert_eq!(table.get(0, 0), None);

    table.insert(1, 10, 7);
    table.insert(1, 11, 8);
    table.insert(2, 10, 9);
    assert_eq!(table.get(1, 10), Some(&7));
    assert_eq!(table.get(1, 11), Some(&8));
    assert_eq!(table.get(2, 10), Some(&9));
    assert_eq!(table.get(2, 11), None);
    assert_eq!(table.get(10, 1), None);

    // A later record replaces an earlier one under the same key only.
    table.insert(1, 10, 70);
    assert_eq!(table.get(1, 10), Some(&70));
    assert_eq!(table.get(1, 11), Some(&8));
}

#[test]
fn removed_records_are_handed_out_once() {
    let mut table: DoubleMap<&str> = DoubleMap::new();
    table.insert(1, u128::MAX, "a");
    table.insert(1, 0, "b");
    assert_eq!(table.remove(1, u128::MAX), Some("a"));
    assert_eq!(table.remove(1, u128::MAX), None);
    assert_eq!(table.get(1, u128::MAX), None);
    assert_eq!(table.get(1, 0), Some(&"b"));
    assert_eq!(table.remove(7, 0), None);
    assert_eq!(table.remove(1, 0), Some("b"));
    assert_eq!(table.get(1, 0), None);
    // The table takes records again after it was emptied.
    table.insert(1, 0, "c");
    assert_eq!(table.get(1, 0), Some(&"c"));
}
