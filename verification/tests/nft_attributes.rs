use sp_runtime::BoundedVec;
use telurean_pallets::nft_attributes::{
    bounded_attributes, AttributeList, Error, Event, Pallet, ATTRIBUTE_LIMIT, KEY_LIMIT,
    VALUE_LIMIT,
};

fn list(entries: &[(&[u8], &[u8])]) -> AttributeList {
    bounded_attributes(entries.iter().map(|(k, v)| (k.to_vec(), v.to_vec())).collect()).unwrap()
}

fn read(pallet: &Pallet, collection: u32, item: u128) -> Vec<(Vec<u8>, Vec<u8>)> {
    pallet
        .attributes(collection, item)
        .iter()
        .map(|(k, v)| (k.to_vec(), v.to_vec()))
        .collect()
}

#[test]
fn attributes_are_read_back_as_written() {
    let mut pallet = Pallet::new();
    let written = list(&[(b"name", b"Tizona"), (b"kind", b"sword")]);
    assert_eq!(
        pallet.set_attributes(1, 0, 7, written.clone(), Some(1)),
        Ok(Event::AttributesSet { collection: 0, item: 7, who: 1 })
    );
    assert_eq!(pallet.attributes(0, 7), written);
    assert_eq!(
        read(&pallet, 0, 7),
        vec![(b"name".to_vec(), b"Tizona".to_vec()), (b"kind".to_vec(), b"sword".to_vec())]
    );
    // Other tokens have none.
    assert!(read(&pallet, 0, 8).is_empty());
    assert!(read(&pallet, 1, 7).is_empty());
}

#[test]
fn attributes_are_replaced_not_merged() {
    let mut pallet = Pallet::new();
    assert!(pallet.set_attributes(1, 0, 7, list(&[(b"a", b"1"), (b"b", b"2")]), Some(1)).is_ok());
    assert!(pallet.set_attributes(1, 0, 7, list(&[(b"c", b"3")]), Some(1)).is_ok());
    assert_eq!(read(&pallet, 0, 7), vec![(b"c".to_vec(), b"3".to_vec())]);
    // An empty list replaces as well.
    assert!(pallet.set_attributes(1, 0, 7, list(&[]), Some(1)).is_ok());
    assert!(read(&pallet, 0, 7).is_empty());
}

#[test]
fn cleared_attributes_read_as_empty() {
    let mut pallet = Pallet::new();
    assert!(pallet.set_attributes(1, 0, 7, list(&[(b"a", b"1")]), Some(1)).is_ok());
    assert!(pallet.set_attributes(1, 0, 8, list(&[(b"b", b"2")]), Some(1)).is_ok());
    assert_eq!(
        pallet.clear_attributes(1, 0, 7, Some(1)),
        Ok(Event::AttributesCleared { collection: 0, item: 7, who: 1 })
    );
    assert!(read(&pallet, 0, 7).is_empty());
    assert_eq!(read(&pallet, 0, 8), vec![(b"b".to_vec(), b"2".to_vec())]);
    // Clearing what is not there succeeds too.
    assert_eq!(
        pallet.clear_attributes(1, 3, 3, Some(1)),
        Ok(Event::AttributesCleared { collection: 3, item: 3, who: 1 })
    );
}

#[test]
fn only_the_holder_may_set_or_clear() {
    let mut pallet = Pallet::new();
    assert!(pallet.set_attributes(1, 0, 7, list(&[(b"a", b"1")]), Some(1)).is_ok());

    assert_eq!(
        pallet.set_attributes(2, 0, 7, list(&[(b"x", b"y")]), Some(1)),
        Err(Error::NotOwner)
    );
    // A token that the registry does not know has no holder.
    assert_eq!(
        pallet.set_attributes(1, 0, 7, list(&[(b"x", b"y")]), None),
        Err(Error::NotOwner)
    );
    assert_eq!(pallet.clear_attributes(2, 0, 7, Some(1)), Err(Error::NotOwner));
    assert_eq!(pallet.clear_attributes(1, 0, 7, None), Err(Error::NotOwner));
    assert_eq!(read(&pallet, 0, 7), vec![(b"a".to_vec(), b"1".to_vec())]);
}

#[test]
fn entries_are_bounded_in_number() {
    let entry = (b"k".to_vec(), b"v".to_vec());
    let full = bounded_attributes(vec![entry.clone(); ATTRIBUTE_LIMIT as usize]).unwrap();
    assert_eq!(full.len(), ATTRIBUTE_LIMIT as usize);
    let almost = bounded_attributes(vec![entry.clone(); ATTRIBUTE_LIMIT as usize - 1]).unwrap();
    assert_eq!(almost.len(), ATTRIBUTE_LIMIT as usize - 1);
    assert_eq!(
        bounded_attributes(vec![entry; ATTRIBUTE_LIMIT as usize + 1]),
        Err(Error::AttributeLimitReached)
    );
}

#[test]
fn keys_and_values_are_bounded_in_length() {
    let key = vec![b'k'; KEY_LIMIT as usize];
    let value = vec![b'v'; VALUE_LIMIT as usize];
    let long_key = vec![b'k'; KEY_LIMIT as usize + 1];
    let long_value = vec![b'v'; VALUE_LIMIT as usize + 1];

    let at_limits = bounded_attributes(vec![(key.clone(), value.clone())]).unwrap();
    assert_eq!(at_limits[0].0.to_vec(), key);
    assert_eq!(at_limits[0].1.to_vec(), value);

    assert_eq!(
        bounded_attributes(vec![(long_key.clone(), value.clone())]),
        Err(Error::KeyTooLong)
    );
    assert_eq!(
        bounded_attributes(vec![(key.clone(), long_value.clone())]),
        Err(Error::ValueTooLong)
    );
    // The key is looked at before the value, the first offending entry before
    // later ones, and the number of entries before any of them.
    assert_eq!(
        bounded_attributes(vec![(long_key.clone(), long_value.clone())]),
        Err(Error::KeyTooLong)
    );
    assert_eq!(
        bounded_attributes(vec![
            (key.clone(), value.clone()),
            (key.clone(), long_value.clone()),
            (long_key.clone(), value.clone()),
        ]),
        Err(Error::ValueTooLong)
    );
    assert_eq!(
        bounded_attributes(vec![(long_key, long_value); ATTRIBUTE_LIMIT as usize + 1]),
        Err(Error::AttributeLimitReached)
    );
}

#[test]
fn bounding_keeps_order_and_bytes() {
    let raw: Vec<(Vec<u8>, Vec<u8>)> = vec![
        (b"b".to_vec(), vec![]),
        (vec![], b"empty key".to_vec()),
        (b"a".to_vec(), vec![0, 255, 7]),
        (b"b".to_vec(), b"again".to_vec()),
    ];
    let bounded = bounded_attributes(raw.clone()).unwrap();
    let back: Vec<(Vec<u8>, Vec<u8>)> =
        bounded.iter().map(|(k, v)| (k.to_vec(), v.to_vec())).collect();
    assert_eq!(back, raw);
    assert_eq!(bounded_attributes(vec![]).unwrap(), AttributeList::default());
    let direct: AttributeList = BoundedVec::try_from(vec![(
        BoundedVec::try_from(b"b".to_vec()).unwrap(),
        BoundedVec::try_from(vec![]).unwrap(),
    )])
    .unwrap();
    assert_eq!(bounded_attributes(vec![(b"b".to_vec(), vec![])]).unwrap(), direct);
}
