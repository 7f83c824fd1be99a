//! A keyed table addressed by collection and item.

use crate::primitives::{CollectionId, ItemId};
use std::collections::HashMap;
use vstd::prelude::*;

verus! {

broadcast use vstd::std_specs::hash::group_hash_axioms;

/// A table from `(collection, item)` to a record.
///
/// Its view is the finite map of the records it holds.
pub struct DoubleMap<V> {
    rows: HashMap<CollectionId, HashMap<ItemId, V>>,
}

impl<V> DoubleMap<V> {
    /// The records of the table.
    pub closed spec fn view(&self) -> Map<(CollectionId, ItemId), V> {
        Map::new(
            |k: (CollectionId, ItemId)|
                self.rows@.contains_key(k.0) && self.rows@[k.0]@.contains_key(k.1),
            |k: (CollectionId, ItemId)| self.rows@[k.0]@[k.1],
        )
    }

    /// The empty table.
    pub fn new() -> (table: Self)
        ensures
            table@ == Map::<(CollectionId, ItemId), V>::empty(),
    {
        let table = DoubleMap { rows: HashMap::new() };
        table
    }

    /// The record under `(collection, item)`, if there is one.
    pub fn get(&self, collection: CollectionId, item: ItemId) -> (found: Option<&V>)
        ensures
            match found {
                Some(v) => self@.contains_key((collection, item)) && self@[(collection, item)]
                    == *v,
                None => !self@.contains_key((collection, item)),
            },
    {
        match self.rows.get(&collection) {
            Some(inner) => inner.get(&item),
            None => None,
        }
    }

    /// Stores `record` under `(collection, item)`, replacing what was there.
    pub fn insert(&mut self, collection: CollectionId, item: ItemId, record: V)
        ensures
            final(self)@ == old(self)@.insert((collection, item), record),
    {
        let mut inner = match self.rows.remove(&collection) {
            Some(m) => m,
            None => HashMap::new(),
        };
        inner.insert(item, record);
        self.rows.insert(collection, inner);
    }

    /// Takes the record under `(collection, item)` out of the table.
    pub fn remove(&mut self, collection: CollectionId, item: ItemId) -> (taken: Option<V>)
        ensures
            final(self)@ == old(self)@.remove((collection, item)),
            match taken {
                Some(v) => old(self)@.contains_key((collection, item)) && old(self)@[(
                    collection,
                    item,
                )] == v,
                None => !old(self)@.contains_key((collection, item)),
            },
    {
        match self.rows.remove(&collection) {
            Some(inner) => {
                let mut inner = inner;
                let taken = inner.remove(&item);
                self.rows.insert(collection, inner);
                taken
            },
            None => {
                None
            },
        }
    }
}

} // verus!
