//! Key/value metadata that the holder of a token attaches to it.
//!
//! Each token of the host's registry may carry one list of attributes. The
//! holder of the token replaces the whole list or clears it. Who holds the
//! token is reported by the caller from the host's registry.

use crate::primitives::{AccountId, CollectionId, ItemId};
use crate::storage::DoubleMap;
use sp_runtime::traits::ConstU32;
use sp_runtime::BoundedVec;
use vstd::prelude::*;

verus! {

/// The most bytes an attribute's key may have.
pub const KEY_LIMIT: u32 = 64;

/// The most bytes an attribute's value may have.
pub const VALUE_LIMIT: u32 = 256;

/// The most attributes one token may carry.
pub const ATTRIBUTE_LIMIT: u32 = 32;

/// The key of an attribute.
pub type Key = BoundedVec<u8, ConstU32<KEY_LIMIT>>;

/// The value of an attribute.
pub type Value = BoundedVec<u8, ConstU32<VALUE_LIMIT>>;

/// The attributes of one token.
pub type AttributeList = BoundedVec<(Key, Value), ConstU32<ATTRIBUTE_LIMIT>>;

/// One attribute as plain bytes: its key and its value.
pub type Entry = (Seq<u8>, Seq<u8>);

/// The bytes that `key` holds.
pub uninterp spec fn key_bytes(key: Key) -> Seq<u8>;

/// The bytes that `value` holds.
pub uninterp spec fn value_bytes(value: Value) -> Seq<u8>;

/// The attributes that `attributes` holds, in order, each as the bytes of its
/// key and of its value.
pub uninterp spec fn attribute_entries(attributes: AttributeList) -> Seq<Entry>;

/// `BoundedVec::default`: a bounded vector that holds nothing.
#[verifier::external_body]
fn no_attributes() -> (attributes: AttributeList)
    ensures
        attribute_entries(attributes) == Seq::<Entry>::empty(),
{
    BoundedVec::default()
}

/// `BoundedVec::clone`: a bounded vector that holds the same attributes.
#[verifier::external_body]
fn clone_attributes(attributes: &AttributeList) -> (copy: AttributeList)
    ensures
        attribute_entries(copy) == attribute_entries(*attributes),
{
    attributes.clone()
}

/// `BoundedVec::try_from` a vector: the bytes as a key where they are within
/// `KEY_LIMIT`; else the bytes are handed back.
#[verifier::external_body]
fn key_from(bytes: Vec<u8>) -> (made: Result<Key, Vec<u8>>)
    ensures
        made is Ok <==> bytes@.len() <= KEY_LIMIT,
        made matches Ok(key) ==> key_bytes(key) == bytes@,
        made matches Err(back) ==> back == bytes,
{
    BoundedVec::try_from(bytes)
}

/// `BoundedVec::try_from` a vector: the bytes as a value where they are
/// within `VALUE_LIMIT`; else the bytes are handed back.
#[verifier::external_body]
fn value_from(bytes: Vec<u8>) -> (made: Result<Value, Vec<u8>>)
    ensures
        made is Ok <==> bytes@.len() <= VALUE_LIMIT,
        made matches Ok(value) ==> value_bytes(value) == bytes@,
        made matches Err(back) ==> back == bytes,
{
    BoundedVec::try_from(bytes)
}

/// `BoundedVec::try_push`: below the bound the attribute is appended; at the
/// bound the list is left alone and the attribute is handed back.
#[verifier::external_body]
fn attributes_try_push(attributes: &mut AttributeList, key: Key, value: Value) -> (pushed: Result<
    (),
    (Key, Value),
>)
    ensures
        pushed is Ok <==> attribute_entries(*old(attributes)).len() < ATTRIBUTE_LIMIT,
        pushed is Ok ==> attribute_entries(*final(attributes)) == attribute_entries(
            *old(attributes),
        ).push((key_bytes(key), value_bytes(value))),
        pushed matches Err(back) ==> back == (key, value) && *final(attributes) == *old(attributes),
{
    attributes.try_push((key, value))
}

/// What the module reports on success.
#[derive(Clone, Copy, Debug, PartialEq, Eq, Structural)]
pub enum Event {
    /// The attributes of the token were replaced.
    AttributesSet { collection: CollectionId, item: ItemId, who: AccountId },
    /// The attributes of the token were cleared.
    AttributesCleared { collection: CollectionId, item: ItemId, who: AccountId },
}

/// Why an operation of the module failed.
#[derive(Clone, Copy, Debug, PartialEq, Eq, Structural)]
pub enum Error {
    /// The host's registry knows no such token.
    TokenNotFound,
    /// The caller does not hold the token.
    NotOwner,
    /// More attributes than one token may carry.
    AttributeLimitReached,
    /// A key of more bytes than a key may have.
    KeyTooLong,
    /// A value of more bytes than a value may have.
    ValueTooLong,
}

/// `who` is the holder that the host's registry reported. Where the registry
/// knows no such token it reports no holder, and nobody is its holder.
pub open spec fn holds(who: AccountId, holder: Option<AccountId>) -> bool {
    holder == Some(who)
}

/// The first entry with a key beyond `KEY_LIMIT` or a value beyond
/// `VALUE_LIMIT`, or the number of entries where every entry is within both.
pub open spec fn first_oversized(entries: Seq<Entry>) -> int
    decreases entries.len(),
{
    if entries.len() == 0 || entries[0].0.len() > KEY_LIMIT || entries[0].1.len() > VALUE_LIMIT {
        0
    } else {
        1 + first_oversized(entries.drop_first())
    }
}

/// The failure, if any, of bounding `entries`: too many of them; else, at the
/// first entry that is oversized, a key that is too long or, with the key
/// within its limit, a value that is too long.
pub open spec fn bounding_error(entries: Seq<Entry>) -> Option<Error> {
    let at = first_oversized(entries);
    if entries.len() > ATTRIBUTE_LIMIT {
        Some(Error::AttributeLimitReached)
    } else if at < entries.len() {
        if entries[at].0.len() > KEY_LIMIT {
            Some(Error::KeyTooLong)
        } else {
            Some(Error::ValueTooLong)
        }
    } else {
        None
    }
}

/// `first_oversized` is the least index of an oversized entry: where the
/// entries before `index` are within both limits and the entry at `index` is
/// oversized or `index` is the number of entries, it is `index`.
pub proof fn lemma_first_oversized(entries: Seq<Entry>, index: int)
    requires
        0 <= index <= entries.len(),
        forall|j: int|
            0 <= j < index ==> (#[trigger] entries[j]).0.len() <= KEY_LIMIT && entries[j].1.len()
                <= VALUE_LIMIT,
        index < entries.len() ==> entries[index].0.len() > KEY_LIMIT || entries[index].1.len()
            > VALUE_LIMIT,
    ensures
        first_oversized(entries) == index,
    decreases entries.len(),
{
    if index > 0 {
        let rest = entries.drop_first();
        assert forall|j: int| 0 <= j < index - 1 implies (#[trigger] rest[j]).0.len() <= KEY_LIMIT
            && rest[j].1.len() <= VALUE_LIMIT by {
            assert(rest[j] == entries[j + 1]);
        }
        lemma_first_oversized(rest, index - 1);
    }
}

/// Entries are accepted up to `ATTRIBUTE_LIMIT` of them, each with a key up to
/// `KEY_LIMIT` and a value up to `VALUE_LIMIT`; one entry more is rejected.
pub proof fn law_attributes_are_bounded(entries: Seq<Entry>)
    ensures
        entries.len() > ATTRIBUTE_LIMIT ==> bounding_error(entries) == Some(
            Error::AttributeLimitReached,
        ),
        entries.len() <= ATTRIBUTE_LIMIT && (forall|j: int|
            0 <= j < entries.len() ==> (#[trigger] entries[j]).0.len() <= KEY_LIMIT
                && entries[j].1.len() <= VALUE_LIMIT) ==> bounding_error(entries) is None,
{
    if entries.len() <= ATTRIBUTE_LIMIT && (forall|j: int|
        0 <= j < entries.len() ==> (#[trigger] entries[j]).0.len() <= KEY_LIMIT
            && entries[j].1.len() <= VALUE_LIMIT) {
        lemma_first_oversized(entries, entries.len() as int);
    }
}

/// Bounds `entries` into the attributes of one token: the same keys and
/// values in the same order, provided there are no more than
/// `ATTRIBUTE_LIMIT` of them, each with a key within `KEY_LIMIT` and a value
/// within `VALUE_LIMIT`.
pub fn bounded_attributes(entries: Vec<(Vec<u8>, Vec<u8>)>) -> (outcome: Result<
    AttributeList,
    Error,
>)
    ensures
        match bounding_error(entries.deep_view()) {
            Some(e) => outcome == Err::<AttributeList, Error>(e),
            None => outcome matches Ok(attributes) && attribute_entries(attributes)
                == entries.deep_view(),
        },
{
    let ghost wanted = entries.deep_view();
    if entries.len() > ATTRIBUTE_LIMIT as usize {
        return Err(Error::AttributeLimitReached);
    }
    let mut attributes = no_attributes();
    let mut rest = entries;
    let mut done: usize = 0;
    while rest.len() > 0
        invariant
            wanted == entries.deep_view(),
            wanted.len() <= ATTRIBUTE_LIMIT,
            done + rest.len() == wanted.len(),
            attribute_entries(attributes) == wanted.subrange(0, done as int),
            forall|j: int|
                0 <= j < done ==> (#[trigger] wanted[j]).0.len() <= KEY_LIMIT && wanted[j].1.len()
                    <= VALUE_LIMIT,
            forall|j: int|
                0 <= j < rest.len() ==> (#[trigger] rest.deep_view()[j]) == wanted[done + j],
        decreases rest.len(),
    {
        let ghost before = rest.deep_view();
        let (key_raw, value_raw) = rest.remove(0);
        proof {
            assert(before[0] == (key_raw.deep_view(), value_raw.deep_view()));
            assert(key_raw.deep_view() == key_raw@);
            assert(value_raw.deep_view() == value_raw@);
            assert forall|j: int| 0 <= j < rest.len() implies (#[trigger] rest.deep_view()[j])
                == wanted[done + 1 + j] by {
                assert(rest.deep_view()[j] == before[j + 1]);
            }
        }
        let key = match key_from(key_raw) {
            Ok(key) => key,
            Err(_) => {
                proof {
                    lemma_first_oversized(wanted, done as int);
                }
                return Err(Error::KeyTooLong);
            },
        };
        let value = match value_from(value_raw) {
            Ok(value) => value,
            Err(_) => {
                proof {
                    lemma_first_oversized(wanted, done as int);
                }
                return Err(Error::ValueTooLong);
            },
        };
        match attributes_try_push(&mut attributes, key, value) {
            Ok(()) => {},
            Err(_) => {
                return Err(Error::AttributeLimitReached);
            },
        }
        done += 1;
    }
    proof {
        lemma_first_oversized(wanted, done as int);
    }
    Ok(attributes)
}

/// The records of the module.
pub struct Pallet {
    attributes: DoubleMap<AttributeList>,
}

impl Pallet {
    /// The attribute list stored for each token that has one.
    pub closed spec fn stored(&self) -> Map<(CollectionId, ItemId), AttributeList> {
        self.attributes@
    }

    /// The attributes of the token `(collection, item)`, each as the bytes
    /// of its key and of its value; none where no list is stored.
    pub open spec fn entries_of(&self, collection: CollectionId, item: ItemId) -> Seq<Entry> {
        if self.stored().contains_key((collection, item)) {
            attribute_entries(self.stored()[(collection, item)])
        } else {
            Seq::empty()
        }
    }

    /// The module with no attributes stored.
    pub fn new() -> (pallet: Self)
        ensures
            pallet.stored() == Map::<(CollectionId, ItemId), AttributeList>::empty(),
    {
        Pallet { attributes: DoubleMap::new() }
    }

    /// The attributes of the token `(collection, item)`; an empty list where
    /// none is stored.
    pub fn attributes(&self, collection: CollectionId, item: ItemId) -> (attributes: AttributeList)
        ensures
            attribute_entries(attributes) == self.entries_of(collection, item),
    {
        match self.attributes.get(collection, item) {
            Some(found) => clone_attributes(found),
            None => no_attributes(),
        }
    }

    /// Replaces the attributes of the token `(collection, item)` with
    /// `attributes`, on behalf of `who`.
    ///
    /// The caller reports from the host's registry who holds the token; `who`
    /// must be that holder.
    pub fn set_attributes(
        &mut self,
        who: AccountId,
        collection: CollectionId,
        item: ItemId,
        attributes: AttributeList,
        holder: Option<AccountId>,
    ) -> (outcome: Result<Event, Error>)
        ensures
            !holds(who, holder) ==> outcome == Err::<Event, Error>(Error::NotOwner) && *final(self)
                == *old(self),
            holds(who, holder) ==> outcome == Ok::<Event, Error>(
                Event::AttributesSet { collection, item, who },
            ) && final(self).stored() == old(self).stored().insert((collection, item), attributes),
    {
        if !is_holder(who, holder) {
            return Err(Error::NotOwner);
        }
        self.attributes.insert(collection, item, attributes);
        Ok(Event::AttributesSet { collection, item, who })
    }

    /// Clears the attributes of the token `(collection, item)`, on behalf of
    /// `who`.
    ///
    /// The caller reports from the host's registry who holds the token; `who`
    /// must be that holder.
    pub fn clear_attributes(
        &mut self,
        who: AccountId,
        collection: CollectionId,
        item: ItemId,
        holder: Option<AccountId>,
    ) -> (outcome: Result<Event, Error>)
        ensures
            !holds(who, holder) ==> outcome == Err::<Event, Error>(Error::NotOwner) && *final(self)
                == *old(self),
            holds(who, holder) ==> outcome == Ok::<Event, Error>(
                Event::AttributesCleared { collection, item, who },
            ) && final(self).stored() == old(self).stored().remove((collection, item)),
    {
        if !is_holder(who, holder) {
            return Err(Error::NotOwner);
        }
        self.attributes.remove(collection, item);
        Ok(Event::AttributesCleared { collection, item, who })
    }
}

/// Whether `who` is the holder that the host's registry reported.
fn is_holder(who: AccountId, holder: Option<AccountId>) -> (yes: bool)
    ensures
        yes == holds(who, holder),
{
    match holder {
        Some(account) => account == who,
        None => false,
    }
}

/// After a token's attributes were set, reading them yields exactly the
/// attributes that were written, whatever was stored before, and the
/// attributes of every other token are as before.
pub proof fn law_read_after_set(
    before: Pallet,
    after: Pallet,
    collection: CollectionId,
    item: ItemId,
    attributes: AttributeList,
)
    requires
        after.stored() == before.stored().insert((collection, item), attributes),
    ensures
        after.entries_of(collection, item) == attribute_entries(attributes),
        forall|c: CollectionId, i: ItemId|
            (c, i) != (collection, item) ==> #[trigger] after.entries_of(c, i)
                == before.entries_of(c, i),
{
}

/// After a token's attributes were cleared, reading them yields nothing, and
/// the attributes of every other token are as before.
pub proof fn law_read_after_clear(
    before: Pallet,
    after: Pallet,
    collection: CollectionId,
    item: ItemId,
)
    requires
        after.stored() == before.stored().remove((collection, item)),
    ensures
        after.entries_of(collection, item) == Seq::<Entry>::empty(),
        forall|c: CollectionId, i: ItemId|
            (c, i) != (collection, item) ==> #[trigger] after.entries_of(c, i)
                == before.entries_of(c, i),
{
}

} // verus!
