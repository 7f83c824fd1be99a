//! The global token registry and the ownership graph between tokens.
//!
//! The module keeps three tables: the record of each registered token under
//! its global identifier, the identifier issued last, and for each owner token
//! the dense array of the assets it holds. What the host's token registry
//! knows (whether a collection exists, who holds an item) is handed to each
//! operation by the caller.

pub mod common;
pub mod ownership;
pub mod types;
pub mod weights;

use crate::nft_hierarchy::common::{tag_bytes, NftInfo, Tags, TYPE_LIMIT};
use crate::nft_hierarchy::ownership::{
    any_populated, appended, dense, first_populated, law_vacate_keeps_dense,
    lemma_first_populated, lemma_populated_len, page, populated, removed, Slots,
};
use crate::primitives::{AccountId, CollectionId, ItemId};
use crate::storage::DoubleMap;
use sp_runtime::traits::ConstU32;
use sp_runtime::BoundedVec;
use std::collections::HashMap;
use vstd::prelude::*;

verus! {

broadcast use vstd::std_specs::hash::group_hash_axioms;

/// The most assets one query may ask for.
pub const MAX_ASSETS_PER_TRANSACTION: u32 = 10;

/// The assets that one query retrieved: at most
/// `MAX_ASSETS_PER_TRANSACTION` of them.
pub type AssetPage = BoundedVec<ItemId, ConstU32<MAX_ASSETS_PER_TRANSACTION>>;

/// The assets that `assets` holds, in order.
pub uninterp spec fn page_assets(assets: AssetPage) -> Seq<ItemId>;

/// `BoundedVec::new`: a bounded vector that holds nothing.
#[verifier::external_body]
fn empty_page() -> (assets: AssetPage)
    ensures
        page_assets(assets) == Seq::<ItemId>::empty(),
{
    BoundedVec::new()
}

/// `BoundedVec::try_push`: below the bound the asset is appended; at the bound
/// the vector is left alone and the asset is handed back.
#[verifier::external_body]
fn page_try_push(assets: &mut AssetPage, asset: ItemId) -> (pushed: Result<(), ItemId>)
    ensures
        pushed is Ok <==> page_assets(*old(assets)).len() < MAX_ASSETS_PER_TRANSACTION,
        pushed is Ok ==> page_assets(*final(assets)) == page_assets(*old(assets)).push(asset),
        pushed matches Err(back) ==> back == asset && *final(assets) == *old(assets),
{
    assets.try_push(asset)
}

/// What the module reports on success.
#[derive(Debug, PartialEq, Eq)]
pub enum Event {
    /// A token was registered under the global identifier `asset`; the host
    /// mints item `asset` of `collection` to `who`.
    NftRegistered { who: AccountId, collection: CollectionId, asset: ItemId },
    /// `asset` was appended to the assets of `owner`.
    OwnershipAdded { who: AccountId, owner: (CollectionId, ItemId), asset: ItemId },
    /// An asset was removed from the assets of `owner`.
    OwnershipRemoved { who: AccountId, owner: (CollectionId, ItemId), asset: ItemId },
    /// The assets found by a query on `owner`.
    AssetsRetrieved { owner: (CollectionId, ItemId), assets: AssetPage },
}

/// Why an operation of the module failed.
#[derive(Clone, Copy, Debug, PartialEq, Eq, Structural)]
pub enum Error {
    /// The host's registry knows no such item.
    TokenNotFound,
    /// The host's registry knows no such collection.
    UnknownCollection,
    /// The identifier to be issued is already taken in the collection.
    AlreadyExists,
    /// The caller does not hold the item.
    NotOwner,
    /// The owner already holds the asset.
    AlreadyOwner,
    /// The owner holds no asset.
    OwnershipNotFound,
    /// More tags than a token may carry.
    ExceededTypeLimit,
    /// More assets asked for than one query may retrieve.
    ExceededMaxAssetsPerQuery,
    /// The token does not carry the tag that the operation asks for.
    WrongNft,
}

/// The failure, if any, of the check that `who` holds an item of which the
/// host's registry reported `holder`.
pub open spec fn holder_error(who: AccountId, holder: Option<AccountId>) -> Option<Error> {
    match holder {
        None => Some(Error::TokenNotFound),
        Some(account) => if account == who {
            None
        } else {
            Some(Error::NotOwner)
        },
    }
}

/// The failure, if any, of the check that `who` holds both the owner item and
/// the asset item; the owner item is checked first.
pub open spec fn holders_error(
    who: AccountId,
    owner_holder: Option<AccountId>,
    asset_holder: Option<AccountId>,
) -> Option<Error> {
    match holder_error(who, owner_holder) {
        Some(e) => Some(e),
        None => holder_error(who, asset_holder),
    }
}

/// The failure, if any, of a registration: the collection must exist, the
/// identifier to be issued must be free in it, and the tags must be within
/// their limit.
pub open spec fn registration_error(
    collection_exists: bool,
    item_exists: bool,
    tags: Tags,
) -> Option<Error> {
    if !collection_exists {
        Some(Error::UnknownCollection)
    } else if item_exists {
        Some(Error::AlreadyExists)
    } else if tag_bytes(tags).len() > TYPE_LIMIT {
        Some(Error::ExceededTypeLimit)
    } else {
        None
    }
}

/// The identifier that a registration issues when `last` was issued last.
pub open spec fn issued_after(last: ItemId) -> int {
    last + 1
}

/// The identifier issued by the `n`-th successful registration since the
/// module was new; 0 for `n == 0`, when none was issued.
pub open spec fn nth_issued(n: nat) -> int
    decreases n,
{
    if n == 0 {
        0
    } else {
        issued_after(nth_issued((n - 1) as nat) as ItemId)
    }
}

/// Identifiers are issued from 1 upwards, each one more than the one before:
/// the `n`-th successful registration issues `n`.
pub proof fn law_identifiers_count_up_from_one(n: nat)
    requires
        0 < n <= u128::MAX,
    ensures
        nth_issued(1) == 1,
        nth_issued(n) == nth_issued((n - 1) as nat) + 1,
        nth_issued(n) == n,
    decreases n,
{
    assert(nth_issued(0) == 0);
    if n > 1 {
        law_identifiers_count_up_from_one((n - 1) as nat);
    }
}

/// A registration with up to `TYPE_LIMIT` tags is accepted where the
/// collection exists and the identifier is free; one tag more is rejected.
pub proof fn law_tags_are_bounded(tags: Tags)
    ensures
        tag_bytes(tags).len() <= TYPE_LIMIT ==> registration_error(true, false, tags) is None,
        tag_bytes(tags).len() > TYPE_LIMIT ==> registration_error(true, false, tags) == Some(
            Error::ExceededTypeLimit,
        ),
{
}

/// The records of the module.
pub struct Pallet {
    nft_infos: HashMap<ItemId, NftInfo>,
    last_nft_id: ItemId,
    owner_assets: DoubleMap<Vec<Option<ItemId>>>,
}

impl Pallet {
    /// The record of each registered token, by global identifier.
    pub closed spec fn registered(&self) -> Map<ItemId, NftInfo> {
        self.nft_infos@
    }

    /// The identifier issued last; 0 before the first.
    pub closed spec fn counter(&self) -> ItemId {
        self.last_nft_id
    }

    /// The slots of the owner `(collection, owner)`; their number is the
    /// owner's asset count.
    pub closed spec fn slots_of(&self, collection: CollectionId, owner: ItemId) -> Slots {
        if self.owner_assets@.contains_key((collection, owner)) {
            self.owner_assets@[(collection, owner)]@
        } else {
            Seq::empty()
        }
    }

    /// No owner has a gap among its slots.
    pub open spec fn is_dense(&self) -> bool {
        forall|c: CollectionId, o: ItemId| dense(#[trigger] self.slots_of(c, o))
    }

    /// Nothing differs from `before` but, possibly, the slots of
    /// `(collection, owner)`.
    pub open spec fn differs_only_at(
        &self,
        before: &Pallet,
        collection: CollectionId,
        owner: ItemId,
    ) -> bool {
        &&& self.registered() == before.registered()
        &&& self.counter() == before.counter()
        &&& forall|c: CollectionId, o: ItemId|
            (c, o) != (collection, owner) ==> #[trigger] self.slots_of(c, o) == before.slots_of(
                c,
                o,
            )
    }

    /// No gap arises where the slots of one owner change and stay without
    /// gaps, and all other slots stay as they are.
    pub proof fn lemma_dense_kept(&self, before: &Pallet, collection: CollectionId, owner: ItemId)
        requires
            before.is_dense(),
            dense(self.slots_of(collection, owner)),
            forall|c: CollectionId, o: ItemId|
                (c, o) != (collection, owner) ==> #[trigger] self.slots_of(c, o)
                    == before.slots_of(c, o),
        ensures
            self.is_dense(),
    {
        assert forall|c: CollectionId, o: ItemId| dense(#[trigger] self.slots_of(c, o)) by {
            if (c, o) != (collection, owner) {
                assert(dense(before.slots_of(c, o)));
            }
        }
    }

    /// No gap arises where all slots stay as they are.
    pub proof fn lemma_dense_unchanged(&self, before: &Pallet)
        requires
            before.is_dense(),
            forall|c: CollectionId, o: ItemId| #[trigger]
                self.slots_of(c, o) == before.slots_of(c, o),
        ensures
            self.is_dense(),
    {
        assert forall|c: CollectionId, o: ItemId| dense(#[trigger] self.slots_of(c, o)) by {
            assert(dense(before.slots_of(c, o)));
        }
    }

    /// The token `owner` is registered with a collection and carries the tag
    /// "owner".
    pub open spec fn may_own(&self, owner: ItemId) -> bool {
        &&& self.registered().contains_key(owner)
        &&& self.registered()[owner].collec_id is Some
        &&& self.registered()[owner].carries("owner"@)
    }

    /// The failure, if any, of `set_ownership`.
    pub open spec fn set_ownership_error(
        &self,
        who: AccountId,
        owner: ItemId,
        owner_holder: Option<AccountId>,
        asset_holder: Option<AccountId>,
    ) -> Option<Error> {
        match holders_error(who, owner_holder, asset_holder) {
            Some(e) => Some(e),
            None => if self.may_own(owner) {
                None
            } else {
                Some(Error::WrongNft)
            },
        }
    }

    /// The failure, if any, of `unset_ownership`.
    pub open spec fn unset_ownership_error(
        &self,
        who: AccountId,
        collection: CollectionId,
        owner: ItemId,
        owner_holder: Option<AccountId>,
        asset_holder: Option<AccountId>,
    ) -> Option<Error> {
        match holders_error(who, owner_holder, asset_holder) {
            Some(e) => Some(e),
            None => if any_populated(self.slots_of(collection, owner)) {
                None
            } else {
                Some(Error::OwnershipNotFound)
            },
        }
    }

    /// The module with no token registered and no ownership recorded.
    pub fn new() -> (pallet: Self)
        ensures
            pallet.registered() == Map::<ItemId, NftInfo>::empty(),
            pallet.counter() == 0,
            forall|c: CollectionId, o: ItemId| #[trigger] pallet.slots_of(c, o) == Slots::empty(),
            pallet.is_dense(),
    {
        Pallet { nft_infos: HashMap::new(), last_nft_id: 0, owner_assets: DoubleMap::new() }
    }

    /// The identifier issued last; 0 before the first.
    pub fn last_nft_id(&self) -> (id: ItemId)
        ensures
            id == self.counter(),
    {
        self.last_nft_id
    }

    /// The identifier that the next registration issues.
    pub fn next_nft_id(&self) -> (id: ItemId)
        requires
            self.counter() < u128::MAX,
        ensures
            id == issued_after(self.counter()),
    {
        self.last_nft_id + 1
    }

    /// The record of the token `id`, if it is registered.
    pub fn nft_info(&self, id: ItemId) -> (info: Option<&NftInfo>)
        ensures
            match info {
                Some(found) => self.registered().contains_key(id) && self.registered()[id]
                    == *found,
                None => !self.registered().contains_key(id),
            },
    {
        self.nft_infos.get(&id)
    }

    /// The number of slots of the owner `(collection, owner)`.
    pub fn asset_count(&self, collection: CollectionId, owner: ItemId) -> (count: u128)
        ensures
            count == self.slots_of(collection, owner).len(),
    {
        match self.owner_assets.get(collection, owner) {
            Some(slots) => slots.len() as u128,
            None => 0,
        }
    }

    /// The asset in slot `index` of the owner `(collection, owner)`; nothing
    /// where the slot is empty or beyond the count.
    pub fn owner_asset(&self, collection: CollectionId, owner: ItemId, index: u128) -> (asset:
        Option<ItemId>)
        ensures
            asset == if index < self.slots_of(collection, owner).len() {
                self.slots_of(collection, owner)[index as int]
            } else {
                None
            },
    {
        match self.owner_assets.get(collection, owner) {
            Some(slots) => {
                if index < slots.len() as u128 {
                    slots[index as usize]
                } else {
                    None
                }
            },
            None => None,
        }
    }

    /// Records `info` as the record of the token `id`, replacing what was
    /// there.
    pub fn insert_nft_info(&mut self, id: ItemId, info: NftInfo)
        ensures
            final(self).registered() == old(self).registered().insert(id, info),
            final(self).counter() == old(self).counter(),
            forall|c: CollectionId, o: ItemId| #[trigger]
                final(self).slots_of(c, o) == old(self).slots_of(c, o),
            old(self).is_dense() ==> final(self).is_dense(),
    {
        self.nft_infos.insert(id, info);
        proof {
            if old(self).is_dense() {
                self.lemma_dense_unchanged(old(self));
            }
        }
    }

    /// Sets the identifier issued last.
    pub fn set_last_nft_id(&mut self, id: ItemId)
        ensures
            final(self).counter() == id,
            final(self).registered() == old(self).registered(),
            forall|c: CollectionId, o: ItemId| #[trigger]
                final(self).slots_of(c, o) == old(self).slots_of(c, o),
            old(self).is_dense() ==> final(self).is_dense(),
    {
        self.last_nft_id = id;
        proof {
            if old(self).is_dense() {
                self.lemma_dense_unchanged(old(self));
            }
        }
    }

    /// Records `slots` as the slots of the owner `(collection, owner)`,
    /// replacing what was there.
    pub fn insert_owner_assets(
        &mut self,
        collection: CollectionId,
        owner: ItemId,
        slots: Vec<Option<ItemId>>,
    )
        ensures
            final(self).slots_of(collection, owner) == slots@,
            final(self).differs_only_at(old(self), collection, owner),
            old(self).is_dense() && dense(slots@) ==> final(self).is_dense(),
    {
        self.owner_assets.insert(collection, owner, slots);
        proof {
            if old(self).is_dense() && dense(slots@) {
                self.lemma_dense_kept(old(self), collection, owner);
            }
        }
    }

    /// Registers a token of `collec_id` with the classification `tags` and
    /// issues its global identifier: one more than the identifier issued last.
    ///
    /// The caller reports from the host's registry whether the collection
    /// exists and whether the identifier to be issued, `next_nft_id()`, is
    /// already an item of it. On success the host mints that item to `who`.
    pub fn register_asset(
        &mut self,
        who: AccountId,
        collec_id: CollectionId,
        tags: Tags,
        collection_exists: bool,
        item_exists: bool,
    ) -> (outcome: Result<Event, Error>)
        requires
            old(self).counter() < u128::MAX,
        ensures
            match registration_error(collection_exists, item_exists, tags) {
                Some(e) => outcome == Err::<Event, Error>(e) && *final(self) == *old(self),
                None => {
                    let id = issued_after(old(self).counter()) as ItemId;
                    &&& outcome == Ok::<Event, Error>(
                        Event::NftRegistered { who, collection: collec_id, asset: id },
                    )
                    &&& final(self).counter() == id
                    &&& final(self).registered() == old(self).registered().insert(
                        id,
                        NftInfo {
                            collec_id: Some(collec_id),
                            item_id: Some(id),
                            owner_id: None,
                            tags,
                        },
                    )
                    &&& forall|c: CollectionId, o: ItemId| #[trigger]
                        final(self).slots_of(c, o) == old(self).slots_of(c, o)
                },
            },
            old(self).is_dense() ==> final(self).is_dense(),
    {
        if !collection_exists {
            return Err(Error::UnknownCollection);
        }
        let id: ItemId = self.last_nft_id + 1;
        if item_exists {
            return Err(Error::AlreadyExists);
        }
        if common::tag_count(&tags) > TYPE_LIMIT as usize {
            return Err(Error::ExceededTypeLimit);
        }
        self.nft_infos.insert(
            id,
            NftInfo { collec_id: Some(collec_id), item_id: Some(id), owner_id: None, tags },
        );
        self.last_nft_id = id;
        proof {
            if old(self).is_dense() {
                self.lemma_dense_unchanged(old(self));
            }
        }
        Ok(Event::NftRegistered { who, collection: collec_id, asset: id })
    }

    /// Whether the token `owner` is registered with a collection and carries
    /// the tag "owner".
    fn can_own(&self, owner: ItemId) -> (yes: bool)
        ensures
            yes == self.may_own(owner),
    {
        match self.nft_infos.get(&owner) {
            Some(info) => info.collec_id.is_some() && info.is_type("owner"),
            None => false,
        }
    }

    /// Appends `asset_id` to the assets of the owner `(collec_id, owner_id)`,
    /// in the slot after the last; an asset that the owner holds already is
    /// appended again.
    ///
    /// The caller reports from the host's registry who holds the owner item
    /// and who holds the asset item; `who` must hold both, and the owner token
    /// must carry the tag "owner".
    pub fn set_ownership(
        &mut self,
        who: AccountId,
        collec_id: CollectionId,
        owner_id: ItemId,
        asset_id: ItemId,
        owner_holder: Option<AccountId>,
        asset_holder: Option<AccountId>,
    ) -> (outcome: Result<Event, Error>)
        ensures
            match old(self).set_ownership_error(who, owner_id, owner_holder, asset_holder) {
                Some(e) => outcome == Err::<Event, Error>(e) && *final(self) == *old(self),
                None => {
                    &&& outcome == Ok::<Event, Error>(
                        Event::OwnershipAdded {
                            who,
                            owner: (collec_id, owner_id),
                            asset: asset_id,
                        },
                    )
                    &&& final(self).slots_of(collec_id, owner_id) == appended(
                        old(self).slots_of(collec_id, owner_id),
                        asset_id,
                    )
                    &&& final(self).differs_only_at(old(self), collec_id, owner_id)
                },
            },
            old(self).is_dense() ==> final(self).is_dense(),
    {
        if let Some(e) = check_holders(who, owner_holder, asset_holder) {
            return Err(e);
        }
        if !self.can_own(owner_id) {
            return Err(Error::WrongNft);
        }
        let mut slots = match self.owner_assets.remove(collec_id, owner_id) {
            Some(slots) => slots,
            None => Vec::new(),
        };
        slots.push(Some(asset_id));
        self.owner_assets.insert(collec_id, owner_id, slots);
        proof {
            if old(self).is_dense() {
                assert(dense(old(self).slots_of(collec_id, owner_id)));
                self.lemma_dense_kept(old(self), collec_id, owner_id);
            }
        }
        Ok(Event::OwnershipAdded { who, owner: (collec_id, owner_id), asset: asset_id })
    }

    /// Removes one asset from the assets of the owner `(collec_id, owner_id)`:
    /// the first populated slot is vacated, whichever asset it holds; the
    /// last slot is relocated into it and the count shrinks by one. The asset
    /// `asset_id` is named in the event and is not searched for.
    ///
    /// The caller reports from the host's registry who holds the owner item
    /// and who holds the asset item; `who` must hold both.
    pub fn unset_ownership(
        &mut self,
        who: AccountId,
        collec_id: CollectionId,
        owner_id: ItemId,
        asset_id: ItemId,
        owner_holder: Option<AccountId>,
        asset_holder: Option<AccountId>,
    ) -> (outcome: Result<Event, Error>)
        ensures
            match old(self).unset_ownership_error(
                who,
                collec_id,
                owner_id,
                owner_holder,
                asset_holder,
            ) {
                Some(e) => outcome == Err::<Event, Error>(e) && *final(self) == *old(self),
                None => {
                    &&& outcome == Ok::<Event, Error>(
                        Event::OwnershipRemoved {
                            who,
                            owner: (collec_id, owner_id),
                            asset: asset_id,
                        },
                    )
                    &&& final(self).slots_of(collec_id, owner_id) == removed(
                        old(self).slots_of(collec_id, owner_id),
                    )
                    &&& final(self).differs_only_at(old(self), collec_id, owner_id)
                },
            },
            old(self).is_dense() ==> final(self).is_dense(),
    {
        if let Some(e) = check_holders(who, owner_holder, asset_holder) {
            return Err(e);
        }
        let found = match self.owner_assets.get(collec_id, owner_id) {
            Some(slots) => find_populated(slots),
            None => None,
        };
        let index: usize = match found {
            Some(index) => index,
            None => {
                return Err(Error::OwnershipNotFound);
            },
        };
        let mut slots = match self.owner_assets.remove(collec_id, owner_id) {
            Some(slots) => slots,
            None => Vec::new(),
        };
        let last_index: usize = slots.len() - 1;
        if index < last_index {
            let last_child = slots[last_index];
            slots.set(index, last_child);
        }
        slots.pop();
        self.owner_assets.insert(collec_id, owner_id, slots);
        proof {
            if old(self).is_dense() {
                law_vacate_keeps_dense(old(self).slots_of(collec_id, owner_id), index as int);
                self.lemma_dense_kept(old(self), collec_id, owner_id);
            }
        }
        Ok(Event::OwnershipRemoved { who, owner: (collec_id, owner_id), asset: asset_id })
    }

    /// Retrieves the assets in the populated slots from `start` up to, and
    /// not including, `start + num_assets` clamped to the owner's count. A
    /// start at or beyond the count retrieves nothing. No record changes.
    pub fn get_owned_assets(
        &self,
        _who: AccountId,
        collec_id: CollectionId,
        owner_id: ItemId,
        start: u128,
        num_assets: u32,
    ) -> (outcome: Result<Event, Error>)
        ensures
            num_assets > MAX_ASSETS_PER_TRANSACTION ==> outcome == Err::<Event, Error>(
                Error::ExceededMaxAssetsPerQuery,
            ),
            num_assets <= MAX_ASSETS_PER_TRANSACTION ==> (outcome matches Ok(
                Event::AssetsRetrieved { owner, assets },
            ) && owner == (collec_id, owner_id) && page_assets(assets) == page(
                self.slots_of(collec_id, owner_id),
                start as nat,
                num_assets as nat,
            )),
    {
        if num_assets > MAX_ASSETS_PER_TRANSACTION {
            return Err(Error::ExceededMaxAssetsPerQuery);
        }
        let mut owned_nfts = empty_page();
        match self.owner_assets.get(collec_id, owner_id) {
            Some(slots) => {
                let num_assets_owned: u128 = slots.len() as u128;
                let reach: u128 = start.saturating_add(num_assets as u128);
                let end: u128 = if reach < num_assets_owned {
                    reach
                } else {
                    num_assets_owned
                };
                if start < end {
                    let first: usize = start as usize;
                    let stop: usize = end as usize;
                    let ghost window = slots@.subrange(first as int, stop as int);
                    let mut i: usize = first;
                    while i < stop
                        invariant
                            first <= i <= stop <= slots.len(),
                            stop - first <= MAX_ASSETS_PER_TRANSACTION,
                            window == slots@.subrange(first as int, stop as int),
                            page_assets(owned_nfts) == populated(
                                window.subrange(0, i - first),
                            ),
                        decreases stop - i,
                    {
                        let ghost seen = window.subrange(0, i - first);
                        let ghost next = window.subrange(0, i - first + 1);
                        proof {
                            assert(next.drop_last() == seen);
                            lemma_populated_len(seen);
                        }
                        if let Some(asset) = slots[i] {
                            if page_try_push(&mut owned_nfts, asset).is_err() {
                                return Err(Error::ExceededMaxAssetsPerQuery);
                            }
                        }
                        i += 1;
                    }
                    assert(window.subrange(0, stop - first) == window);
                }
            },
            None => {},
        }
        Ok(Event::AssetsRetrieved { owner: (collec_id, owner_id), assets: owned_nfts })
    }
}

/// The check that `who` holds both the owner item and the asset item.
fn check_holders(
    who: AccountId,
    owner_holder: Option<AccountId>,
    asset_holder: Option<AccountId>,
) -> (failure: Option<Error>)
    ensures
        failure == holders_error(who, owner_holder, asset_holder),
{
    match check_holder(who, owner_holder) {
        Some(e) => Some(e),
        None => check_holder(who, asset_holder),
    }
}

/// The check that `who` holds an item of which the registry reported
/// `holder`.
fn check_holder(who: AccountId, holder: Option<AccountId>) -> (failure: Option<Error>)
    ensures
        failure == holder_error(who, holder),
{
    match holder {
        None => Some(Error::TokenNotFound),
        Some(account) => if account == who {
            None
        } else {
            Some(Error::NotOwner)
        },
    }
}

/// The index of the first populated slot, if any slot is populated.
fn find_populated(slots: &Vec<Option<ItemId>>) -> (found: Option<usize>)
    ensures
        match found {
            Some(index) => index == first_populated(slots@) && index < slots.len(),
            None => first_populated(slots@) == slots.len(),
        },
{
    let mut index: usize = 0;
    while index < slots.len()
        invariant
            index <= slots.len(),
            forall|j: int| 0 <= j < index ==> (#[trigger] slots@[j]) is None,
        decreases slots.len() - index,
    {
        if slots[index].is_some() {
            proof {
                lemma_first_populated(slots@, index as int);
            }
            return Some(index);
        }
        index += 1;
    }
    proof {
        lemma_first_populated(slots@, index as int);
    }
    None
}

} // verus!
