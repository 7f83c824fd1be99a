//! The dense array of assets that one owner holds.
//!
//! An owner's assets are kept in slots `0 .. count`, each slot holding an asset
//! or nothing. Appending writes slot `count`; removing relocates the last slot
//! into the vacated one and drops the last slot. The functions here say, over
//! sequences of slots, what each operation of the module does to one owner's
//! array, and the lemmas state what follows: the array stays without gaps.

use crate::primitives::ItemId;
use vstd::prelude::*;

verus! {

/// One owner's slots, by index.
pub type Slots = Seq<Option<ItemId>>;

/// Every slot holds an asset.
pub open spec fn dense(slots: Slots) -> bool {
    forall|i: int| 0 <= i < slots.len() ==> (#[trigger] slots[i]) is Some
}

/// The assets of the populated slots, in index order.
pub open spec fn populated(slots: Slots) -> Seq<ItemId>
    decreases slots.len(),
{
    if slots.len() == 0 {
        Seq::empty()
    } else {
        match slots.last() {
            Some(asset) => populated(slots.drop_last()).push(asset),
            None => populated(slots.drop_last()),
        }
    }
}

/// The index of the first populated slot, or the number of slots where none
/// is populated.
pub open spec fn first_populated(slots: Slots) -> int
    decreases slots.len(),
{
    if slots.len() == 0 || slots[0] is Some {
        0
    } else {
        1 + first_populated(slots.drop_first())
    }
}

/// Some slot is populated.
pub open spec fn any_populated(slots: Slots) -> bool {
    first_populated(slots) < slots.len()
}

/// The slots after `asset` is appended.
pub open spec fn appended(slots: Slots, asset: ItemId) -> Slots {
    slots.push(Some(asset))
}

/// The slots after `assets` are appended one by one.
pub open spec fn appended_all(slots: Slots, assets: Seq<ItemId>) -> Slots
    decreases assets.len(),
{
    if assets.len() == 0 {
        slots
    } else {
        appended(appended_all(slots, assets.drop_last()), assets.last())
    }
}

/// The slots after the slot at `index` is vacated: the last slot moves into it
/// unless it is the last itself, and the last slot is dropped.
pub open spec fn vacated(slots: Slots, index: int) -> Slots
    recommends
        0 <= index < slots.len(),
{
    let last = slots.len() - 1;
    if index < last {
        slots.update(index, slots[last]).drop_last()
    } else {
        slots.drop_last()
    }
}

/// The index one past the last slot of the page that starts at `start` and
/// asks for `num` slots: `start + num`, clamped to the number of slots.
pub open spec fn page_end(count: nat, start: nat, num: nat) -> nat {
    if start + num < count {
        start + num
    } else {
        count
    }
}

/// The assets of the page that starts at `start` and asks for `num` slots.
pub open spec fn page(slots: Slots, start: nat, num: nat) -> Seq<ItemId> {
    let end = page_end(slots.len(), start, num);
    if start < end {
        populated(slots.subrange(start as int, end as int))
    } else {
        Seq::empty()
    }
}

/// `populated` never yields more assets than there are slots.
pub proof fn lemma_populated_len(slots: Slots)
    ensures
        populated(slots).len() <= slots.len(),
    decreases slots.len(),
{
    if slots.len() > 0 {
        lemma_populated_len(slots.drop_last());
    }
}

/// Of an array without gaps, `populated` yields the asset of each slot.
pub proof fn lemma_populated_of_dense(slots: Slots)
    requires
        dense(slots),
    ensures
        populated(slots).len() == slots.len(),
        forall|i: int| 0 <= i < slots.len() ==> slots[i] == Some(#[trigger] populated(slots)[i]),
    decreases slots.len(),
{
    if slots.len() > 0 {
        let front = slots.drop_last();
        assert(dense(front));
        lemma_populated_of_dense(front);
    }
}

/// Appending to an array without gaps leaves it without gaps, one longer,
/// with the asset in the new last slot.
pub proof fn law_append_keeps_dense(slots: Slots, asset: ItemId)
    requires
        dense(slots),
    ensures
        dense(appended(slots, asset)),
        appended(slots, asset).len() == slots.len() + 1,
        appended(slots, asset)[slots.len() as int] == Some(asset),
        forall|i: int| 0 <= i < slots.len() ==> (#[trigger] appended(slots, asset)[i]) == slots[i],
{
}

/// Appending `n` assets to an owner with no assets yields a count of `n`,
/// with the `i`-th appended asset in slot `i` and no gaps.
pub proof fn law_appends_fill_slots_in_order(assets: Seq<ItemId>)
    ensures
        appended_all(Seq::empty(), assets).len() == assets.len(),
        dense(appended_all(Seq::empty(), assets)),
        forall|i: int|
            0 <= i < assets.len() ==> (#[trigger] appended_all(Seq::empty(), assets)[i]) == Some(
                assets[i],
            ),
        populated(appended_all(Seq::empty(), assets)) == assets,
    decreases assets.len(),
{
    if assets.len() > 0 {
        let front = assets.drop_last();
        law_appends_fill_slots_in_order(front);
        assert(appended_all(Seq::empty(), assets).drop_last() == appended_all(
            Seq::empty(),
            front,
        ));
    }
}

/// `first_populated` is the least index of a populated slot: where the slots
/// before `index` are empty and the slot at `index` is populated or `index` is
/// the number of slots, it is `index`.
pub proof fn lemma_first_populated(slots: Slots, index: int)
    requires
        0 <= index <= slots.len(),
        forall|j: int| 0 <= j < index ==> (#[trigger] slots[j]) is None,
        index < slots.len() ==> slots[index] is Some,
    ensures
        first_populated(slots) == index,
    decreases slots.len(),
{
    if index > 0 {
        let rest = slots.drop_first();
        assert forall|j: int| 0 <= j < index - 1 implies (#[trigger] rest[j]) is None by {
            assert(rest[j] == slots[j + 1]);
        }
        lemma_first_populated(rest, index - 1);
    }
}

/// In an array without gaps that holds an asset, the first populated slot is
/// slot 0.
pub proof fn lemma_first_populated_of_dense(slots: Slots)
    requires
        dense(slots),
        slots.len() > 0,
    ensures
        first_populated(slots) == 0,
{
}

/// The slots after one removal: the first populated slot is vacated.
pub open spec fn removed(slots: Slots) -> Slots
    recommends
        any_populated(slots),
{
    vacated(slots, first_populated(slots))
}

/// Removing from an array of `n` assets without gaps vacates slot 0 and
/// leaves `n - 1` assets without gaps: the asset that was last now stands in
/// slot 0, unless it was the only one, and every other slot is as before.
pub proof fn law_remove_keeps_dense(slots: Slots)
    requires
        dense(slots),
        slots.len() > 0,
    ensures
        any_populated(slots),
        removed(slots).len() == slots.len() - 1,
        dense(removed(slots)),
        slots.len() > 1 ==> removed(slots)[0] == slots.last(),
        forall|i: int| 1 <= i < slots.len() - 1 ==> (#[trigger] removed(slots)[i]) == slots[i],
{
    lemma_first_populated_of_dense(slots);
    law_vacate_keeps_dense(slots, 0);
}

/// Vacating a slot of an array of `n` assets without gaps leaves `n - 1`
/// assets without gaps: the asset that was last now stands in the vacated
/// slot, unless the vacated slot was the last, and every other slot is as
/// before.
pub proof fn law_vacate_keeps_dense(slots: Slots, index: int)
    requires
        dense(slots),
        0 <= index < slots.len(),
    ensures
        vacated(slots, index).len() == slots.len() - 1,
        dense(vacated(slots, index)),
        index < slots.len() - 1 ==> vacated(slots, index)[index] == slots.last(),
        forall|i: int|
            0 <= i < slots.len() - 1 && i != index ==> (#[trigger] vacated(slots, index)[i])
                == slots[i],
{
    assert(slots.last() is Some);
}

/// Over an array without gaps, a page holds the assets of the slots from
/// `start` up to the clamped end, in slot order.
pub proof fn law_page_of_dense(slots: Slots, start: nat, num: nat)
    requires
        dense(slots),
    ensures
        page(slots, start, num).len() == if start < page_end(slots.len(), start, num) {
            page_end(slots.len(), start, num) - start
        } else {
            0
        },
        forall|i: int|
            0 <= i < page(slots, start, num).len() ==> slots[start + i] == Some(
                #[trigger] page(slots, start, num)[i],
            ),
{
    let end = page_end(slots.len(), start, num);
    if start < end {
        let window = slots.subrange(start as int, end as int);
        assert(dense(window));
        lemma_populated_of_dense(window);
    }
}

/// A page that starts at or beyond the number of slots is empty.
pub proof fn law_page_beyond_count_is_empty(slots: Slots, start: nat, num: nat)
    requires
        start >= slots.len(),
    ensures
        page(slots, start, num) == Seq::<ItemId>::empty(),
{
}

/// A page never holds more assets than were asked for.
pub proof fn law_page_within_request(slots: Slots, start: nat, num: nat)
    ensures
        page(slots, start, num).len() <= num,
{
    let end = page_end(slots.len(), start, num);
    if start < end {
        lemma_populated_len(slots.subrange(start as int, end as int));
    }
}

} // verus!
