//! The record kept for each registered token, and its classification tags.

use crate::primitives::{CollectionId, ItemId};
use parity_scale_codec::MaxEncodedLen;
use sp_runtime::traits::ConstU32;
use sp_runtime::BoundedVec;
use vstd::prelude::*;
use vstd::string::StringSliceAdditionalSpecFns;
use vstd::utf8::{decode_utf8, encode_utf8, valid_utf8};

verus! {

/// The most bytes a classification tag may have.
pub const STRING_LIMIT: u32 = 128;

/// The most classification tags a token may carry.
pub const TYPE_LIMIT: u32 = 16;

/// A classification tag: a byte string of at most `STRING_LIMIT` bytes.
pub type Tag = BoundedVec<u8, ConstU32<STRING_LIMIT>>;

/// The classification tags of one token: at most `TYPE_LIMIT` of them.
pub type Tags = BoundedVec<Tag, ConstU32<TYPE_LIMIT>>;

/// The tags that `tags` holds, in order, each as its bytes.
pub uninterp spec fn tag_bytes(tags: Tags) -> Seq<Seq<u8>>;

/// `Vec::len` on the vector that `BoundedVec::deref` hands out: the number of
/// tags held.
#[verifier::external_body]
pub(crate) fn tag_count(tags: &Tags) -> (n: usize)
    ensures
        n == tag_bytes(*tags).len(),
{
    tags.len()
}

/// `BoundedVec::index` followed by `BoundedVec::as_ref` on the tag found: the
/// bytes of the tag at `index`. Indexing panics beyond the end, which the
/// precondition rules out.
#[verifier::external_body]
fn tag_at(tags: &Tags, index: usize) -> (tag: &Vec<u8>)
    requires
        index < tag_bytes(*tags).len(),
    ensures
        tag@ == tag_bytes(*tags)[index as int],
{
    tags[index].as_ref()
}

/// `BoundedVec::default`: a bounded vector that holds nothing.
#[verifier::external_body]
fn no_tags() -> (tags: Tags)
    ensures
        tag_bytes(tags) == Seq::<Seq<u8>>::empty(),
{
    BoundedVec::default()
}

/// `MaxEncodedLen::max_encoded_len` of `u32`, which is the size of a `u32`.
#[verifier::external_body]
fn collection_id_max_encoded_len() -> (len: usize)
    ensures
        len == 4,
{
    CollectionId::max_encoded_len()
}

/// `MaxEncodedLen::max_encoded_len` of `u128`, which is the size of a `u128`.
#[verifier::external_body]
fn item_id_max_encoded_len() -> (len: usize)
    ensures
        len == 16,
{
    ItemId::max_encoded_len()
}

/// The stored bytes are well-formed UTF-8 and decode to the text `tag`.
pub open spec fn reads_as(stored: Seq<u8>, tag: Seq<char>) -> bool {
    valid_utf8(stored) && decode_utf8(stored) == tag
}

/// Stored bytes read as a text exactly when they are the text's encoding.
pub proof fn lemma_reads_as_iff_encoding(stored: Seq<u8>, tag: Seq<char>)
    ensures
        reads_as(stored, tag) <==> stored == encode_utf8(tag),
{
    if reads_as(stored, tag) {
        vstd::utf8::decode_utf8_encode_utf8(stored);
    }
    vstd::utf8::encode_utf8_valid_utf8(tag);
    vstd::utf8::encode_utf8_decode_utf8(tag);
}

/// Whether two byte strings are the same.
fn same_bytes(left: &Vec<u8>, right: &[u8]) -> (same: bool)
    ensures
        same == (left@ == right@),
{
    if left.len() != right.len() {
        return false;
    }
    let mut i: usize = 0;
    while i < left.len()
        invariant
            left.len() == right.len(),
            i <= left.len(),
            forall|j: int| 0 <= j < i ==> left@[j] == right@[j],
        decreases left.len() - i,
    {
        if left[i] != right[i] {
            return false;
        }
        i += 1;
    }
    assert(left@ =~= right@);
    true
}

/// What is known of one globally identified token.
#[derive(Debug, PartialEq, Eq)]
pub struct NftInfo {
    /// The collection the token was registered in.
    pub collec_id: Option<CollectionId>,
    /// The token's item identifier within that collection.
    pub item_id: Option<ItemId>,
    /// The token that owns this one, where one was recorded.
    pub owner_id: Option<ItemId>,
    /// The token's classification tags.
    pub tags: Tags,
}

impl NftInfo {
    /// Some stored tag reads as the text `tag`.
    pub open spec fn carries(&self, tag: Seq<char>) -> bool {
        exists|i: int|
            0 <= i < tag_bytes(self.tags).len() && reads_as(#[trigger] tag_bytes(self.tags)[i], tag)
    }

    /// The record has no collection, no item, no owner and no tags.
    pub open spec fn is_blank(&self) -> bool {
        &&& self.collec_id is None
        &&& self.item_id is None
        &&& self.owner_id is None
        &&& tag_bytes(self.tags).len() == 0
    }

    /// The bound that `max_encoded_len` reports.
    pub open spec fn encoded_len_bound() -> nat {
        (4 + 16 + 4 + TYPE_LIMIT * (4 + STRING_LIMIT)) as nat
    }

    /// Whether the token carries the classification tag `tag`: whether some
    /// stored tag, read as UTF-8 text, is exactly `tag`. A stored tag that is
    /// not well-formed UTF-8 matches nothing.
    pub fn is_type(&self, tag: &str) -> (carried: bool)
        ensures
            carried == self.carries(tag@),
    {
        let wanted = tag.as_bytes();
        let n = tag_count(&self.tags);
        let mut i: usize = 0;
        while i < n
            invariant
                n == tag_bytes(self.tags).len(),
                i <= n,
                wanted@ == encode_utf8(tag@),
                forall|j: int| 0 <= j < i ==> !reads_as(#[trigger] tag_bytes(self.tags)[j], tag@),
            decreases n - i,
        {
            let stored = tag_at(&self.tags, i);
            proof {
                lemma_reads_as_iff_encoding(stored@, tag@);
            }
            if same_bytes(stored, wanted) {
                return true;
            }
            i += 1;
        }
        false
    }

    /// An upper bound, in bytes, on the encoded size of a record: the
    /// collection and item identifiers at their full width, and a length
    /// prefix of four bytes for the tag list and for each of `TYPE_LIMIT` tags
    /// of `STRING_LIMIT` bytes.
    pub fn max_encoded_len() -> (len: usize)
        ensures
            len == Self::encoded_len_bound(),
    {
        let collection_len = collection_id_max_encoded_len();
        let owner_len = item_id_max_encoded_len();
        let tag_len = 4 + TYPE_LIMIT as usize * (4 + STRING_LIMIT as usize);
        collection_len + owner_len + tag_len
    }
}

impl Default for NftInfo {
    /// The record of a token that was never registered.
    fn default() -> (info: Self)
        ensures
            info.is_blank(),
    {
        NftInfo { collec_id: None, item_id: None, owner_id: None, tags: no_tags() }
    }
}

} // verus!
