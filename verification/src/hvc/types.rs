//! Proposals and the decisions taken on them.

use crate::primitives::{AccountId, BlockNumber, ContentHash, Moment};
use vstd::bytes::{spec_u64_to_le_bytes, u64_to_le_bytes};
use vstd::prelude::*;

verus! {

/// A proposal made by a consul or a patrician. Its first field is the content
/// hash that identifies it.
#[derive(Clone, Copy, Debug, PartialEq, Eq)]
pub enum Proposal {
    /// Make the candidate a consul; lapses at the given moment.
    ConsulNomination(ContentHash, AccountId, Moment),
    /// Make the candidate a patrician; lapses at the given moment.
    PatricianNomination(ContentHash, AccountId, Moment),
    /// Validate the block of the given number.
    NewBlock(ContentHash, BlockNumber),
}

/// What a consul decided on a proposal.
#[derive(Clone, Copy, Debug, PartialEq, Eq, Structural)]
pub enum Decision {
    Approved,
    Rejected,
    NeedsInfo,
}

/// The placeholder that stands for the content hash while it is computed.
pub open spec fn zero_hash() -> ContentHash {
    vstd::array::spec_array_fill_for_copy_type::<u8, 32>(0u8)
}

impl Proposal {
    /// The content hash of the proposal.
    pub open spec fn hash(self) -> ContentHash {
        match self {
            Proposal::ConsulNomination(hash, _, _) => hash,
            Proposal::PatricianNomination(hash, _, _) => hash,
            Proposal::NewBlock(hash, _) => hash,
        }
    }

    /// The position of the proposal's variant, which leads its encoding.
    pub open spec fn variant_index(self) -> u8 {
        match self {
            Proposal::ConsulNomination(_, _, _) => 0,
            Proposal::PatricianNomination(_, _, _) => 1,
            Proposal::NewBlock(_, _) => 2,
        }
    }

    /// The encoding of the fields that follow the content hash: each number
    /// as its eight bytes, least significant first.
    pub open spec fn payload(self) -> Seq<u8> {
        match self {
            Proposal::ConsulNomination(_, who, expiry) => spec_u64_to_le_bytes(who)
                + spec_u64_to_le_bytes(expiry),
            Proposal::PatricianNomination(_, who, expiry) => spec_u64_to_le_bytes(who)
                + spec_u64_to_le_bytes(expiry),
            Proposal::NewBlock(_, number) => spec_u64_to_le_bytes(number),
        }
    }

    /// The encoding of the proposal: the variant's position, the 32 bytes of
    /// the content hash, and the payload.
    pub open spec fn encoding(self) -> Seq<u8> {
        seq![self.variant_index()] + self.hash()@ + self.payload()
    }

    /// The encoding of the proposal.
    pub fn encode(&self) -> (bytes: Vec<u8>)
        ensures
            bytes@ == self.encoding(),
    {
        let mut bytes: Vec<u8> = Vec::new();
        match self {
            Proposal::ConsulNomination(hash, who, expiry) => {
                bytes.push(0u8);
                bytes.extend_from_slice(hash.as_slice());
                let mut who_bytes = u64_to_le_bytes(*who);
                bytes.append(&mut who_bytes);
                let mut expiry_bytes = u64_to_le_bytes(*expiry);
                bytes.append(&mut expiry_bytes);
            },
            Proposal::PatricianNomination(hash, who, expiry) => {
                bytes.push(1u8);
                bytes.extend_from_slice(hash.as_slice());
                let mut who_bytes = u64_to_le_bytes(*who);
                bytes.append(&mut who_bytes);
                let mut expiry_bytes = u64_to_le_bytes(*expiry);
                bytes.append(&mut expiry_bytes);
            },
            Proposal::NewBlock(hash, number) => {
                bytes.push(2u8);
                bytes.extend_from_slice(hash.as_slice());
                let mut number_bytes = u64_to_le_bytes(*number);
                bytes.append(&mut number_bytes);
            },
        }
        bytes
    }
}

/// The bytes that a proposal's content hash is computed over: the encoding of
/// the proposer followed by the encoding of the proposal, in which the
/// placeholder stands for the hash.
pub open spec fn preimage(proposer: AccountId, draft: Proposal) -> Seq<u8> {
    spec_u64_to_le_bytes(proposer) + draft.encoding()
}

/// The bytes that the content hash of `draft`, made by `proposer`, is
/// computed over.
pub fn encode_preimage(proposer: AccountId, draft: &Proposal) -> (bytes: Vec<u8>)
    ensures
        bytes@ == preimage(proposer, *draft),
{
    let mut bytes = u64_to_le_bytes(proposer);
    let mut rest = draft.encode();
    bytes.append(&mut rest);
    bytes
}

} // verus!
