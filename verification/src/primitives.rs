//! The scalar types shared by the modules.

use vstd::prelude::*;

verus! {

/// Identifies a signer.
pub type AccountId = u64;

/// A reading of the host's clock.
pub type Moment = u64;

/// The height of a block.
pub type BlockNumber = u64;

/// A 256-bit content digest.
pub type ContentHash = [u8; 32];

/// Identifies a collection in the host's token registry.
pub type CollectionId = u32;

/// Identifies a token.
pub type ItemId = u128;

} // verus!
