//! The two-kind classification of the early designs of this module.

use vstd::prelude::*;

verus! {

/// The kind of a token where kinds are a closed set.
#[derive(Clone, Copy, Debug, PartialEq, Eq, Structural)]
pub enum NftType {
    Entity,
    Character,
}

impl Default for NftType {
    /// A token is an entity unless said otherwise.
    fn default() -> (kind: Self)
        ensures
            kind == NftType::Entity,
    {
        NftType::Entity
    }
}

} // verus!
