//! The bounded vector of `sp_runtime`, as the verifier sees it.
//!
//! A `BoundedVec<T, S>` is a vector whose length never exceeds `S::get()`.
//! Its contents are hidden from the verifier; each module that keeps one gives
//! the contents of its own instance a name and reaches them through wrappers
//! whose contracts restate the methods of the bounded vector.

use sp_runtime::traits::ConstU32;
use sp_runtime::BoundedVec;
use vstd::prelude::*;

verus! {

/// `bounded_collections::BoundedVec`, opaque to the verifier.
#[verifier::external_type_specification]
#[verifier::external_body]
#[verifier::reject_recursive_types(T)]
#[verifier::reject_recursive_types(S)]
pub struct ExBoundedVec<T, S>(BoundedVec<T, S>);

/// `bounded_collections::ConstU32`, the type-level constant that serves as a
/// bound: `ConstU32::<N>::get()` is `N`.
#[verifier::external_type_specification]
#[verifier::external_body]
pub struct ExConstU32<const T: u32>(ConstU32<T>);

} // verus!
