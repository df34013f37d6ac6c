//! Regrouping a sequence of enum values into one sequence per variant.
//!
//! The crate holds the marker trait [`Separable`] and the expansion of its
//! derive: which declarations are accepted, which diagnostic each rejected
//! one gets, and which tokens are generated for an accepted one.

pub mod derive;
mod emit;
pub mod error;
pub mod input;
pub mod names;
pub mod template;
pub mod tokens;

use vstd::prelude::*;

verus! {

/// A type whose values can be collected into one sequence per variant.
///
/// `Target` is the tuple of those sequences, in the order of the variants.
pub trait Separable: Sized {
    type Target;
}

} // verus!
