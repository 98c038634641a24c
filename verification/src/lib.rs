//! Keys for variant types: a companion unit-only enumeration with one value
//! per variant, a total mapping from values to keys, and an ordered constant
//! list of every key.
//!
//! The `KeyableEnum` and `EnumKey` traits state the contract that generated
//! companion code satisfies; the remaining modules build that companion code
//! from a plain description of a variant type's shape.

use vstd::prelude::*;

pub mod generate;
pub mod laws;
pub mod mapping;
pub mod render;
pub mod shape;

verus! {

/// A variant type that has a key value associated with each of its variants.
///
/// Implementations of this trait are usually generated.
pub trait KeyableEnum {
    /// This type's key type.
    type Key: EnumKey;

    /// Gets the key for a given value, determined by its variant tag alone.
    fn get_enum_key(&self) -> Self::Key;
}

/// A key type: a unit-only enumeration standing for the variants of some
/// variant type.
pub trait EnumKey: core::fmt::Debug + Copy + Clone + PartialEq + Eq + PartialOrd + Ord + core::hash::Hash + 'static {
    /// The variant type this key type is associated with.
    type Enum;

    /// An ordered list of every key value, in declaration order.
    const VALUES: &'static [Self];
}

} // verus!
