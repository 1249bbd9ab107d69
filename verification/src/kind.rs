//! Kinds and the identifiers that tell them apart.

use vstd::prelude::*;

verus! {

/// What a kind is called while the program runs.
///
/// Two kinds are the same kind exactly when their identifiers are equal.
/// Nothing else about a kind is ever looked at.
#[derive(Clone, Copy, Debug, PartialEq, Eq, Structural, Hash)]
pub struct KindId(pub u64);

/// A type that stands for one member of a set.
pub trait Kind {
    /// The identifier that this type answers to.
    spec fn id() -> KindId;

    /// Hands out the identifier of this type.
    fn tag() -> (tag: KindId)
        ensures
            tag == Self::id(),
    ;
}

/// The kind whose identifier is the number `N`.
pub struct Numbered<const N: u64>;

impl<const N: u64> Kind for Numbered<N> {
    open spec fn id() -> KindId {
        KindId(N)
    }

    fn tag() -> (tag: KindId) {
        KindId(N)
    }
}

} // verus!
