//! The three relations as bounds on list types.
//!
//! Each relation is a trait that the compiler resolves, by the impls of this
//! file: one for the kind at the head of a list, one for the kind further
//! in. Every impl has to prove what the bound means for the kinds of the
//! list, so code that is generic over a bound may rely on it: it calls the
//! proof function of the trait and has the fact.

use vstd::prelude::*;
use crate::kind::Kind;
use crate::laws::derivation_is_sound;
use crate::list::{Cons, End, Here, KindList, Path, There, Witness};
use crate::model::{derives, includes, witnesses};

verus! {

/// The list holds `T`, at the occurrence that `Index` points at.
///
/// Where the list holds `T` once, the compiler finds `Index` by itself.
/// Where it holds `T` more than once, several witnesses fit and the compiler
/// asks for one to be named; where it does not hold `T`, none fits.
pub trait Contains<T: Kind, Index: Witness>: KindList {
    /// The witness points at an occurrence of the kind.
    proof fn witnessed()
        ensures
            witnesses(Self::kinds(), T::id(), Index::depth()),
    ;
}

/// The kind is the head of the list.
impl<T: Kind, Tail: KindList> Contains<T, Here> for Cons<T, Tail> {
    proof fn witnessed() {
    }
}

/// The tail of the list holds the kind.
impl<T, Index, Head, Tail> Contains<T, There<Index>> for Cons<Head, Tail> where
    T: Kind,
    Index: Witness,
    Head: Kind,
    Tail: Contains<T, Index>,
{
    proof fn witnessed() {
        Tail::witnessed();
    }
}

/// The list holds `Target` at the occurrence that `Index` points at, and
/// `Remainder` is the list without that occurrence.
pub trait Narrow<Target: Kind, Index: Witness>: KindList {
    /// The other kinds of the list, in their order.
    type Remainder: KindList;

    /// The witness points at an occurrence of the kind, and the remainder
    /// holds what the list holds but for that occurrence.
    proof fn narrowed()
        ensures
            witnesses(Self::kinds(), Target::id(), Index::depth()),
            <Self::Remainder as KindList>::kinds() == Self::kinds().remove(Index::depth() as int),
    ;
}

/// The kind is the head of the list: the remainder is the tail.
impl<Target: Kind, Tail: KindList> Narrow<Target, Here> for Cons<Target, Tail> {
    type Remainder = Tail;

    proof fn narrowed() {
    }
}

/// The kind is taken out of the tail: the remainder keeps the head.
impl<Head, Tail, Target, Index> Narrow<Target, There<Index>> for Cons<Head, Tail> where
    Head: Kind,
    Target: Kind,
    Index: Witness,
    Tail: Narrow<Target, Index>,
{
    type Remainder = Cons<Head, <Tail as Narrow<Target, Index>>::Remainder>;

    proof fn narrowed() {
        Tail::narrowed();
    }
}

/// The list holds every kind of `Other` at least as often as `Other` does;
/// `Index` holds one witness for each kind of `Other`.
pub trait SupersetOf<Other: KindList, Index: Path>: KindList {
    /// The path consumes the other list from this one, and so this list
    /// includes the other.
    proof fn included()
        ensures
            derives(Self::kinds(), Other::kinds(), Index::depths()),
            includes(Self::kinds(), Other::kinds()),
    ;
}

/// Every list includes the empty list.
impl<T: KindList> SupersetOf<End, End> for T {
    proof fn included() {
        derivation_is_sound(Self::kinds(), End::kinds(), <End as Path>::depths());
    }
}

/// The head of the other list is taken out of this list, and what is left
/// includes the tail of the other list.
impl<SubHead, SubTail, SuperHead, SuperTail, HeadIndex, TailIndex> SupersetOf<
    Cons<SubHead, SubTail>,
    Cons<HeadIndex, TailIndex>,
> for Cons<SuperHead, SuperTail> where
    SubHead: Kind,
    SubTail: KindList,
    SuperHead: Kind,
    SuperTail: KindList,
    HeadIndex: Witness,
    TailIndex: Path,
    Cons<SuperHead, SuperTail>: Narrow<SubHead, HeadIndex>,
    <Cons<SuperHead, SuperTail> as Narrow<SubHead, HeadIndex>>::Remainder: SupersetOf<
        SubTail,
        TailIndex,
    >,
{
    proof fn included() {
        let sup = Self::kinds();
        let sub = <Cons<SubHead, SubTail> as KindList>::kinds();
        let path = <Cons<HeadIndex, TailIndex> as Path>::depths();
        <Self as Narrow<SubHead, HeadIndex>>::narrowed();
        <<Self as Narrow<SubHead, HeadIndex>>::Remainder as SupersetOf<
            SubTail,
            TailIndex,
        >>::included();
        assert(sub.drop_first() =~= SubTail::kinds());
        assert(path.drop_first() =~= TailIndex::depths());
        assert(derives(sup, sub, path));
        derivation_is_sound(sup, sub, path);
    }
}

} // verus!
