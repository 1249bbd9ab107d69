//! Lists of kinds and witnesses, written as types.
//!
//! A list is either [`End`] or a [`Cons`] of a head kind and a tail list. A
//! witness is either [`Here`], for the head, or [`There`] around the witness
//! that is good for the tail. The compiler tells the two cases apart by the
//! type of the witness alone, so that a list may hold a kind more than once.
//!
//! None of these types carries data. What a list type holds, and where a
//! witness type points, is said by [`KindList`] and [`Witness`]; [`Path`]
//! says the same of a list of witnesses.

use vstd::prelude::*;
use std::marker::PhantomData;
use crate::kind::{Kind, KindId};

verus! {

/// The list that holds no kind; every list ends in it.
pub struct End;

/// The list that holds `Head` before the kinds of `Tail`.
pub struct Cons<Head, Tail>(PhantomData<Head>, Tail);

/// The witness that points at the head of a list.
pub struct Here;

/// The witness that passes over the head of a list and points where `Index`
/// points in the tail.
pub struct There<Index>(PhantomData<Index>);

/// A type that is a list of kinds.
pub trait KindList {
    /// The identifiers of the kinds of this list, first kind first.
    spec fn kinds() -> Seq<KindId>;

    /// Hands out the identifiers of the kinds of this list, first kind first.
    fn list() -> (list: Vec<KindId>)
        ensures
            list@ == Self::kinds(),
    ;
}

impl KindList for End {
    open spec fn kinds() -> Seq<KindId> {
        Seq::empty()
    }

    fn list() -> (list: Vec<KindId>) {
        Vec::new()
    }
}

impl<Head: Kind, Tail: KindList> KindList for Cons<Head, Tail> {
    open spec fn kinds() -> Seq<KindId> {
        seq![Head::id()] + Tail::kinds()
    }

    fn list() -> (list: Vec<KindId>) {
        let mut list = Tail::list();
        list.insert(0, Head::tag());
        assert(list@ =~= seq![Head::id()] + Tail::kinds());
        list
    }
}

/// A type that is a witness.
pub trait Witness {
    /// How many kinds stand before the occurrence that this witness points
    /// at.
    spec fn depth() -> nat;

    /// Hands out the depth of this witness, or `None` where it does not fit
    /// into a `usize`.
    fn index() -> (index: Option<usize>)
        ensures
            index is Some <==> Self::depth() <= usize::MAX,
            index matches Some(index) ==> index == Self::depth(),
    ;
}

impl Witness for Here {
    open spec fn depth() -> nat {
        0
    }

    fn index() -> (index: Option<usize>) {
        Some(0)
    }
}

impl<Index: Witness> Witness for There<Index> {
    open spec fn depth() -> nat {
        Index::depth() + 1
    }

    fn index() -> (index: Option<usize>) {
        match Index::index() {
            Some(inner) => inner.checked_add(1),
            None => None,
        }
    }
}

/// A type that is a list of witnesses, one for each kind that is to be
/// consumed from a list.
pub trait Path {
    /// The depths of the witnesses of this path, first witness first.
    spec fn depths() -> Seq<nat>;
}

impl Path for End {
    open spec fn depths() -> Seq<nat> {
        Seq::empty()
    }
}

impl<Index: Witness, Rest: Path> Path for Cons<Index, Rest> {
    open spec fn depths() -> Seq<nat> {
        seq![Index::depth()] + Rest::depths()
    }
}

} // verus!
