//! From tuples of kinds to lists.

use vstd::prelude::*;
use crate::kind::{Kind, KindId};
use crate::list::{Cons, End, KindList};

verus! {

/// A tuple of kinds, of up to six members, read as a list.
///
/// A longer tuple is no `TypeSet`, and a bound on it does not compile. A
/// tuple may name a kind more than once: its list then holds the kind as
/// often, and a bound that looks for the kind has to name its witness.
pub trait TypeSet {
    /// The list that holds the members of the tuple, in their order.
    type TList: KindList;

    /// The identifiers of the members of the tuple, in their order.
    spec fn members() -> Seq<KindId>;

    /// The list holds the members of the tuple, in their order, and nothing
    /// else.
    proof fn listed()
        ensures
            <Self::TList as KindList>::kinds() == Self::members(),
    ;
}

impl TypeSet for () {
    type TList = End;

    open spec fn members() -> Seq<KindId> {
        seq![]
    }

    proof fn listed() {
    }
}

impl<A: Kind> TypeSet for (A,) {
    type TList = Cons<A, End>;

    open spec fn members() -> Seq<KindId> {
        seq![A::id()]
    }

    proof fn listed() {
    }
}

impl<A: Kind, B: Kind> TypeSet for (A, B) {
    type TList = Cons<A, Cons<B, End>>;

    open spec fn members() -> Seq<KindId> {
        seq![A::id(), B::id()]
    }

    proof fn listed() {
    }
}

impl<A: Kind, B: Kind, C: Kind> TypeSet for (A, B, C) {
    type TList = Cons<A, Cons<B, Cons<C, End>>>;

    open spec fn members() -> Seq<KindId> {
        seq![A::id(), B::id(), C::id()]
    }

    proof fn listed() {
    }
}

impl<A: Kind, B: Kind, C: Kind, D: Kind> TypeSet for (A, B, C, D) {
    type TList = Cons<A, Cons<B, Cons<C, Cons<D, End>>>>;

    open spec fn members() -> Seq<KindId> {
        seq![A::id(), B::id(), C::id(), D::id()]
    }

    proof fn listed() {
    }
}

impl<A: Kind, B: Kind, C: Kind, D: Kind, E: Kind> TypeSet for (A, B, C, D, E) {
    type TList = Cons<A, Cons<B, Cons<C, Cons<D, Cons<E, End>>>>>;

    open spec fn members() -> Seq<KindId> {
        seq![A::id(), B::id(), C::id(), D::id(), E::id()]
    }

    proof fn listed() {
    }
}

impl<A: Kind, B: Kind, C: Kind, D: Kind, E: Kind, F: Kind> TypeSet for (A, B, C, D, E, F) {
    type TList = Cons<A, Cons<B, Cons<C, Cons<D, Cons<E, Cons<F, End>>>>>>;

    open spec fn members() -> Seq<KindId> {
        seq![A::id(), B::id(), C::id(), D::id(), E::id(), F::id()]
    }

    proof fn listed() {
    }
}

} // verus!
