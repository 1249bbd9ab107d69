//! What the three relations mean, over sequences of identifiers.
//!
//! A list is the sequence of its kinds, first kind first. A witness is the
//! number of kinds that stand before the occurrence it points at: zero for
//! the head of the list, one more for each kind that is passed over.

use vstd::prelude::*;
use crate::kind::KindId;

verus! {

/// `index` points at an occurrence of `target` in `list`.
pub open spec fn witnesses(list: Seq<KindId>, target: KindId, index: nat) -> bool {
    index < list.len() && list[index as int] == target
}

/// Some witness points at `target` in `list`.
pub open spec fn contained(list: Seq<KindId>, target: KindId) -> bool {
    exists|index: nat| witnesses(list, target, index)
}

/// Two different witnesses point at `target` in `list`, so that nothing but
/// the caller can say which occurrence is meant.
pub open spec fn ambiguous(list: Seq<KindId>, target: KindId) -> bool {
    exists|first: nat, second: nat|
        first != second && witnesses(list, target, first) && witnesses(list, target, second)
}

/// `index` points at the first occurrence of `target` in `list`.
pub open spec fn leftmost(list: Seq<KindId>, target: KindId, index: nat) -> bool {
    &&& witnesses(list, target, index)
    &&& forall|earlier: nat| earlier < index ==> !witnesses(list, target, earlier)
}

/// `path` consumes `sub` from `sup`, kind by kind.
///
/// The first witness of `path` points at the first kind of `sub` in `sup`;
/// the second points at the second kind of `sub` in what is left of `sup`
/// once the first occurrence is taken out; and so on, one witness for each
/// kind of `sub`.
pub open spec fn derives(sup: Seq<KindId>, sub: Seq<KindId>, path: Seq<nat>) -> bool
    decreases sub.len(),
{
    if sub.len() == 0 {
        path.len() == 0
    } else {
        &&& path.len() > 0
        &&& witnesses(sup, sub.first(), path.first())
        &&& derives(sup.remove(path.first() as int), sub.drop_first(), path.drop_first())
    }
}

/// Some path consumes `sub` from `sup`.
pub open spec fn derivable(sup: Seq<KindId>, sub: Seq<KindId>) -> bool {
    exists|path: Seq<nat>| derives(sup, sub, path)
}

/// `sup` holds every kind at least as often as `sub` does.
pub open spec fn includes(sup: Seq<KindId>, sub: Seq<KindId>) -> bool {
    sub.to_multiset().subset_of(sup.to_multiset())
}

} // verus!
