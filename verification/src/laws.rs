//! What holds of the relations in general.

use vstd::prelude::*;
use crate::kind::KindId;
use crate::model::{contained, derivable, derives, includes, witnesses};

verus! {

/// A kind that occurs in a list is contained in it: a witness can be given.
pub proof fn member_is_contained(list: Seq<KindId>, target: KindId)
    requires
        list.contains(target),
    ensures
        contained(list, target),
{
    let at = choose|at: int| 0 <= at < list.len() && list[at] == target;
    assert(witnesses(list, target, at as nat));
}

/// A kind that does not occur in a list is not contained in it: no witness
/// points at it.
pub proof fn absent_is_not_contained(list: Seq<KindId>, target: KindId)
    requires
        !list.contains(target),
    ensures
        !contained(list, target),
        forall|index: nat| !witnesses(list, target, index),
{
    assert forall|index: nat| !witnesses(list, target, index) by {
        if witnesses(list, target, index) {
            assert(list[index as int] == target);
        }
    }
}

/// A witness is good for a list in one of two ways. The witness of depth
/// zero is good where the kind is the head of the list. A deeper witness is
/// good where the witness of one less depth is good for the tail.
pub proof fn witness_unfolds(list: Seq<KindId>, target: KindId, index: nat)
    ensures
        witnesses(list, target, 0) <==> list.len() > 0 && list.first() == target,
        witnesses(list, target, index + 1) <==> list.len() > 0 && witnesses(
            list.drop_first(),
            target,
            index,
        ),
{
}

/// What is left of a list follows the witness. At depth zero it is the tail
/// of the list. At a greater depth it is the head of the list before what is
/// left of the tail at one less depth.
pub proof fn narrow_unfolds(list: Seq<KindId>, index: nat)
    requires
        index < list.len(),
    ensures
        list.remove(0) == list.drop_first(),
        index > 0 ==> list.remove(index as int) == seq![list.first()] + list.drop_first().remove(
            index - 1,
        ),
{
    assert(list.remove(0) =~= list.drop_first());
    if index > 0 {
        assert(list.remove(index as int) =~= seq![list.first()] + list.drop_first().remove(
            index - 1,
        ));
    }
}

/// Taking out the occurrence that a witness points at shortens the list by
/// one and leaves the other kinds in their order; putting the kind back at
/// the witness gives the list again.
pub proof fn narrow_round_trip(list: Seq<KindId>, target: KindId, index: nat)
    requires
        witnesses(list, target, index),
    ensures
        list.remove(index as int).len() == list.len() - 1,
        forall|i: int| 0 <= i < index ==> list.remove(index as int)[i] == list[i],
        forall|i: int| index <= i < list.len() - 1 ==> list.remove(index as int)[i] == list[i + 1],
        list.remove(index as int).insert(index as int, target) == list,
{
}

/// Taking out the occurrence that a witness points at takes out exactly one
/// occurrence of the kind: what is left holds the kind once less, and every
/// other kind as often as before.
pub proof fn narrow_takes_one_occurrence(list: Seq<KindId>, target: KindId, index: nat)
    requires
        witnesses(list, target, index),
    ensures
        list.to_multiset().count(target) > 0,
        list.remove(index as int).to_multiset() == list.to_multiset().remove(target),
        forall|kind: KindId|
            list.remove(index as int).to_multiset().count(kind) == list.to_multiset().count(kind)
                - (if kind == target { 1int } else { 0int }),
{
    broadcast use vstd::multiset::group_multiset_axioms;

    vstd::seq_lib::to_multiset_remove(list, index as int);
    assert(list.contains(target));
    vstd::seq_lib::to_multiset_contains(list, target);
}

/// Taking the first kind off a list takes one occurrence of it out of the
/// kinds that the list holds.
proof fn lemma_drop_first(list: Seq<KindId>)
    requires
        list.len() > 0,
    ensures
        list.to_multiset().count(list.first()) > 0,
        list.drop_first().to_multiset() == list.to_multiset().remove(list.first()),
{
    vstd::seq_lib::to_multiset_remove(list, 0);
    assert(list.remove(0) =~= list.drop_first());
    assert(list.contains(list.first()));
    vstd::seq_lib::to_multiset_contains(list, list.first());
}

/// A list from which a path consumes a second list includes the second.
pub proof fn derivation_is_sound(sup: Seq<KindId>, sub: Seq<KindId>, path: Seq<nat>)
    requires
        derives(sup, sub, path),
    ensures
        includes(sup, sub),
    decreases sub.len(),
{
    broadcast use vstd::multiset::group_multiset_axioms;

    if sub.len() == 0 {
        vstd::seq_lib::to_multiset_len(sub);
    } else {
        let head = sub.first();
        let at = path.first();
        derivation_is_sound(sup.remove(at as int), sub.drop_first(), path.drop_first());
        narrow_takes_one_occurrence(sup, head, at);
        lemma_drop_first(sub);
        assert forall|kind: KindId| sub.to_multiset().count(kind) <= sup.to_multiset().count(
            kind,
        ) by {
            assert(sub.drop_first().to_multiset().count(kind) <= sup.remove(
                at as int,
            ).to_multiset().count(kind));
        }
    }
}

/// From a list that includes a second, some path consumes the second.
pub proof fn included_is_derivable(sup: Seq<KindId>, sub: Seq<KindId>) -> (path: Seq<nat>)
    requires
        includes(sup, sub),
    ensures
        derives(sup, sub, path),
        derivable(sup, sub),
    decreases sub.len(),
{
    broadcast use vstd::multiset::group_multiset_axioms;

    if sub.len() == 0 {
        let path = Seq::<nat>::empty();
        assert(derives(sup, sub, path));
        path
    } else {
        let head = sub.first();
        lemma_drop_first(sub);
        assert(sup.to_multiset().count(head) > 0);
        vstd::seq_lib::to_multiset_contains(sup, head);
        member_is_contained(sup, head);
        let at = choose|at: nat| witnesses(sup, head, at);
        narrow_takes_one_occurrence(sup, head, at);
        assert forall|kind: KindId|
            sub.drop_first().to_multiset().count(kind) <= sup.remove(at as int).to_multiset().count(
                kind,
            ) by {
            assert(sub.to_multiset().count(kind) <= sup.to_multiset().count(kind));
        }
        let rest = included_is_derivable(sup.remove(at as int), sub.drop_first());
        let path = seq![at] + rest;
        assert(path.drop_first() =~= rest);
        assert(derives(sup, sub, path));
        path
    }
}

/// One list includes another exactly where some path consumes the second
/// from the first.
pub proof fn includes_iff_derivable(sup: Seq<KindId>, sub: Seq<KindId>)
    ensures
        includes(sup, sub) <==> derivable(sup, sub),
{
    if includes(sup, sub) {
        included_is_derivable(sup, sub);
    }
    if derivable(sup, sub) {
        let path = choose|path: Seq<nat>| derives(sup, sub, path);
        derivation_is_sound(sup, sub, path);
    }
}

/// Every list includes itself.
pub proof fn includes_reflexive(list: Seq<KindId>)
    ensures
        includes(list, list),
        derivable(list, list),
{
    includes_iff_derivable(list, list);
}

/// Every list includes the empty list.
pub proof fn includes_empty(list: Seq<KindId>)
    ensures
        includes(list, Seq::<KindId>::empty()),
        derivable(list, Seq::<KindId>::empty()),
{
    assert(derives(list, Seq::<KindId>::empty(), Seq::<nat>::empty()));
    includes_iff_derivable(list, Seq::<KindId>::empty());
}

/// A list that includes a second includes whatever the second includes.
pub proof fn includes_transitive(first: Seq<KindId>, second: Seq<KindId>, third: Seq<KindId>)
    requires
        includes(first, second),
        includes(second, third),
    ensures
        includes(first, third),
        derivable(first, third),
{
    includes_iff_derivable(first, third);
}

/// Whether one list can be consumed from another depends on how often each
/// kind occurs in the two, not on where.
pub proof fn derivable_ignores_order(
    sup: Seq<KindId>,
    sub: Seq<KindId>,
    sup_reordered: Seq<KindId>,
    sub_reordered: Seq<KindId>,
)
    requires
        sup.to_multiset() == sup_reordered.to_multiset(),
        sub.to_multiset() == sub_reordered.to_multiset(),
    ensures
        derivable(sup, sub) == derivable(sup_reordered, sub_reordered),
{
    includes_iff_derivable(sup, sub);
    includes_iff_derivable(sup_reordered, sub_reordered);
}

/// Occurrences count: a list that holds a kind twice includes the list that
/// holds it once, and not the other way round.
pub proof fn includes_counts_occurrences(kind: KindId)
    ensures
        includes(seq![kind, kind], seq![kind]),
        !includes(seq![kind], seq![kind, kind]),
{
    broadcast use vstd::multiset::group_multiset_axioms;

    let once = seq![kind];
    let twice = seq![kind, kind];
    vstd::seq_lib::to_multiset_build(Seq::<KindId>::empty(), kind);
    vstd::seq_lib::to_multiset_build(once, kind);
    vstd::seq_lib::to_multiset_len(Seq::<KindId>::empty());
    assert(Seq::<KindId>::empty().push(kind) =~= once);
    assert(once.push(kind) =~= twice);
    assert(once.to_multiset().count(kind) == 1);
    assert(twice.to_multiset().count(kind) == 2);
    assert forall|other: KindId| once.to_multiset().count(other) <= twice.to_multiset().count(
        other,
    ) by {}
}

} // verus!
