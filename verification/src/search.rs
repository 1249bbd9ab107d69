//! The three relations, decided for lists of identifiers while the program
//! runs.
//!
//! A list is a slice of identifiers, first kind first, and a witness is a
//! position in it. Where the compiler would refuse a bound, these functions
//! return `false`, `None` or the reason as an error.

use vstd::prelude::*;
use vstd::slice::slice_to_vec;
use crate::kind::KindId;
use crate::laws::{
    absent_is_not_contained, includes_iff_derivable, member_is_contained, narrow_round_trip,
};
use crate::model::{ambiguous, contained, derivable, includes, leftmost, witnesses};

verus! {

/// Why no single witness could be given for a kind.
#[derive(Clone, Copy, Debug, PartialEq, Eq, Structural)]
pub enum Unresolved {
    /// The kind does not occur in the list.
    NotFound,
    /// The kind occurs more than once, and the caller did not say which
    /// occurrence is meant.
    Ambiguous,
}

/// Looks for the first occurrence of `target` in `list`.
///
/// A match at the head wins over any match in the tail, whatever the tail
/// holds.
pub fn find_first(list: &[KindId], target: KindId) -> (found: Option<usize>)
    ensures
        found is Some <==> contained(list@, target),
        found matches Some(index) ==> leftmost(list@, target, index as nat),
{
    let mut at: usize = 0;
    while at < list.len()
        invariant
            at <= list@.len(),
            forall|earlier: nat| earlier < at ==> !witnesses(list@, target, earlier),
        decreases list@.len() - at,
    {
        if list[at] == target {
            assert(witnesses(list@, target, at as nat));
            return Some(at);
        }
        at += 1;
    }
    None
}

/// Decides whether `target` occurs in `list`.
pub fn contains(list: &[KindId], target: KindId) -> (held: bool)
    ensures
        held == contained(list@, target),
        held == list@.contains(target),
{
    proof {
        if list@.contains(target) {
            member_is_contained(list@, target);
        } else {
            absent_is_not_contained(list@, target);
        }
    }
    find_first(list, target).is_some()
}

/// Looks for the one occurrence of `target` in `list`.
///
/// Where the kind occurs more than once the function does not pick an
/// occurrence: it reports `Ambiguous`, and the caller has to name a witness
/// (see [`narrow_at`]).
pub fn locate(list: &[KindId], target: KindId) -> (found: Result<usize, Unresolved>)
    ensures
        found is Ok <==> contained(list@, target) && !ambiguous(list@, target),
        found matches Ok(index) ==> witnesses(list@, target, index as nat),
        found == Err::<usize, Unresolved>(Unresolved::NotFound) <==> !contained(list@, target),
        found == Err::<usize, Unresolved>(Unresolved::Ambiguous) <==> ambiguous(list@, target),
{
    let length = list.len();
    match find_first(list, target) {
        None => Err(Unresolved::NotFound),
        Some(first) => {
            let mut at: usize = first + 1;
            while at < length
                invariant
                    length == list@.len(),
                    first < at <= length,
                    leftmost(list@, target, first as nat),
                    forall|other: nat|
                        other < at && other != first ==> !witnesses(list@, target, other),
                decreases length - at,
            {
                if list[at] == target {
                    assert(witnesses(list@, target, at as nat));
                    return Err(Unresolved::Ambiguous);
                }
                at += 1;
            }
            Ok(first)
        },
    }
}

/// Takes the occurrence of `target` that `index` points at out of `list`.
///
/// The kinds that stay keep their order. Returns `None` where `index` does
/// not point at an occurrence of `target`.
pub fn narrow_at(list: &[KindId], target: KindId, index: usize) -> (rest: Option<Vec<KindId>>)
    ensures
        rest is Some <==> witnesses(list@, target, index as nat),
        rest matches Some(rest) ==> {
            &&& rest@ == list@.remove(index as int)
            &&& rest@.len() == list@.len() - 1
            &&& rest@.insert(index as int, target) == list@
        },
{
    if index < list.len() && list[index] == target {
        let mut rest = slice_to_vec(list);
        rest.remove(index);
        proof {
            narrow_round_trip(list@, target, index as nat);
        }
        Some(rest)
    } else {
        None
    }
}

/// Takes the one occurrence of `target` out of `list`, and returns the
/// witness that points at it together with what is left.
///
/// Fails as [`locate`] does: with `NotFound` where the kind does not occur,
/// with `Ambiguous` where it occurs more than once.
pub fn narrow(list: &[KindId], target: KindId) -> (out: Result<(usize, Vec<KindId>), Unresolved>)
    ensures
        out is Ok <==> contained(list@, target) && !ambiguous(list@, target),
        out matches Ok((index, rest)) ==> {
            &&& witnesses(list@, target, index as nat)
            &&& rest@ == list@.remove(index as int)
            &&& rest@.len() == list@.len() - 1
            &&& rest@.insert(index as int, target) == list@
        },
        out == Err::<(usize, Vec<KindId>), Unresolved>(Unresolved::NotFound) <==> !contained(
            list@,
            target,
        ),
        out == Err::<(usize, Vec<KindId>), Unresolved>(Unresolved::Ambiguous) <==> ambiguous(
            list@,
            target,
        ),
{
    match locate(list, target) {
        Err(why) => Err(why),
        Ok(index) => {
            let mut rest = slice_to_vec(list);
            rest.remove(index);
            proof {
                narrow_round_trip(list@, target, index as nat);
            }
            Ok((index, rest))
        },
    }
}

/// Puts `target` back into `rest` at `index`: the inverse of [`narrow_at`].
///
/// Returns `None` where `index` lies beyond the end of `rest`.
pub fn reinsert(rest: &[KindId], target: KindId, index: usize) -> (list: Option<Vec<KindId>>)
    ensures
        list is Some <==> index <= rest@.len(),
        list matches Some(list) ==> {
            &&& list@ == rest@.insert(index as int, target)
            &&& witnesses(list@, target, index as nat)
            &&& list@.remove(index as int) == rest@
        },
{
    if index <= rest.len() {
        let mut list = slice_to_vec(rest);
        list.insert(index, target);
        assert(list@.remove(index as int) =~= rest@);
        Some(list)
    } else {
        None
    }
}

/// Decides whether `sup` holds every kind of `sub` at least as often as `sub`
/// does.
///
/// Each kind of `sub`, in turn, consumes its first occurrence in what is left
/// of `sup`; the answer is `false` as soon as a kind finds none. A kind that
/// `sub` holds twice therefore needs two occurrences in `sup`.
pub fn superset_of(sup: &[KindId], sub: &[KindId]) -> (held: bool)
    ensures
        held == includes(sup@, sub@),
        held == derivable(sup@, sub@),
{
    let mut left = slice_to_vec(sup);
    let mut taken: usize = 0;
    let mut held = true;
    proof {
        broadcast use vstd::multiset::group_multiset_axioms;

        vstd::seq_lib::to_multiset_len(sub@.take(0));
        assert(left@.to_multiset().add(sub@.take(0).to_multiset()) =~= sup@.to_multiset());
    }
    while held && taken < sub.len()
        invariant
            taken <= sub@.len(),
            held ==> sup@.to_multiset() == left@.to_multiset().add(
                sub@.take(taken as int).to_multiset(),
            ),
            !held ==> !includes(sup@, sub@),
        decreases sub@.len() - taken + (if held { 1int } else { 0int }),
    {
        let kind = sub[taken];
        proof {
            lemma_prefix_grows(sub@, taken as int);
        }
        match find_first(left.as_slice(), kind) {
            None => {
                proof {
                    broadcast use vstd::multiset::group_multiset_axioms;

                    if left@.contains(kind) {
                        member_is_contained(left@, kind);
                    }
                    vstd::seq_lib::to_multiset_contains(left@, kind);
                    assert(sup@.to_multiset().count(kind) < sub@.to_multiset().count(kind));
                }
                held = false;
            },
            Some(at) => {
                proof {
                    broadcast use vstd::multiset::group_multiset_axioms;

                    vstd::seq_lib::to_multiset_remove(left@, at as int);
                    assert(left@.contains(kind));
                    vstd::seq_lib::to_multiset_contains(left@, kind);
                }
                left.remove(at);
                taken += 1;
            },
        }
    }
    proof {
        broadcast use vstd::multiset::group_multiset_axioms;

        if held {
            assert(sub@.take(taken as int) =~= sub@);
        }
        includes_iff_derivable(sup@, sub@);
    }
    held
}

/// The first `upto + 1` kinds of a list hold the kind at `upto` once more
/// than the first `upto` do, and the whole list holds every kind at least as
/// often as they do.
proof fn lemma_prefix_grows(list: Seq<KindId>, upto: int)
    requires
        0 <= upto < list.len(),
    ensures
        list.take(upto + 1).to_multiset() == list.take(upto).to_multiset().insert(list[upto]),
        list.take(upto + 1).to_multiset().subset_of(list.to_multiset()),
{
    broadcast use vstd::multiset::group_multiset_axioms;

    vstd::seq_lib::to_multiset_build(list.take(upto), list[upto]);
    assert(list.take(upto).push(list[upto]) =~= list.take(upto + 1));
    vstd::seq_lib::lemma_multiset_commutative(list.take(upto + 1), list.skip(upto + 1));
    assert(list.take(upto + 1) + list.skip(upto + 1) =~= list);
}

} // verus!
