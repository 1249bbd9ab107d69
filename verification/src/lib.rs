//! Sets of kinds, kept as ordered lists in which every occurrence counts.
//!
//! A list of kinds can be asked three things: whether a kind occurs in it,
//! what is left once one occurrence of a kind is taken out, and whether it
//! holds every kind of another list at least as often as that list does.
//!
//! The crate answers each question twice. The list types of [`list`] answer
//! while the program is compiled: a bound such as `L: Contains<T, I>` is met
//! only by lists that hold `T`, and [`relation`] proves what every such bound
//! means. The functions of [`search`] answer for lists of identifiers that
//! exist only while the program runs. Both are stated over the same
//! sequences of identifiers, defined in [`model`]; [`laws`] proves what holds
//! of them in general.

pub mod kind;
pub mod model;
pub mod laws;
pub mod search;
pub mod list;
pub mod adapter;
pub mod relation;

pub use adapter::TypeSet;
pub use kind::{Kind, KindId, Numbered};
pub use list::{Cons, End, Here, KindList, Path, There, Witness};
pub use relation::{Contains, Narrow, SupersetOf};
pub use search::{
    contains, find_first, locate, narrow, narrow_at, reinsert, superset_of, Unresolved,
};
