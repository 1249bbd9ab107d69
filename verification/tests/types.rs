use type_set::{
    contains, superset_of, Cons, Contains, End, Here, Kind, KindId, KindList, Narrow, Numbered,
    Path, Witness, SupersetOf, There, TypeSet,
};

type U32 = Numbered<32>;
type Str = Numbered<7>;
type I32 = Numbered<31>;

type A = Numbered<1>;
type B = Numbered<2>;
type C = Numbered<3>;
type D = Numbered<4>;
type E = Numbered<5>;
type F = Numbered<6>;

type Once = Cons<Str, End>;
type Twice = Cons<Str, Cons<Str, End>>;
type Split = Cons<Str, Cons<U32, Cons<Str, End>>>;

type T0 = <(U32,) as TypeSet>::TList;
type T1 = <(U32, Str) as TypeSet>::TList;
type T2 = <(U32, Str, I32) as TypeSet>::TList;

fn can_narrow<Types, Target, Remainder, Index>()
where
    Types: Narrow<Target, Index, Remainder = Remainder>,
    Target: Kind,
    Index: Witness,
{
}

fn is_superset<S1, S2, Index>()
where
    S1: SupersetOf<S2, Index>,
    S2: KindList,
    Index: Path,
{
}

fn witness_of<Types, Target, Index>() -> Option<usize>
where
    Types: Contains<Target, Index>,
    Target: Kind,
    Index: Witness,
{
    Index::index()
}

fn remainder_of<Types, Target, Index>() -> Vec<KindId>
where
    Types: Narrow<Target, Index>,
    Target: Kind,
    Index: Witness,
{
    <Types::Remainder as KindList>::list()
}

fn ids(numbers: &[u64]) -> Vec<KindId> {
    numbers.iter().map(|n| KindId(*n)).collect()
}

#[test]
fn narrow_test() {
    can_narrow::<T1, U32, _, _>();
    can_narrow::<T1, Str, Cons<U32, End>, _>();
}

#[test]
fn superset_test() {
    is_superset::<T0, T0, _>();
    is_superset::<T1, T1, _>();
    is_superset::<T2, T2, _>();
    is_superset::<T1, T0, _>();
    is_superset::<T2, T0, _>();
    is_superset::<T2, T1, _>();
}

#[test]
fn numbered_kind_hands_out_its_number() {
    assert_eq!(<Numbered<32> as Kind>::tag(), KindId(32));
    assert_eq!(<Numbered<0> as Kind>::tag(), KindId(0));
    assert_eq!(<Numbered<{ u64::MAX }> as Kind>::tag(), KindId(u64::MAX));
    assert_ne!(U32::tag(), Str::tag());
}

#[test]
fn list_types_hand_out_their_kinds_in_order() {
    assert_eq!(<End as KindList>::list(), ids(&[]));
    assert_eq!(<Cons<Str, End> as KindList>::list(), ids(&[7]));
    assert_eq!(<Cons<U32, Cons<Str, End>> as KindList>::list(), ids(&[32, 7]));
    assert_eq!(<Cons<Str, Cons<U32, Cons<Str, End>>> as KindList>::list(), ids(&[7, 32, 7]));
}

#[test]
fn tuples_of_every_supported_arity_become_lists() {
    assert_eq!(<<() as TypeSet>::TList as KindList>::list(), ids(&[]));
    assert_eq!(<<(A,) as TypeSet>::TList as KindList>::list(), ids(&[1]));
    assert_eq!(<<(A, B) as TypeSet>::TList as KindList>::list(), ids(&[1, 2]));
    assert_eq!(<<(A, B, C) as TypeSet>::TList as KindList>::list(), ids(&[1, 2, 3]));
    assert_eq!(<<(A, B, C, D) as TypeSet>::TList as KindList>::list(), ids(&[1, 2, 3, 4]));
    assert_eq!(<<(A, B, C, D, E) as TypeSet>::TList as KindList>::list(), ids(&[1, 2, 3, 4, 5]));
    assert_eq!(
        <<(A, B, C, D, E, F) as TypeSet>::TList as KindList>::list(),
        ids(&[1, 2, 3, 4, 5, 6])
    );
}

#[test]
fn tuple_may_name_a_kind_twice() {
    assert_eq!(<<(Str, U32, Str) as TypeSet>::TList as KindList>::list(), ids(&[7, 32, 7]));
}

#[test]
fn witnesses_hand_out_their_depth() {
    assert_eq!(<Here as Witness>::index(), Some(0));
    assert_eq!(<There<Here> as Witness>::index(), Some(1));
    assert_eq!(<There<There<There<Here>>> as Witness>::index(), Some(3));
}

#[test]
fn pair_contains_its_members_and_no_other_kind() {
    assert_eq!(witness_of::<T1, U32, _>(), Some(0));
    assert_eq!(witness_of::<T1, Str, _>(), Some(1));
    let list = <T1 as KindList>::list();
    assert!(contains(&list, U32::tag()));
    assert!(contains(&list, Str::tag()));
    assert!(!contains(&list, I32::tag()));
}

#[test]
fn witness_found_by_the_compiler_points_at_the_kind() {
    let list = <T2 as KindList>::list();
    assert_eq!(list[witness_of::<T2, U32, _>().unwrap()], U32::tag());
    assert_eq!(list[witness_of::<T2, Str, _>().unwrap()], Str::tag());
    assert_eq!(list[witness_of::<T2, I32, _>().unwrap()], I32::tag());
    assert_eq!(witness_of::<T2, I32, _>(), Some(2));
}

#[test]
fn narrowing_a_pair_by_its_second_kind_leaves_the_first() {
    assert_eq!(remainder_of::<T1, Str, _>(), ids(&[32]));
    assert_eq!(remainder_of::<T1, Str, _>(), <<(U32,) as TypeSet>::TList as KindList>::list());
}

#[test]
fn narrowing_keeps_the_order_of_the_other_kinds() {
    assert_eq!(remainder_of::<T2, U32, _>(), ids(&[7, 31]));
    assert_eq!(remainder_of::<T2, Str, _>(), ids(&[32, 31]));
    assert_eq!(remainder_of::<T2, I32, _>(), ids(&[32, 7]));
    assert_eq!(remainder_of::<T0, U32, _>(), ids(&[]));
}

#[test]
fn repeated_kind_is_found_where_the_named_witness_points() {
    assert_eq!(witness_of::<Split, Str, Here>(), Some(0));
    assert_eq!(witness_of::<Split, Str, There<There<Here>>>(), Some(2));
    assert_eq!(remainder_of::<Split, Str, Here>(), ids(&[32, 7]));
    assert_eq!(remainder_of::<Split, Str, There<There<Here>>>(), ids(&[7, 32]));
}

#[test]
fn triple_is_superset_of_its_leading_pair() {
    is_superset::<T2, T1, _>();
    assert!(superset_of(&<T2 as KindList>::list(), &<T1 as KindList>::list()));
}

#[test]
fn superset_does_not_depend_on_the_order_of_the_kinds() {
    is_superset::<T2, <(I32, U32) as TypeSet>::TList, _>();
    is_superset::<T2, <(I32, Str, U32) as TypeSet>::TList, _>();
}

#[test]
fn list_of_one_kind_is_no_superset_of_a_list_of_another() {
    let sup = <<(U32,) as TypeSet>::TList as KindList>::list();
    let sub = <<(Str,) as TypeSet>::TList as KindList>::list();
    assert!(!superset_of(&sup, &sub));
}

#[test]
fn every_list_type_is_superset_of_the_empty_list() {
    is_superset::<End, End, End>();
    is_superset::<T0, End, End>();
    is_superset::<T2, End, _>();
}

#[test]
fn kind_held_twice_covers_the_kind_held_once() {
    is_superset::<Twice, Once, Cons<Here, End>>();
    is_superset::<Twice, Once, Cons<There<Here>, End>>();
    is_superset::<Twice, Twice, Cons<Here, Cons<Here, End>>>();
    is_superset::<Twice, Twice, Cons<There<Here>, Cons<Here, End>>>();
    assert!(superset_of(&<Twice as KindList>::list(), &<Once as KindList>::list()));
    assert!(!superset_of(&<Once as KindList>::list(), &<Twice as KindList>::list()));
}
