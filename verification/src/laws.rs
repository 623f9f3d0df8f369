//! What holds of every literal, proved from the definitions that the
//! contracts of the expanding functions use.
use crate::coercion::{
    coerced_items, coerced_pairs, single_valued, transformed_items, transformed_pairs,
};
use crate::map_expand::{build_map, extend_map, extend_map_with};
use crate::map_literal::MapLiteral;
use crate::model::{insert_all, keys_of};
use crate::set_expand::{build_set, extend_set, extend_set_with};
use crate::set_literal::SetLiteral;
use vstd::prelude::*;
use vstd::std_specs::convert::IntoSpec;

verus! {

/// A literal adds finitely many keys: where `init` is finite, so is the
/// result.
pub proof fn insert_all_is_finite<K, V>(init: Map<K, V>, clauses: Seq<(K, V)>)
    requires
        init.dom().finite(),
    ensures
        insert_all(init, clauses).dom().finite(),
    decreases clauses.len(),
{
    if clauses.len() > 0 {
        insert_all_is_finite(init, clauses.drop_last());
    }
}

/// The keys of the result are the keys of `init` together with the keys
/// that the literal lists, and no others.
pub proof fn insert_all_domain<K, V>(init: Map<K, V>, clauses: Seq<(K, V)>)
    ensures
        insert_all(init, clauses).dom() == init.dom().union(keys_of(clauses).to_set()),
    decreases clauses.len(),
{
    if clauses.len() > 0 {
        let keys = keys_of(clauses);
        insert_all_domain(init, clauses.drop_last());
        assert(keys == keys_of(clauses.drop_last()).push(clauses.last().0));
        keys_of(clauses.drop_last()).lemma_push_to_set_commute(clauses.last().0);
    }
}

/// Clause order is insertion order: a literal whose clauses are those of
/// `first` followed by those of `second` gives what `second` gives when it
/// extends the result of `first`.
pub proof fn clauses_insert_in_order<K, V>(
    init: Map<K, V>,
    first: Seq<(K, V)>,
    second: Seq<(K, V)>,
)
    ensures
        insert_all(init, first + second) == insert_all(insert_all(init, first), second),
    decreases second.len(),
{
    if second.len() > 0 {
        clauses_insert_in_order(init, first, second.drop_last());
        assert((first + second).drop_last() =~= first + second.drop_last());
    }
}

/// Last write wins: under a key that the literal lists, the result holds
/// the value of the last clause with that key.
pub proof fn last_clause_wins<K, V>(init: Map<K, V>, clauses: Seq<(K, V)>, i: int)
    requires
        0 <= i < clauses.len(),
        forall|j: int| i < j < clauses.len() ==> (#[trigger] clauses[j]).0 != clauses[i].0,
    ensures
        insert_all(init, clauses).contains_pair(clauses[i].0, clauses[i].1),
    decreases clauses.len(),
{
    if i < clauses.len() - 1 {
        last_clause_wins(init, clauses.drop_last(), i);
    }
}

/// Under a key that the literal does not list, the result holds what
/// `init` held, or nothing where `init` held nothing.
pub proof fn unlisted_key_keeps_init<K, V>(init: Map<K, V>, clauses: Seq<(K, V)>, k: K)
    requires
        forall|i: int| 0 <= i < clauses.len() ==> (#[trigger] clauses[i]).0 != k,
    ensures
        insert_all(init, clauses).contains_key(k) == init.contains_key(k),
        init.contains_key(k) ==> insert_all(init, clauses)[k] == init[k],
    decreases clauses.len(),
{
    if clauses.len() > 0 {
        unlisted_key_keeps_init(init, clauses.drop_last(), k);
    }
}

/// A literal that extends `init` gives the union of the entries of `init`
/// and the entries of the same literal built from nothing; where both hold
/// a key, the entry of the literal stands.
pub proof fn extension_is_overriding_union<K, V>(init: Map<K, V>, clauses: Seq<(K, V)>)
    ensures
        insert_all(init, clauses) == init.union_prefer_right(insert_all(Map::empty(), clauses)),
    decreases clauses.len(),
{
    if clauses.len() > 0 {
        extension_is_overriding_union(init, clauses.drop_last());
    }
}

/// A literal of N clauses with N distinct keys, built from nothing, gives a
/// map of exactly N entries: each clause is an entry, and each entry is a
/// clause.
pub proof fn distinct_keys_keep_every_clause<K, V>(clauses: Seq<(K, V)>)
    requires
        forall|i: int, j: int|
            0 <= i < j < clauses.len() ==> (#[trigger] clauses[i]).0 != (#[trigger] clauses[j]).0,
    ensures
        insert_all(Map::empty(), clauses).dom().finite(),
        insert_all(Map::empty(), clauses).len() == clauses.len(),
        forall|i: int|
            0 <= i < clauses.len() ==> insert_all(Map::empty(), clauses).contains_pair(
                (#[trigger] clauses[i]).0,
                clauses[i].1,
            ),
        forall|k: K, v: V|
            insert_all(Map::empty(), clauses).contains_pair(k, v) ==> clauses.contains((k, v)),
    decreases clauses.len(),
{
    let built = insert_all(Map::<K, V>::empty(), clauses);
    insert_all_is_finite(Map::<K, V>::empty(), clauses);
    assert forall|i: int| 0 <= i < clauses.len() implies built.contains_pair(
        (#[trigger] clauses[i]).0,
        clauses[i].1,
    ) by {
        last_clause_wins(Map::<K, V>::empty(), clauses, i);
    }
    assert forall|k: K, v: V| built.contains_pair(k, v) implies clauses.contains((k, v)) by {
        insert_all_domain(Map::<K, V>::empty(), clauses);
    }
    if clauses.len() > 0 {
        let front = clauses.drop_last();
        distinct_keys_keep_every_clause(front);
        unlisted_key_keeps_init(Map::<K, V>::empty(), front, clauses.last().0);
    }
}

/// Whatever the capacity hint, a literal of N clauses with N distinct keys
/// that fills a container created with that hint gives exactly N entries:
/// each clause is an entry, and each entry is a clause.
pub proof fn distinct_keys_under_any_hint<M, K, V>(n: usize, hinted: M, clauses: Seq<(K, V)>) where
    M: MapLiteral<K, V>,

    requires
        call_ensures(M::with_capacity, (n,), hinted),
        forall|i: int, j: int|
            0 <= i < j < clauses.len() ==> (#[trigger] clauses[i]).0 != (#[trigger] clauses[j]).0,
    ensures
        insert_all(hinted.entries(), clauses).dom().finite(),
        insert_all(hinted.entries(), clauses).len() == clauses.len(),
        forall|i: int|
            0 <= i < clauses.len() ==> insert_all(hinted.entries(), clauses).contains_pair(
                (#[trigger] clauses[i]).0,
                clauses[i].1,
            ),
        forall|k: K, v: V|
            insert_all(hinted.entries(), clauses).contains_pair(k, v) ==> clauses.contains((k, v)),
{
    distinct_keys_keep_every_clause(clauses);
}

/// A set literal of N items, no two of them equal, built from nothing,
/// gives a set of exactly N members: the items.
pub proof fn distinct_items_keep_every_item<Item>(members: Seq<Item>)
    requires
        members.no_duplicates(),
    ensures
        members.to_set().finite(),
        members.to_set().len() == members.len(),
        forall|x: Item| members.to_set().contains(x) <==> members.contains(x),
{
    members.unique_seq_to_set();
    vstd::seq_lib::seq_to_set_is_finite(members);
}

/// Transforms that return one value only for each argument give one
/// sequence of pairs only for each sequence of raw pairs.
pub proof fn transformed_pairs_agree<RK, RV, K, V, FK, FV>(
    tk: FK,
    tv: FV,
    raw: Seq<(RK, RV)>,
    a: Seq<(K, V)>,
    b: Seq<(K, V)>,
) where FK: Fn(RK) -> K, FV: Fn(RV) -> V
    requires
        single_valued(tk),
        single_valued(tv),
        transformed_pairs(tk, tv, raw, a),
        transformed_pairs(tk, tv, raw, b),
    ensures
        a == b,
{
}

/// A transform that returns one value only for each argument gives one
/// sequence of items only for each sequence of raw items.
pub proof fn transformed_items_agree<T, U, F>(f: F, raw: Seq<T>, a: Seq<U>, b: Seq<U>) where
    F: Fn(T) -> U,

    requires
        single_valued(f),
        transformed_items(f, raw, a),
        transformed_items(f, raw, b),
    ensures
        a == b,
{
}

/// Where `model` gives the one value that `f` returns for each argument,
/// the transformed items are the images of the raw items under `model`.
pub proof fn transformed_items_follow_model<T, U, F>(
    f: F,
    model: spec_fn(T) -> U,
    raw: Seq<T>,
    out: Seq<U>,
) where F: Fn(T) -> U
    requires
        forall|x: T, y: U| #[trigger] call_ensures(f, (x,), y) ==> y == model(x),
        transformed_items(f, raw, out),
    ensures
        out == raw.map_values(model),
{
}

/// Where `key_model` and `value_model` give the one value that `tk` and
/// `tv` return for each argument, the transformed pairs are the images of
/// the raw pairs under the two models.
pub proof fn transformed_pairs_follow_model<RK, RV, K, V, FK, FV>(
    tk: FK,
    tv: FV,
    key_model: spec_fn(RK) -> K,
    value_model: spec_fn(RV) -> V,
    raw: Seq<(RK, RV)>,
    out: Seq<(K, V)>,
) where FK: Fn(RK) -> K, FV: Fn(RV) -> V
    requires
        forall|x: RK, y: K| #[trigger] call_ensures(tk, (x,), y) ==> y == key_model(x),
        forall|x: RV, y: V| #[trigger] call_ensures(tv, (x,), y) ==> y == value_model(x),
        transformed_pairs(tk, tv, raw, out),
    ensures
        out == raw.map_values(|pair: (RK, RV)| (key_model(pair.0), value_model(pair.1))),
{
}

/// A token that has the item type already is coerced into itself: the
/// coerced items are the raw items.
pub proof fn coercion_keeps_items_of_the_item_type<T>(raw: Seq<T>, out: Seq<T>)
    requires
        coerced_items(raw, out),
    ensures
        out == raw,
{
}

/// A clause whose tokens have the key and value types already is coerced
/// into itself: the coerced pairs are the raw pairs.
pub proof fn coercion_keeps_pairs_of_the_entry_type<K, V>(raw: Seq<(K, V)>, out: Seq<(K, V)>)
    requires
        coerced_pairs(raw, out),
    ensures
        out == raw,
{
}

/// Where the conversion into `U` follows its model, the coerced items are
/// the images of the raw items under that model.
pub proof fn coerced_items_follow_model<T, U>(raw: Seq<T>, out: Seq<U>) where T: Into<U>
    requires
        T::obeys_into_spec(),
        coerced_items(raw, out),
    ensures
        out == raw.map_values(|item: T| item.into_spec()),
{
}

/// Where the conversions into `K` and into `V` follow their models, the
/// coerced pairs are the images of the raw pairs under those models.
pub proof fn coerced_pairs_follow_model<RK, RV, K, V>(raw: Seq<(RK, RV)>, out: Seq<(K, V)>) where
    RK: Into<K>,
    RV: Into<V>,

    requires
        RK::obeys_into_spec(),
        RV::obeys_into_spec(),
        coerced_pairs(raw, out),
    ensures
        out == raw.map_values(|pair: (RK, RV)| (pair.0.into_spec(), pair.1.into_spec())),
{
}

/// A map literal with transforms gives what building by hand gives: where
/// `tk` and `tv` return one value only for each argument, the container
/// that the literal returns holds the entries that come of inserting, in
/// clause order, the pairs to which `tk` and `tv` were applied beforehand.
pub proof fn transform_matches_manual_build<M, K, V, RK, RV, FK, FV>(
    init: M,
    tk: FK,
    tv: FV,
    pairs: Vec<(RK, RV)>,
    m: M,
    by_hand: Seq<(K, V)>,
) where M: MapLiteral<K, V>, FK: Fn(RK) -> K, FV: Fn(RV) -> V
    requires
        M::obeys_map_model(),
        single_valued(tk),
        single_valued(tv),
        call_ensures(extend_map_with::<M, K, V, RK, RV, FK, FV>, (init, tk, tv, pairs), m),
        transformed_pairs(tk, tv, pairs@, by_hand),
    ensures
        m.entries() == insert_all(init.entries(), by_hand),
{
    let entries = choose|entries: Seq<(K, V)>|
        #![trigger transformed_pairs(tk, tv, pairs@, entries)]
        transformed_pairs(tk, tv, pairs@, entries) && (M::obeys_map_model() ==> m.entries()
            == insert_all(init.entries(), entries));
    transformed_pairs_agree(tk, tv, pairs@, entries, by_hand);
}

/// A set literal with a transform gives what building by hand gives: where
/// `t` returns one value only for each argument, the container that the
/// literal returns holds the members of `init` and the items to which `t`
/// was applied beforehand.
pub proof fn set_transform_matches_manual_build<S, Item, R, F>(
    init: S,
    t: F,
    items: Vec<R>,
    s: S,
    by_hand: Seq<Item>,
) where S: SetLiteral<Item>, F: Fn(R) -> Item
    requires
        S::obeys_set_model(),
        single_valued(t),
        call_ensures(extend_set_with::<S, Item, R, F>, (init, t, items), s),
        transformed_items(t, items@, by_hand),
    ensures
        s.members() == init.members().union(by_hand.to_set()),
{
    let members = choose|members: Seq<Item>|
        #![trigger transformed_items(t, items@, members)]
        transformed_items(t, items@, members) && (S::obeys_set_model() ==> s.members()
            == init.members().union(members.to_set()));
    transformed_items_agree(t, items@, members, by_hand);
}

/// The capacity hint is not observable: a map container that was created
/// with a hint, of zero or more, holds what one created without holds.
pub proof fn capacity_hint_is_unobservable<M, K, V>(n: usize, hinted: M, plain: M) where
    M: MapLiteral<K, V>,

    requires
        call_ensures(M::with_capacity, (n,), hinted),
        call_ensures(M::new, (), plain),
    ensures
        hinted.entries() == plain.entries(),
        hinted.entries() == Map::<K, V>::empty(),
{
}

/// The capacity hint is not observable: a set container that was created
/// with a hint, of zero or more, holds what one created without holds.
pub proof fn set_capacity_hint_is_unobservable<S, Item>(n: usize, hinted: S, plain: S) where
    S: SetLiteral<Item>,

    requires
        call_ensures(S::with_capacity, (n,), hinted),
        call_ensures(S::new, (), plain),
    ensures
        hinted.members() == plain.members(),
        hinted.members() == Set::<Item>::empty(),
{
}

/// A bare map literal, which sizes its container to the number of its
/// clauses, gives the entries that the same clauses give when they extend
/// a container that was created without a hint.
pub proof fn hinted_literal_matches_unhinted<M, K, V, RK, RV>(
    pairs: Vec<(RK, RV)>,
    hinted: M,
    empty: M,
    plain: M,
) where M: MapLiteral<K, V>, RK: Into<K>, RV: Into<V>
    requires
        M::obeys_map_model(),
        single_valued(RK::into),
        single_valued(RV::into),
        call_ensures(build_map::<M, K, V, RK, RV>, (pairs,), hinted),
        call_ensures(M::new, (), empty),
        call_ensures(extend_map::<M, K, V, RK, RV>, (empty, pairs), plain),
    ensures
        hinted.entries() == plain.entries(),
{
    let a = choose|entries: Seq<(K, V)>|
        #![trigger coerced_pairs(pairs@, entries)]
        coerced_pairs(pairs@, entries) && (M::obeys_map_model() ==> hinted.entries() == insert_all(
            Map::empty(),
            entries,
        ));
    let b = choose|entries: Seq<(K, V)>|
        #![trigger coerced_pairs(pairs@, entries)]
        coerced_pairs(pairs@, entries) && (M::obeys_map_model() ==> plain.entries() == insert_all(
            empty.entries(),
            entries,
        ));
    transformed_pairs_agree(RK::into, RV::into, pairs@, a, b);
}

/// A bare set literal, which sizes its container to the number of its
/// items, gives the members that the same items give when they extend a
/// container that was created without a hint.
pub proof fn hinted_set_literal_matches_unhinted<S, Item, R>(
    items: Vec<R>,
    hinted: S,
    empty: S,
    plain: S,
) where S: SetLiteral<Item>, R: Into<Item>
    requires
        S::obeys_set_model(),
        single_valued(R::into),
        call_ensures(build_set::<S, Item, R>, (items,), hinted),
        call_ensures(S::new, (), empty),
        call_ensures(extend_set::<S, Item, R>, (empty, items), plain),
    ensures
        hinted.members() == plain.members(),
{
    let a = choose|members: Seq<Item>|
        #![trigger coerced_items(items@, members)]
        coerced_items(items@, members) && (S::obeys_set_model() ==> hinted.members()
            == members.to_set());
    let b = choose|members: Seq<Item>|
        #![trigger coerced_items(items@, members)]
        coerced_items(items@, members) && (S::obeys_set_model() ==> plain.members()
            == empty.members().union(members.to_set()));
    transformed_items_agree(R::into, items@, a, b);
}

} // verus!
