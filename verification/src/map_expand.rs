//! The shapes of a map literal, each as a function from the clauses of the
//! literal to the populated container.
//!
//! The clauses are pairs of a raw key and a raw value, in the order in
//! which the literal lists them. A literal either starts from a new
//! container, sized to the number of its clauses, or extends a container
//! that the caller hands in. Its tokens are either coerced into the key and
//! value types of the container, or transformed by two functions of the
//! caller, one for all keys and one for all values.
//!
//! Nothing here fails at run time. A container type without the capability,
//! or a token type without a conversion into the key or value type, is
//! refused by the bounds of these functions when the call is compiled.
//!
//! A conversion or a transform may return different values for one token,
//! so each contract speaks of some sequence of entries that the tokens may
//! have given, and says what the container holds in terms of it.
use crate::coercion::{coerce, coerced_pairs, coerces_to, transformed_pairs};
use crate::map_literal::MapLiteral;
use crate::model::insert_all;
use vstd::prelude::*;

verus! {

/// Inserts one clause into `m`: `k` and `v` are coerced into the key and
/// value types of `m`, then inserted. Clauses whose tokens differ in type
/// from one clause to the next are inserted with one call each.
pub fn insert_coerced<M, K, V, RK, RV>(m: &mut M, k: RK, v: RV) where
    M: MapLiteral<K, V>,
    RK: Into<K>,
    RV: Into<V>,

    ensures
        exists|key: K, value: V|
            #![trigger coerces_to(k, key), coerces_to(v, value)]
            coerces_to(k, key) && coerces_to(v, value) && (M::obeys_map_model()
                ==> final(m).entries() == old(m).entries().insert(key, value)),
{
    let key: K = coerce(k);
    let value: V = coerce(v);
    M::insert(m, key, value);
}

/// The literal that extends `init`: each clause of `pairs` is coerced and
/// inserted into `init`, in clause order, and `init` is returned.
pub fn extend_map<M, K, V, RK, RV>(init: M, pairs: Vec<(RK, RV)>) -> (m: M) where
    M: MapLiteral<K, V>,
    RK: Into<K>,
    RV: Into<V>,

    ensures
        exists|entries: Seq<(K, V)>|
            #![trigger coerced_pairs(pairs@, entries)]
            coerced_pairs(pairs@, entries) && (M::obeys_map_model() ==> m.entries() == insert_all(
                init.entries(),
                entries,
            )),
{
    let mut m = init;
    let ghost raw = pairs@;
    let ghost mut entries: Seq<(K, V)> = Seq::empty();
    for pair in it: pairs
        invariant
            raw == it.seq(),
            coerced_pairs(raw.take(it.index() as int), entries),
            M::obeys_map_model() ==> m.entries() == insert_all(init.entries(), entries),
    {
        let ghost before = m.entries();
        let (k, v) = pair;
        insert_coerced(&mut m, k, v);
        proof {
            let (key, value) = choose|key: K, value: V|
                #![trigger coerces_to(k, key), coerces_to(v, value)]
                coerces_to(k, key) && coerces_to(v, value) && (M::obeys_map_model() ==> m.entries()
                    == before.insert(key, value));
            let next = entries.push((key, value));
            assert(next.drop_last() == entries);
            entries = next;
        }
    }
    proof {
        assert(raw.take(raw.len() as int) == raw);
    }
    m
}

/// The bare literal: a new container, created with the number of clauses
/// as its capacity hint, which the clauses of `pairs` then extend as in
/// `extend_map`.
pub fn build_map<M, K, V, RK, RV>(pairs: Vec<(RK, RV)>) -> (m: M) where
    M: MapLiteral<K, V>,
    RK: Into<K>,
    RV: Into<V>,

    ensures
        exists|init: M|
            #![trigger call_ensures(M::with_capacity, (pairs.len(),), init)]
            call_ensures(M::with_capacity, (pairs.len(),), init) && call_ensures(
                extend_map::<M, K, V, RK, RV>,
                (init, pairs),
                m,
            ),
        exists|entries: Seq<(K, V)>|
            #![trigger coerced_pairs(pairs@, entries)]
            coerced_pairs(pairs@, entries) && (M::obeys_map_model() ==> m.entries() == insert_all(
                Map::empty(),
                entries,
            )),
{
    let init = M::with_capacity(pairs.len());
    extend_map(init, pairs)
}

/// The literal that extends `init` through transforms: `tk` is applied to
/// each raw key and `tv` to each raw value, in place of the coercion, and
/// the pair is inserted into `init`, in clause order.
pub fn extend_map_with<M, K, V, RK, RV, FK, FV>(
    init: M,
    tk: FK,
    tv: FV,
    pairs: Vec<(RK, RV)>,
) -> (m: M) where M: MapLiteral<K, V>, FK: Fn(RK) -> K, FV: Fn(RV) -> V
    requires
        forall|i: int|
            #![trigger pairs[i]]
            0 <= i < pairs.len() ==> call_requires(tk, (pairs[i].0,)) && call_requires(
                tv,
                (pairs[i].1,),
            ),
    ensures
        exists|entries: Seq<(K, V)>|
            #![trigger transformed_pairs(tk, tv, pairs@, entries)]
            transformed_pairs(tk, tv, pairs@, entries) && (M::obeys_map_model() ==> m.entries()
                == insert_all(init.entries(), entries)),
{
    let mut m = init;
    let ghost raw = pairs@;
    let ghost mut entries: Seq<(K, V)> = Seq::empty();
    for pair in it: pairs
        invariant
            raw == it.seq(),
            forall|i: int|
                #![trigger raw[i]]
                0 <= i < raw.len() ==> call_requires(tk, (raw[i].0,)) && call_requires(
                    tv,
                    (raw[i].1,),
                ),
            transformed_pairs(tk, tv, raw.take(it.index() as int), entries),
            M::obeys_map_model() ==> m.entries() == insert_all(init.entries(), entries),
    {
        let (k, v) = pair;
        let key = tk(k);
        let value = tv(v);
        M::insert(&mut m, key, value);
        proof {
            let next = entries.push((key, value));
            assert(next.drop_last() == entries);
            entries = next;
        }
    }
    proof {
        assert(raw.take(raw.len() as int) == raw);
    }
    m
}

/// The bare literal with transforms: a new container, created with the
/// number of clauses as its capacity hint, which the clauses of `pairs`
/// then extend as in `extend_map_with`.
pub fn build_map_with<M, K, V, RK, RV, FK, FV>(tk: FK, tv: FV, pairs: Vec<(RK, RV)>) -> (m: M) where
    M: MapLiteral<K, V>,
    FK: Fn(RK) -> K,
    FV: Fn(RV) -> V,

    requires
        forall|i: int|
            #![trigger pairs[i]]
            0 <= i < pairs.len() ==> call_requires(tk, (pairs[i].0,)) && call_requires(
                tv,
                (pairs[i].1,),
            ),
    ensures
        exists|init: M|
            #![trigger call_ensures(M::with_capacity, (pairs.len(),), init)]
            call_ensures(M::with_capacity, (pairs.len(),), init) && call_ensures(
                extend_map_with::<M, K, V, RK, RV, FK, FV>,
                (init, tk, tv, pairs),
                m,
            ),
        exists|entries: Seq<(K, V)>|
            #![trigger transformed_pairs(tk, tv, pairs@, entries)]
            transformed_pairs(tk, tv, pairs@, entries) && (M::obeys_map_model() ==> m.entries()
                == insert_all(Map::empty(), entries)),
{
    let init = M::with_capacity(pairs.len());
    extend_map_with(init, tk, tv, pairs)
}

} // verus!
