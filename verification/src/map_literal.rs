//! The construction capability of map-like containers.
use std::collections::{BTreeMap, HashMap};
use std::hash::Hash;
use vstd::laws_cmp::obeys_cmp;
use vstd::prelude::*;
use vstd::std_specs::hash::obeys_key_model;

verus! {

/// Interface between map literals and map data types.
///
/// A container type that can be created empty and filled pair by pair can
/// be the target of a map literal.
pub trait MapLiteral<K, V>: Sized {
    /// The key/value pairs that the container holds. A type that does not
    /// say what it holds is taken to hold nothing, and then promises
    /// nothing of `insert` either.
    open spec fn entries(&self) -> Map<K, V> {
        Map::empty()
    }

    /// Whether `insert` follows the map model for keys of type `K`: a hash
    /// table needs hashing and equality that agree with `==` on `K`, a
    /// search tree an ordering that does. A type that does not say so
    /// makes no promise.
    open spec fn obeys_map_model() -> bool {
        false
    }

    /// Returns an empty container.
    fn new() -> (m: Self)
        ensures
            m.entries() == Map::<K, V>::empty(),
    ;

    /// Adds the pair of `k` and `v` to `m`. A value that `m` held under `k`
    /// is replaced.
    fn insert(m: &mut Self, k: K, v: V)
        ensures
            Self::obeys_map_model() ==> final(m).entries() == old(m).entries().insert(k, v),
    ;

    /// Returns an empty container that has room for `n` pairs, where the
    /// type has a notion of capacity. A type that has none leaves this to
    /// the default, which returns what `new` returns. The hint is never
    /// observable in the entries.
    fn with_capacity(n: usize) -> (m: Self)
        ensures
            m.entries() == Map::<K, V>::empty(),
        default_ensures
            call_ensures(Self::new, (), m),
    {
        Self::new()
    }
}

/// A hash map is filled as its view is: it follows the map model for each
/// key type that follows the key model of hash tables.
impl<K, V> MapLiteral<K, V> for HashMap<K, V> where K: Eq + Hash {
    open spec fn entries(&self) -> Map<K, V> {
        self@
    }

    open spec fn obeys_map_model() -> bool {
        obeys_key_model::<K>()
    }

    fn new() -> (m: Self) {
        HashMap::new()
    }

    fn insert(m: &mut Self, k: K, v: V) {
        m.insert(k, v);
    }

    fn with_capacity(n: usize) -> (m: Self) {
        HashMap::with_capacity(n)
    }
}

/// An ordered map is filled as its view is: it follows the map model for
/// each key type whose comparison is a total order that agrees with `==`.
/// It has no notion of capacity.
impl<K, V> MapLiteral<K, V> for BTreeMap<K, V> where K: Ord {
    open spec fn entries(&self) -> Map<K, V> {
        self@
    }

    open spec fn obeys_map_model() -> bool {
        obeys_cmp::<K>()
    }

    fn new() -> (m: Self) {
        BTreeMap::new()
    }

    fn insert(m: &mut Self, k: K, v: V) {
        m.insert(k, v);
    }
}

} // verus!
