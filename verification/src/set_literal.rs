//! The construction capability of set-like containers.
use std::collections::{BTreeSet, HashSet};
use std::hash::Hash;
use vstd::laws_cmp::obeys_cmp;
use vstd::prelude::*;
use vstd::std_specs::hash::obeys_key_model;

verus! {

/// Interface between set literals and set data types.
///
/// A container type that can be created empty and filled item by item can
/// be the target of a set literal.
pub trait SetLiteral<Item>: Sized {
    /// The items that the container holds. A type that does not say what
    /// it holds is taken to hold nothing, and then promises nothing of
    /// `insert` either.
    open spec fn members(&self) -> Set<Item> {
        Set::empty()
    }

    /// Whether `insert` follows the set model for items of type `Item`: a
    /// hash table needs hashing and equality that agree with `==` on
    /// `Item`, a search tree an ordering that does. A type that does not
    /// say so makes no promise.
    open spec fn obeys_set_model() -> bool {
        false
    }

    /// Returns an empty container.
    fn new() -> (s: Self)
        ensures
            s.members() == Set::<Item>::empty(),
    ;

    /// Adds `item` to `s`. Nothing changes where `s` held it already.
    fn insert(s: &mut Self, item: Item)
        ensures
            Self::obeys_set_model() ==> final(s).members() == old(s).members().insert(item),
    ;

    /// Returns an empty container that has room for `n` items, where the
    /// type has a notion of capacity. A type that has none leaves this to
    /// the default, which returns what `new` returns. The hint is never
    /// observable in the members.
    fn with_capacity(n: usize) -> (s: Self)
        ensures
            s.members() == Set::<Item>::empty(),
        default_ensures
            call_ensures(Self::new, (), s),
    {
        Self::new()
    }
}

/// A hash set is filled as its view is: it follows the set model for each
/// item type that follows the key model of hash tables.
impl<Item> SetLiteral<Item> for HashSet<Item> where Item: Eq + Hash {
    open spec fn members(&self) -> Set<Item> {
        self@
    }

    open spec fn obeys_set_model() -> bool {
        obeys_key_model::<Item>()
    }

    fn new() -> (s: Self) {
        HashSet::new()
    }

    fn insert(s: &mut Self, item: Item) {
        s.insert(item);
    }

    fn with_capacity(n: usize) -> (s: Self) {
        HashSet::with_capacity(n)
    }
}

/// An ordered set is filled as its view is: it follows the set model for
/// each item type whose comparison is a total order that agrees with `==`.
/// It has no notion of capacity.
impl<Item> SetLiteral<Item> for BTreeSet<Item> where Item: Ord {
    open spec fn members(&self) -> Set<Item> {
        self@
    }

    open spec fn obeys_set_model() -> bool {
        obeys_cmp::<Item>()
    }

    fn new() -> (s: Self) {
        BTreeSet::new()
    }

    fn insert(s: &mut Self, item: Item) {
        s.insert(item);
    }
}

} // verus!
