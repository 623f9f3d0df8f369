//! The shapes of a set literal, each as a function from the items of the
//! literal to the populated container.
//!
//! They are the shapes of a map literal without the value half: a literal
//! starts from a new container, sized to the number of its items, or
//! extends one that the caller hands in, and its tokens are coerced into
//! the item type of the container or transformed by a function of the
//! caller. As there, a missing capability or conversion is refused when the
//! call is compiled, and each contract speaks of some sequence of members
//! that the tokens may have given.
use crate::coercion::{coerce, coerced_items, coerces_to, transformed_items};
use crate::set_literal::SetLiteral;
use vstd::prelude::*;

verus! {

/// Inserts one item into `s`: `item` is coerced into the item type of `s`,
/// then inserted. Items whose tokens differ in type from one to the next
/// are inserted with one call each.
pub fn add_coerced<S, Item, R>(s: &mut S, item: R) where S: SetLiteral<Item>, R: Into<Item>
    ensures
        exists|member: Item|
            #![trigger coerces_to(item, member)]
            coerces_to(item, member) && (S::obeys_set_model() ==> final(s).members()
                == old(s).members().insert(member)),
{
    let member: Item = coerce(item);
    S::insert(s, member);
}

/// The literal that extends `init`: each item of `items` is coerced and
/// inserted into `init`, in the order of the literal, and `init` is
/// returned.
pub fn extend_set<S, Item, R>(init: S, items: Vec<R>) -> (s: S) where
    S: SetLiteral<Item>,
    R: Into<Item>,

    ensures
        exists|members: Seq<Item>|
            #![trigger coerced_items(items@, members)]
            coerced_items(items@, members) && (S::obeys_set_model() ==> s.members()
                == init.members().union(members.to_set())),
{
    let mut s = init;
    let ghost raw = items@;
    let ghost mut members: Seq<Item> = Seq::empty();
    for item in it: items
        invariant
            raw == it.seq(),
            coerced_items(raw.take(it.index() as int), members),
            S::obeys_set_model() ==> s.members() == init.members().union(members.to_set()),
    {
        let ghost before = s.members();
        add_coerced(&mut s, item);
        proof {
            let member = choose|member: Item|
                #![trigger coerces_to(item, member)]
                coerces_to(item, member) && (S::obeys_set_model() ==> s.members()
                    == before.insert(member));
            members.lemma_push_to_set_commute(member);
            members = members.push(member);
        }
    }
    proof {
        assert(raw.take(raw.len() as int) == raw);
    }
    s
}

/// The bare literal: a new container, created with the number of items as
/// its capacity hint, which the items of `items` then extend as in
/// `extend_set`.
pub fn build_set<S, Item, R>(items: Vec<R>) -> (s: S) where S: SetLiteral<Item>, R: Into<Item>
    ensures
        exists|init: S|
            #![trigger call_ensures(S::with_capacity, (items.len(),), init)]
            call_ensures(S::with_capacity, (items.len(),), init) && call_ensures(
                extend_set::<S, Item, R>,
                (init, items),
                s,
            ),
        exists|members: Seq<Item>|
            #![trigger coerced_items(items@, members)]
            coerced_items(items@, members) && (S::obeys_set_model() ==> s.members()
                == members.to_set()),
{
    let init = S::with_capacity(items.len());
    extend_set(init, items)
}

/// The literal that extends `init` through a transform: `t` is applied to
/// each raw item, in place of the coercion, and what it returns is
/// inserted into `init`, in the order of the literal.
pub fn extend_set_with<S, Item, R, F>(init: S, t: F, items: Vec<R>) -> (s: S) where
    S: SetLiteral<Item>,
    F: Fn(R) -> Item,

    requires
        forall|i: int| 0 <= i < items.len() ==> call_requires(t, (#[trigger] items[i],)),
    ensures
        exists|members: Seq<Item>|
            #![trigger transformed_items(t, items@, members)]
            transformed_items(t, items@, members) && (S::obeys_set_model() ==> s.members()
                == init.members().union(members.to_set())),
{
    let mut s = init;
    let ghost raw = items@;
    let ghost mut members: Seq<Item> = Seq::empty();
    for item in it: items
        invariant
            raw == it.seq(),
            forall|i: int| 0 <= i < raw.len() ==> call_requires(t, (#[trigger] raw[i],)),
            transformed_items(t, raw.take(it.index() as int), members),
            S::obeys_set_model() ==> s.members() == init.members().union(members.to_set()),
    {
        let member = t(item);
        S::insert(&mut s, member);
        proof {
            members.lemma_push_to_set_commute(member);
            members = members.push(member);
        }
    }
    proof {
        assert(raw.take(raw.len() as int) == raw);
    }
    s
}

/// The bare literal with a transform: a new container, created with the
/// number of items as its capacity hint, which the items of `items` then
/// extend as in `extend_set_with`.
pub fn build_set_with<S, Item, R, F>(t: F, items: Vec<R>) -> (s: S) where
    S: SetLiteral<Item>,
    F: Fn(R) -> Item,

    requires
        forall|i: int| 0 <= i < items.len() ==> call_requires(t, (#[trigger] items[i],)),
    ensures
        exists|init: S|
            #![trigger call_ensures(S::with_capacity, (items.len(),), init)]
            call_ensures(S::with_capacity, (items.len(),), init) && call_ensures(
                extend_set_with::<S, Item, R, F>,
                (init, t, items),
                s,
            ),
        exists|members: Seq<Item>|
            #![trigger transformed_items(t, items@, members)]
            transformed_items(t, items@, members) && (S::obeys_set_model() ==> s.members()
                == members.to_set()),
{
    let init = S::with_capacity(items.len());
    extend_set_with(init, t, items)
}

} // verus!
