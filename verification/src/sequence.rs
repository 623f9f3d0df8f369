//! The literals of sequential containers: a fixed-size array, a growable
//! vector and a list that is filled at its back.
//!
//! The items of a sequence literal stay in the order in which the literal
//! lists them. A coercing literal converts each item into the item type of
//! the container; the plain list literal takes its items as they are.
use crate::coercion::{coerce, coerced_items};
use std::collections::VecDeque;
use vstd::prelude::*;

verus! {

/// The array literal with a coercion of each item.
pub fn array_from<R, T, const N: usize>(items: [R; N]) -> (out: [T; N]) where R: Into<T>
    ensures
        coerced_items(items@, out@),
{
    items.map(coerce)
}

/// The vector literal with a coercion of each item.
pub fn vec_from<R, T>(items: Vec<R>) -> (out: Vec<T>) where R: Into<T>
    ensures
        coerced_items(items@, out@),
{
    let mut out: Vec<T> = Vec::with_capacity(items.len());
    let ghost raw = items@;
    for item in it: items
        invariant
            raw == it.seq(),
            coerced_items(raw.take(it.index() as int), out@),
    {
        let converted: T = coerce(item);
        out.push(converted);
    }
    out
}

/// The list literal: a new list to whose back each item of `items` is
/// appended, in the order of the literal.
pub fn list<T>(items: Vec<T>) -> (out: VecDeque<T>)
    ensures
        out@ == items@,
{
    let mut out: VecDeque<T> = VecDeque::new();
    let ghost raw = items@;
    for item in it: items
        invariant
            raw == it.seq(),
            out@ == raw.take(it.index() as int),
    {
        out.push_back(item);
    }
    out
}

/// The list literal with a coercion of each item: each item of `items` is
/// converted and appended to the back of a new list, in the order of the
/// literal.
pub fn list_from<R, T>(items: Vec<R>) -> (out: VecDeque<T>) where R: Into<T>
    ensures
        coerced_items(items@, out@),
{
    let mut out: VecDeque<T> = VecDeque::new();
    let ghost raw = items@;
    for item in it: items
        invariant
            raw == it.seq(),
            coerced_items(raw.take(it.index() as int), out@),
    {
        let converted: T = coerce(item);
        out.push_back(converted);
    }
    out
}

} // verus!
