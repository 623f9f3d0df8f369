//! How the raw tokens of a literal become the elements of a container.
//!
//! A token is either coerced, by the conversion that its type has into the
//! element type, or transformed, by a function that the caller supplies.
//! Both are executable code that need not be deterministic, so the
//! predicates here relate a raw token to each value that the conversion or
//! the function may return for it.
use vstd::prelude::*;

verus! {

/// Whether the conversion of `raw` into `U` may return `out`.
pub open spec fn coerces_to<T, U>(raw: T, out: U) -> bool where T: Into<U> {
    call_ensures(T::into, (raw,), out)
}

/// Whether `out` holds, position by position, a value that `f` may return
/// for the item of `raw` at that position.
pub open spec fn transformed_items<T, U, F>(f: F, raw: Seq<T>, out: Seq<U>) -> bool where
    F: Fn(T) -> U,
 {
    &&& out.len() == raw.len()
    &&& forall|i: int| #![trigger out[i]] 0 <= i < raw.len() ==> call_ensures(f, (raw[i],), out[i])
}

/// Whether `out` holds, position by position, a key that `tk` may return
/// for the raw key at that position and a value that `tv` may return for
/// the raw value.
pub open spec fn transformed_pairs<RK, RV, K, V, FK, FV>(
    tk: FK,
    tv: FV,
    raw: Seq<(RK, RV)>,
    out: Seq<(K, V)>,
) -> bool where FK: Fn(RK) -> K, FV: Fn(RV) -> V {
    &&& out.len() == raw.len()
    &&& forall|i: int|
        #![trigger out[i]]
        0 <= i < raw.len() ==> call_ensures(tk, (raw[i].0,), out[i].0) && call_ensures(
            tv,
            (raw[i].1,),
            out[i].1,
        )
}

/// Whether `out` holds, position by position, a value that the conversion
/// into `U` may return for the item of `raw` at that position.
pub open spec fn coerced_items<T, U>(raw: Seq<T>, out: Seq<U>) -> bool where T: Into<U> {
    transformed_items(T::into, raw, out)
}

/// Whether `out` holds, position by position, the pair that the
/// conversions into `K` and into `V` may return for the raw pair at that
/// position.
pub open spec fn coerced_pairs<RK, RV, K, V>(raw: Seq<(RK, RV)>, out: Seq<(K, V)>) -> bool where
    RK: Into<K>,
    RV: Into<V>,
 {
    transformed_pairs(RK::into, RV::into, raw, out)
}

/// Whether `f` returns one value only for each argument.
pub open spec fn single_valued<T, U, F>(f: F) -> bool where F: Fn(T) -> U {
    forall|x: T, a: U, b: U|
        #![trigger call_ensures(f, (x,), a), call_ensures(f, (x,), b)]
        call_ensures(f, (x,), a) && call_ensures(f, (x,), b) ==> a == b
}

/// The implicit conversion of one token into the element type `U`.
pub fn coerce<T, U>(raw: T) -> (out: U) where T: Into<U>
    ensures
        coerces_to(raw, out),
{
    raw.into()
}

} // verus!
