//! What this library takes on trust of std: the contracts of the two
//! functions of std that literals reach and that vstd does not specify.
//! Verus believes them without proof.
use vstd::prelude::*;

verus! {

/// `From::from` of std where the source type is the target type, the
/// conversion that every type has into itself. Taken on trust of std: that
/// it returns its argument unchanged.
pub assume_specification<Same>[ <Same as core::convert::From<Same>>::from ](value: Same) -> (out:
    Same)
    ensures
        out == value,
;

/// `map` of the arrays of std. Taken on trust of std: that it calls `f` on
/// items of the array only, and returns an array of the same size whose
/// item at each position is what `f` returned for the item of `items` at
/// that position.
pub assume_specification<Elem, const LEN: usize, Func, Image>[ <[Elem; LEN]>::map ](
    items: [Elem; LEN],
    f: Func,
) -> (out: [Image; LEN]) where Func: FnMut(Elem) -> Image
    requires
        forall|i: int| 0 <= i < LEN ==> call_requires(f, (#[trigger] items@[i],)),
    ensures
        forall|i: int| 0 <= i < LEN ==> call_ensures(f, (items@[i],), #[trigger] out@[i]),
;

} // verus!
