//! Laws that relate the operations on [`XY`] to one another.

use crate::direction::Orientation;
use crate::xy::XY;
use vstd::prelude::*;
use vstd::std_specs::convert::FromSpec;

verus! {

/// Turning a container into an ordered pair and back gives the container again, and
/// turning an ordered pair into a container and back gives the pair again.
pub proof fn lemma_pair_round_trip<T>(v: XY<T>, p: (T, T))
    ensures
        XY::<T>::from_spec(v.pair()) == v,
        XY::<T>::from_spec(p).pair() == p,
{
}

/// Reading an axis of `v1.zip_map(v2, f)` gives what `f` returns on the values that
/// `v1` and `v2` hold on that axis.
pub proof fn lemma_zip_map_get<T, U, V, F: Fn(T, U) -> V>(v1: XY<T>, v2: XY<U>, f: F, r: XY<V>)
    requires
        v1.zip_map_yields(v2, f, r),
    ensures
        f.ensures(
            (*v1.get(Orientation::Horizontal), *v2.get(Orientation::Horizontal)),
            *r.get(Orientation::Horizontal),
        ),
        f.ensures(
            (*v1.get(Orientation::Vertical), *v2.get(Orientation::Vertical)),
            *r.get(Orientation::Vertical),
        ),
{
}

/// Broadcasting a flag to both axes gives a pair of which `any` and `both` are that
/// flag: `any` holds of the pair made from `true`, and `both` fails of the pair made
/// from `false`.
pub proof fn lemma_both_from_any_both(flag: bool)
    ensures
        XY::both_from(flag).any() == flag,
        XY::both_from(flag).both() == flag,
        XY::both_from(true).any() == true,
        XY::both_from(false).both() == false,
{
}

/// Selecting from `if_true` and then filling the axes left empty from `if_false` gives
/// what `select_or` gives.
pub proof fn lemma_select_or_is_select_then_unwrap_or<T>(
    c: XY<bool>,
    if_true: XY<T>,
    if_false: XY<T>,
)
    ensures
        c.select_or(if_true, if_false) == c.select(if_true).unwrap_or(if_false),
{
}

/// Replacing the value on one axis changes what is read on that axis, and leaves what
/// is read on the other axis as it was.
pub proof fn lemma_with_axis_get<T>(v: XY<T>, o: Orientation, read: Orientation, value: T)
    ensures
        *v.spec_with_axis(o, value).get(o) == value,
        read != o ==> v.spec_with_axis(o, value).get(read) == v.get(read),
{
}

} // verus!
