//! The axis selector used to address one field of an [`XY`].

use crate::xy::XY;
use vstd::prelude::*;

verus! {

/// One of the two axes along which a paired value is tracked.
#[derive(Clone, Copy, Debug, PartialEq, Eq, Hash, Structural)]
pub enum Orientation {
    /// The horizontal axis, which selects `x`.
    Horizontal,
    /// The vertical axis, which selects `y`.
    Vertical,
}

impl Orientation {
    /// Returns a clone of the value of `v` on this axis.
    pub fn get<T: Clone>(&self, v: &XY<T>) -> (r: T)
        ensures
            cloned(*v.spec_get(*self), r),
    {
        v.get(*self).clone()
    }

    /// Returns a mutable reference to the value of `v` on this axis.
    pub fn get_ref<'a, 'b, T>(&'a self, v: &'b mut XY<T>) -> (r: &'b mut T)
        ensures
            *r == *old(v).spec_get(*self),
            *final(v) == old(v).spec_with_axis(*self, *final(r)),
    {
        v.get_mut(*self)
    }
}

} // verus!
