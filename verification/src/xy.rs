//! The two-axis container and its combinators.

use crate::direction::Orientation;
use vstd::prelude::*;
use vstd::std_specs::cmp::PartialEqSpec;
use vstd::std_specs::cmp::PartialEqSpecImpl;
use vstd::std_specs::convert::FromSpecImpl;

verus! {

/// A generic structure with a value for each axis.
#[derive(Debug, Copy, Eq, Hash)]
pub struct XY<T> {
    /// X-axis value
    pub x: T,
    /// Y-axis value
    pub y: T,
}

impl<T: Clone> Clone for XY<T> {
    /// Clones each axis on its own.
    fn clone(&self) -> (r: Self)
        ensures
            cloned(self.x, r.x),
            cloned(self.y, r.y),
    {
        XY { x: self.x.clone(), y: self.y.clone() }
    }
}

impl<T: PartialEq> PartialEq for XY<T> {
    /// Compares axis by axis.
    fn eq(&self, other: &Self) -> (r: bool) {
        self.x == other.x && self.y == other.y
    }
}

impl<T: PartialEq> PartialEqSpecImpl for XY<T> {
    open spec fn obeys_eq_spec() -> bool {
        T::obeys_eq_spec()
    }

    open spec fn eq_spec(&self, other: &Self) -> bool {
        self.x.eq_spec(&other.x) && self.y.eq_spec(&other.y)
    }
}

impl<T> XY<T> {
    /// The value on the given axis.
    pub open spec fn spec_get(&self, o: Orientation) -> &T {
        match o {
            Orientation::Horizontal => &self.x,
            Orientation::Vertical => &self.y,
        }
    }

    /// The pair that agrees with `self` except on axis `o`, where it holds `value`.
    pub open spec fn spec_with_axis(self, o: Orientation, value: T) -> Self {
        match o {
            Orientation::Horizontal => XY { x: value, y: self.y },
            Orientation::Vertical => XY { x: self.x, y: value },
        }
    }

    /// The ordered pair `(x, y)`.
    pub open spec fn spec_pair(self) -> (T, T) {
        (self.x, self.y)
    }

    /// The pair of tuples that holds, on each axis, the values of `self` and `other`.
    pub open spec fn spec_zip<U>(self, other: XY<U>) -> XY<(T, U)> {
        XY { x: (self.x, other.x), y: (self.y, other.y) }
    }

    /// Whether `r` is a pair that `self.zip_map(other, f)` may return: on each axis it
    /// holds a value that `f` returns on the values of `self` and `other` on that axis.
    pub open spec fn zip_map_yields<U, V, F>(self, other: XY<U>, f: F, r: XY<V>) -> bool where
        F: Fn(T, U) -> V,
    {
        &&& f.ensures((self.x, other.x), r.x)
        &&& f.ensures((self.y, other.y), r.y)
    }

    /// Creates a new `XY` from the given values.
    pub fn new(x: T, y: T) -> (r: Self)
        ensures
            r.x == x,
            r.y == y,
    {
        XY { x: x, y: y }
    }

    /// Returns `f(self.x, self.y)`.
    ///
    /// `f` must accept the two values in that order.
    pub fn fold<U, F>(self, f: F) -> (r: U) where F: FnOnce(T, T) -> U
        requires
            f.requires((self.x, self.y)),
        ensures
            f.ensures((self.x, self.y), r),
    {
        f(self.x, self.y)
    }

    /// Creates a new `XY` by applying `f` to `x` and `y`.
    ///
    /// `f` must accept each of the two values; each axis of the result is what `f`
    /// returns on the same axis of `self`.
    pub fn map<U, F>(self, f: F) -> (r: XY<U>) where F: Fn(T) -> U
        requires
            f.requires((self.x,)),
            f.requires((self.y,)),
        ensures
            f.ensures((self.x,), r.x),
            f.ensures((self.y,), r.y),
    {
        XY::new(f(self.x), f(self.y))
    }

    /// Applies `f` on axis where `condition` is true.
    ///
    /// Carries over `self` otherwise. `f` must accept the values on the axes where
    /// `condition` is true, and is not called on the others.
    pub fn map_if<F>(self, condition: XY<bool>, f: F) -> (r: Self) where F: Fn(T) -> T
        requires
            condition.x ==> f.requires((self.x,)),
            condition.y ==> f.requires((self.y,)),
        ensures
            condition.x ==> f.ensures((self.x,), r.x),
            !condition.x ==> r.x == self.x,
            condition.y ==> f.ensures((self.y,), r.y),
            !condition.y ==> r.y == self.y,
    {
        let f = &f;
        let pick = |v: T, c: bool| -> (w: T)
            requires
                c ==> f.requires((v,)),
            ensures
                c ==> f.ensures((v,), w),
                !c ==> w == v,
            {
                if c {
                    f(v)
                } else {
                    v
                }
            };
        self.zip_map(condition, pick)
    }

    /// Creates a new `XY` by applying `f` to `x`, and carrying `y` over.
    pub fn map_x<F>(self, f: F) -> (r: Self) where F: FnOnce(T) -> T
        requires
            f.requires((self.x,)),
        ensures
            f.ensures((self.x,), r.x),
            r.y == self.y,
    {
        XY::new(f(self.x), self.y)
    }

    /// Creates a new `XY` by applying `f` to `y`, and carrying `x` over.
    pub fn map_y<F>(self, f: F) -> (r: Self) where F: FnOnce(T) -> T
        requires
            f.requires((self.y,)),
        ensures
            r.x == self.x,
            f.ensures((self.y,), r.y),
    {
        XY::new(self.x, f(self.y))
    }

    /// Destructure self into a pair.
    #[verifier::when_used_as_spec(spec_pair)]
    pub fn pair(self) -> (p: (T, T))
        ensures
            p == self.spec_pair(),
    {
        (self.x, self.y)
    }

    /// Return a `XY` with references to this one's values.
    pub fn as_ref(&self) -> (r: XY<&T>)
        ensures
            r.x == &self.x,
            r.y == &self.y,
    {
        XY::new(&self.x, &self.y)
    }

    /// Returns the two values by reference, in a fixed order: `x`, then `y`.
    pub fn iter(&self) -> (r: [&T; 2])
        ensures
            r@ == seq![&self.x, &self.y],
    {
        [&self.x, &self.y]
    }

    /// Returns a reference to the value on the given axis.
    #[verifier::when_used_as_spec(spec_get)]
    pub fn get(&self, o: Orientation) -> (r: &T)
        ensures
            r == self.spec_get(o),
    {
        match o {
            Orientation::Horizontal => &self.x,
            Orientation::Vertical => &self.y,
        }
    }

    /// Returns a mutable reference to the value on the given axis.
    ///
    /// Once the borrow ends, `self` holds on that axis what was last written through
    /// the reference, and on the other axis what it held before.
    pub fn get_mut(&mut self, o: Orientation) -> (r: &mut T)
        ensures
            *r == *old(self).spec_get(o),
            *final(self) == old(self).spec_with_axis(o, *final(r)),
    {
        match o {
            Orientation::Horizontal => &mut self.x,
            Orientation::Vertical => &mut self.y,
        }
    }

    /// Returns a new `XY` of tuples made by zipping `self` and `other`.
    #[verifier::when_used_as_spec(spec_zip)]
    pub fn zip<U>(self, other: XY<U>) -> (r: XY<(T, U)>)
        ensures
            r == self.spec_zip(other),
    {
        XY::new((self.x, other.x), (self.y, other.y))
    }

    /// Returns a new `XY` by calling `f` on `self` and `other` for each axis.
    ///
    /// `f` must accept the values of `self` and `other` on `x`, and those on `y`.
    pub fn zip_map<U, V, F>(self, other: XY<U>, f: F) -> (r: XY<V>) where F: Fn(T, U) -> V
        requires
            f.requires((self.x, other.x)),
            f.requires((self.y, other.y)),
        ensures
            self.zip_map_yields(other, f, r),
    {
        XY::new(f(self.x, other.x), f(self.y, other.y))
    }
}

impl<T: Clone> XY<T> {
    /// Returns a new `XY` with the axis `o` set to `value`.
    ///
    /// The other axis is cloned from `self`.
    pub fn with_axis(&self, o: Orientation, value: T) -> (r: Self)
        ensures
            o is Horizontal ==> r.x == value && cloned(self.y, r.y),
            o is Vertical ==> cloned(self.x, r.x) && r.y == value,
    {
        let mut new = self.clone();
        *o.get_ref(&mut new) = value;
        new
    }

    /// Returns a new `XY` with the axis `o` set to the value from `other`.
    ///
    /// Both axes are clones: axis `o` of `other`'s, the other axis of `self`'s.
    pub fn with_axis_from(&self, o: Orientation, other: &Self) -> (r: Self)
        ensures
            o is Horizontal ==> cloned(other.x, r.x) && cloned(self.y, r.y),
            o is Vertical ==> cloned(self.x, r.x) && cloned(other.y, r.y),
    {
        let mut new = self.clone();
        new.set_axis_from(o, other);
        new
    }

    /// Sets the axis `o` on `self` to the value from `other`.
    ///
    /// The new value is a clone of `other`'s; the other axis of `self` stays as it was.
    pub fn set_axis_from(&mut self, o: Orientation, other: &Self)
        ensures
            o is Horizontal ==> cloned(other.x, final(self).x) && final(self).y == old(self).y,
            o is Vertical ==> final(self).x == old(self).x && cloned(other.y, final(self).y),
    {
        *o.get_ref(self) = o.get(other);
    }
}

impl<T> XY<Option<T>> {
    /// The pair that holds, on each axis, the value of `self` where there is one
    /// and that of `other` where there is none.
    pub open spec fn spec_unwrap_or(self, other: XY<T>) -> XY<T> {
        XY { x: self.x.unwrap_or(other.x), y: self.y.unwrap_or(other.y) }
    }

    /// Returns a new `XY` by calling `unwrap_or` on each axis.
    #[verifier::when_used_as_spec(spec_unwrap_or)]
    pub fn unwrap_or(self, other: XY<T>) -> (r: XY<T>)
        ensures
            r == self.spec_unwrap_or(other),
    {
        let or_default = |value: Option<T>, default: T| -> (v: T)
            ensures
                v == value.unwrap_or(default),
            { value.unwrap_or(default) };
        self.zip_map(other, or_default)
    }
}

impl XY<bool> {
    /// Whether at least one axis is set.
    pub open spec fn spec_any(&self) -> bool {
        self.x || self.y
    }

    /// Whether both axes are set.
    pub open spec fn spec_both(&self) -> bool {
        self.x && self.y
    }

    /// The pair that holds `other` on the axes that are set in `self`, and nothing elsewhere.
    pub open spec fn spec_select<T>(&self, other: XY<T>) -> XY<Option<T>> {
        XY {
            x: if self.x {
                Some(other.x)
            } else {
                None
            },
            y: if self.y {
                Some(other.y)
            } else {
                None
            },
        }
    }

    /// The pair that holds `if_true` on the axes that are set in `self`, and `if_false`
    /// on the others.
    pub open spec fn spec_select_or<T>(&self, if_true: XY<T>, if_false: XY<T>) -> XY<T> {
        XY {
            x: if self.x {
                if_true.x
            } else {
                if_false.x
            },
            y: if self.y {
                if_true.y
            } else {
                if_false.y
            },
        }
    }

    /// Returns `true` if any of `x` or `y` is `true`.
    #[verifier::when_used_as_spec(spec_any)]
    pub fn any(&self) -> (r: bool)
        ensures
            r == self.spec_any(),
    {
        let or = |a: bool, b: bool| -> (c: bool)
            ensures
                c == (a || b),
            { a || b };
        self.fold(or)
    }

    /// Returns `true` if both `x` and `y` are `true`.
    #[verifier::when_used_as_spec(spec_both)]
    pub fn both(&self) -> (r: bool)
        ensures
            r == self.spec_both(),
    {
        let and = |a: bool, b: bool| -> (c: bool)
            ensures
                c == (a && b),
            { a && b };
        self.fold(and)
    }

    /// For each axis, keeps elements from `other` if `self` is `true`.
    #[verifier::when_used_as_spec(spec_select)]
    pub fn select<T>(&self, other: XY<T>) -> (r: XY<Option<T>>)
        ensures
            r == self.spec_select(other),
    {
        let keep_if = |keep: bool, o: T| -> (kept: Option<T>)
            ensures
                keep ==> kept == Some(o),
                !keep ==> kept is None,
            {
                if keep {
                    Some(o)
                } else {
                    None
                }
            };
        self.zip_map(other, keep_if)
    }

    /// For each axis, selects `if_true` if `self` is true, else `if_false`.
    #[verifier::when_used_as_spec(spec_select_or)]
    pub fn select_or<T>(&self, if_true: XY<T>, if_false: XY<T>) -> (r: XY<T>)
        ensures
            r == self.spec_select_or(if_true, if_false),
    {
        self.select(if_true).unwrap_or(if_false)
    }
}

impl<T: Copy> XY<T> {
    /// The pair that holds `value` on both axes.
    pub open spec fn spec_both_from(value: T) -> Self {
        XY { x: value, y: value }
    }

    /// Creates a `XY` with both `x` and `y` set to `value`.
    #[verifier::when_used_as_spec(spec_both_from)]
    pub fn both_from(value: T) -> (r: Self)
        ensures
            r == Self::spec_both_from(value),
    {
        XY::new(value, value)
    }
}

impl<T> From<(T, T)> for XY<T> {
    /// Builds the pair whose `x` is the first component and whose `y` is the second.
    fn from(pair: (T, T)) -> (r: Self) {
        let (x, y) = pair;
        XY::new(x, y)
    }
}

impl<T> FromSpecImpl<(T, T)> for XY<T> {
    open spec fn obeys_from_spec() -> bool {
        true
    }

    open spec fn from_spec(pair: (T, T)) -> Self {
        XY { x: pair.0, y: pair.1 }
    }
}

impl<T, U> From<(XY<T>, XY<U>)> for XY<(T, U)> {
    /// Zips the two pairs.
    fn from(pair: (XY<T>, XY<U>)) -> (r: Self) {
        let (t, u) = pair;
        t.zip(u)
    }
}

impl<T, U> FromSpecImpl<(XY<T>, XY<U>)> for XY<(T, U)> {
    open spec fn obeys_from_spec() -> bool {
        true
    }

    open spec fn from_spec(pair: (XY<T>, XY<U>)) -> Self {
        pair.0.spec_zip(pair.1)
    }
}

} // verus!
