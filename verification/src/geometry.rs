//! Plain coordinate tuples passed by value into drawing calls.

use vstd::prelude::*;

verus! {

/// A pair of coordinates in two dimensions.
#[derive(Clone, Copy, Debug, PartialEq)]
pub struct Point2<T>(pub T, pub T);

impl<T> Point2<T> {
    pub fn new(a: T, b: T) -> (r: Self)
        ensures
            r.0 == a,
            r.1 == b,
    {
        Point2(a, b)
    }
}

/// A triple of coordinates.
#[derive(Clone, Copy, Debug, PartialEq)]
pub struct Point3<T>(pub T, pub T, pub T);

impl<T> Point3<T> {
    pub fn new(a: T, b: T, c: T) -> (r: Self)
        ensures
            r.0 == a,
            r.1 == b,
            r.2 == c,
    {
        Point3(a, b, c)
    }
}

/// A quadruple of coordinates.
#[derive(Clone, Copy, Debug, PartialEq)]
pub struct Point4<T>(pub T, pub T, pub T, pub T);

impl<T> Point4<T> {
    pub fn new(a: T, b: T, c: T, d: T) -> (r: Self)
        ensures
            r.0 == a,
            r.1 == b,
            r.2 == c,
            r.3 == d,
    {
        Point4(a, b, c, d)
    }
}

} // verus!
