//! Generic points and functions over any ordered or printable type.
use vstd::prelude::*;

verus! {

/// A point whose coordinates share one type.
pub struct Point<T> {
    pub x: T,
    pub y: T,
}

impl<T> Point<T> {
    /// The first coordinate.
    pub fn x(&self) -> (r: &T)
        ensures
            *r == self.x,
    {
        &self.x
    }
}

/// A point whose coordinates may have different types.
pub struct Point2<T, U> {
    pub x: T,
    pub y: U,
}

impl<T, U> Point2<T, U> {
    /// A point with the first coordinate of `self` and the second of `other`.
    pub fn swap_stuff<V, W>(self, other: Point2<V, W>) -> (r: Point2<T, W>)
        ensures
            r.x == self.x,
            r.y == other.y,
    {
        Point2 { x: self.x, y: other.y }
    }
}

/// The largest element of a non-empty list, by `>`.
pub fn largest<T: PartialOrd + Copy>(list: &[T]) -> (r: T)
    requires
        list@.len() > 0,
    ensures
        list@.contains(r),
{
    let mut largest = list[0];
    let mut i: usize = 1;
    while i < list.len()
        invariant
            1 <= i <= list@.len(),
            list@.contains(largest),
        decreases list@.len() - i,
    {
        let item = list[i];
        if item > largest {
            largest = item;
        }
        i += 1;
    }
    largest
}

/// Accepts any printable, clonable `t` and any clonable, debuggable `u`; the
/// answer does not depend on them.
pub fn some_function<T: std::fmt::Display + Clone, U: Clone + std::fmt::Debug>(t: T, u: U) -> (r: i32)
    ensures
        r == 1,
{
    1
}

/// The same contract as `some_function`, with its bounds in a `where` clause.
pub fn some_other_function<T, U>(t: T, u: U) -> (r: i32)
    where
        T: std::fmt::Display + Clone,
        U: Clone + std::fmt::Debug,
    ensures
        r == 1,
{
    1
}

} // verus!
