//! Plain records: user accounts, rectangles and a bounded counter.
use vstd::prelude::*;

verus! {

/// A user account.
pub struct User {
    pub username: String,
    pub email: String,
    pub sign_in_count: u64,
    pub active: bool,
}

/// A new, active account that has signed in once.
pub fn build_user(email: String, username: String) -> (r: User)
    ensures
        r.email == email,
        r.username == username,
        r.sign_in_count == 1,
        r.active,
{
    User { email, username, sign_in_count: 1, active: true }
}

/// An axis-aligned rectangle.
#[derive(Clone, Copy, Debug, PartialEq, Eq, Structural)]
pub struct Rectangle {
    pub width: u32,
    pub height: u32,
}

impl Rectangle {
    /// Width times height.
    pub fn area(&self) -> (r: u32)
        requires
            self.width * self.height <= u32::MAX,
        ensures
            r == self.width * self.height,
    {
        self.width * self.height
    }

    /// Whether `other` fits strictly inside `self`.
    pub fn can_hold(&self, other: &Rectangle) -> (r: bool)
        ensures
            r == (self.height > other.height && self.width > other.width),
    {
        self.height > other.height && self.width > other.width
    }

    /// A square with sides of `size`.
    pub fn square(size: u32) -> (r: Rectangle)
        ensures
            r.width == size,
            r.height == size,
    {
        Rectangle { height: size, width: size }
    }
}

/// The last value a `Counter` hands out.
pub const COUNTER_LIMIT: u32 = 5;

/// Counts from 1 up to `COUNTER_LIMIT`, one value per call of `next`.
pub struct Counter {
    count: u32,
}

impl Counter {
    /// The values handed out so far.
    pub closed spec fn count(&self) -> u32 {
        self.count
    }

    /// A counter that has handed out nothing yet.
    pub fn new() -> (r: Counter)
        ensures
            r.count() == 0,
    {
        Counter { count: 0 }
    }

    /// The next value, or `None` once `COUNTER_LIMIT` has been handed out.
    pub fn next(&mut self) -> (r: Option<u32>)
        ensures
            old(self).count() < COUNTER_LIMIT ==> final(self).count() == old(self).count() + 1
                && r == Some(final(self).count()),
            old(self).count() >= COUNTER_LIMIT ==> final(self).count() == old(self).count()
                && r is None,
    {
        if self.count < COUNTER_LIMIT {
            self.count += 1;
            Some(self.count)
        } else {
            None
        }
    }
}

} // verus!
