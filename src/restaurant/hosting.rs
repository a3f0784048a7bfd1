//! The front of the house: greeting and seating guests.
use vstd::prelude::*;

verus! {

/// Adds a party to the waiting list.
pub fn add_to_waitlist() {
}

/// Shows a party to its table.
pub fn seat_at_table() {
}

} // verus!
