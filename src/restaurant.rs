//! A restaurant laid out as nested modules.
use vstd::prelude::*;
use crate::restaurant::hosting::add_to_waitlist;

pub mod back_of_house;
pub mod hosting;

pub use crate::restaurant::back_of_house::Appetizer;

verus! {

/// Puts three parties on the waiting list.
pub fn eat_at_diner() {
    add_to_waitlist();
    add_to_waitlist();
    add_to_waitlist();
}

/// Brings a finished order to the table.
pub(crate) fn serve_order() {
}

} // verus!
