//! The kitchen: orders and what it offers.
use vstd::prelude::*;
use vstd::string::StringExecFns;

verus! {

/// The fruit served with every summer breakfast.
pub const SUMMER_FRUIT: &'static str = "peaches";

/// A breakfast: the guest picks the toast, the kitchen picks the fruit.
pub struct Breakfast {
    pub toast: String,
    seasonal_fruit: String,
}

impl Breakfast {
    /// The toast the guest chose.
    pub closed spec fn toast_choice(&self) -> Seq<char> {
        self.toast@
    }

    /// The fruit the kitchen chose.
    pub closed spec fn fruit(&self) -> Seq<char> {
        self.seasonal_fruit@
    }

    /// A summer breakfast with the given toast.
    pub fn summer(toast: &str) -> (r: Breakfast)
        ensures
            r.toast_choice() == toast@,
            r.fruit() == SUMMER_FRUIT@,
    {
        Breakfast { toast: String::from_str(toast), seasonal_fruit: String::from_str(SUMMER_FRUIT) }
    }
}

/// The starters on offer.
#[derive(Clone, Copy, Debug, PartialEq, Eq, Structural)]
pub enum Appetizer {
    Soup,
    Salad,
}

/// Redoes a wrong order and sends it out again.
pub fn fix_incorrect_order() {
    cook_order();
    crate::restaurant::serve_order();
}

/// Cooks an order.
pub fn cook_order() {
}

} // verus!
