//! A fixed-size worker pool whose dispatch and shutdown rules are verified,
//! together with a few small data structures and text utilities.
pub mod counting;
pub mod pool;
pub mod http;
pub mod linked_list;
pub mod minigrep;
pub mod blog;
pub mod restaurant;
pub mod basics;
pub mod summary;
pub mod records;
pub mod gui;
pub mod generics;
pub mod workout;
