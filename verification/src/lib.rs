pub mod adder;
pub mod adder_internal;
pub mod art;
pub mod cacher;
pub mod coins;
pub mod cycle_list;
pub mod drop_list;
pub mod generics;
pub mod guess;
pub mod guessing;
pub mod ip;
pub mod minigrep;
pub mod rect_holds;
pub mod rect_methods;
pub mod rectangles;
pub mod restaurant;
pub mod shoes;
pub mod silly;
pub mod text;
pub mod users;
pub mod words;
