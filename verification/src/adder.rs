//! Small functions written to be tested: adding two, greeting by name, and
//! a rectangle that can hold another.

use vstd::prelude::*;
use vstd::string::StringExecFns;

verus! {

/// A rectangle given by its side lengths.
#[derive(Debug)]
pub struct Rectangle {
    pub width: u32,
    pub height: u32,
}

impl Rectangle {
    /// Whether `other` fits inside `self`, edges allowed to touch.
    pub fn can_hold(&self, other: &Rectangle) -> (held: bool)
        ensures
            held == (self.width >= other.width && self.height >= other.height),
    {
        self.width >= other.width && self.height >= other.height
    }
}

/// Adds two to a number.
pub fn add_two(num: i32) -> (sum: i32)
    requires
        num <= i32::MAX - 2,
    ensures
        sum == num + 2,
{
    num + 2
}

/// Greets someone by name.
pub fn greeting(name: &str) -> (text: String)
    ensures
        text@ == "Hello "@ + name@,
{
    String::from_str("Hello ").concat(name)
}

} // verus!
