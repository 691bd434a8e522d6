//! A guess bounded between one and one hundred.

use vstd::prelude::*;

verus! {

/// A number that is known to lie between one and one hundred.
pub struct Guess {
    value: i32,
}

impl Guess {
    /// The number held.
    pub closed spec fn spec_value(&self) -> i32 {
        self.value
    }

    /// Wraps a number. Out-of-range numbers are no guesses at all and are
    /// excluded up front.
    pub fn new(value: i32) -> (g: Guess)
        requires
            1 <= value <= 100,
        ensures
            g.spec_value() == value,
    {
        Guess { value }
    }

    /// Hands the number back out.
    pub fn get(g: &Guess) -> (value: i32)
        ensures
            value == g.spec_value(),
    {
        g.value
    }
}

} // verus!
