//! The guessing game's checked guess and the verdict on it.

use vstd::prelude::*;

verus! {

/// A guess that is known to lie between zero and one hundred.
pub struct Guess {
    value: i32,
}

/// How a guess relates to the secret number.
pub enum Verdict {
    TooSmall,
    Correct,
    TooBig,
}

impl Guess {
    /// The guessed number.
    pub closed spec fn spec_value(&self) -> i32 {
        self.value
    }

    /// Wraps a number the player guessed. Out-of-range numbers are not
    /// guesses at all and are excluded up front.
    pub fn new(value: i32) -> (g: Guess)
        requires
            0 <= value <= 100,
        ensures
            g.spec_value() == value,
    {
        Guess { value }
    }

    /// Compares the guess against the secret number.
    pub fn check(&self, secret: i32) -> (v: Verdict)
        ensures
            self.spec_value() < secret ==> v is TooSmall,
            self.spec_value() == secret ==> v is Correct,
            self.spec_value() > secret ==> v is TooBig,
    {
        if self.value < secret {
            Verdict::TooSmall
        } else if self.value == secret {
            Verdict::Correct
        } else {
            Verdict::TooBig
        }
    }
}

} // verus!
