//! Coin denominations and a small exercise on `Option` arithmetic.

use vstd::prelude::*;

verus! {

/// The four coins of United States currency.
pub enum Coin {
    Penny,
    Nikel,
    Dime,
    Quarter,
}

/// The worth of a coin in cents.
pub open spec fn spec_value_in_cents(c: Coin) -> u8 {
    match c {
        Coin::Penny => 1,
        Coin::Nikel => 5,
        Coin::Dime => 10,
        Coin::Quarter => 25,
    }
}

/// Returns how many cents a coin is worth.
pub fn values_in_cents(c: Coin) -> (cents: u8)
    ensures
        cents == spec_value_in_cents(c),
{
    match c {
        Coin::Penny => 1,
        Coin::Nikel => 5,
        Coin::Dime => 10,
        Coin::Quarter => 25,
    }
}

/// Adds one to the number held by an `Option`, when there is one.
///
/// `None` stays `None`; `Some(i)` becomes `Some(i + 1)`.
pub fn plus_one(num: Option<i32>) -> (res: Option<i32>)
    requires
        num matches Some(i) ==> i < i32::MAX,
    ensures
        match num {
            None => res is None,
            Some(i) => res == Some((i + 1) as i32),
        },
{
    match num {
        None => None,
        Some(i) => Some(i + 1),
    }
}

} // verus!
