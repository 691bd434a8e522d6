//! Adding two through a helper, so both the public face and the helper can
//! be exercised.

use vstd::prelude::*;

verus! {

/// Adds two to a number.
pub fn add_two(a: i32) -> (sum: i32)
    requires
        a <= i32::MAX - 2,
    ensures
        sum == a + 2,
{
    internal_adder(a, 2)
}

/// Adds two numbers whose sum stays in range.
pub fn internal_adder(a: i32, b: i32) -> (sum: i32)
    requires
        i32::MIN <= a + b <= i32::MAX,
    ensures
        sum == a + b,
{
    a + b
}

} // verus!
