//! A function whose result ignores its argument; the caller may log the
//! argument before asking for the answer.

use vstd::prelude::*;

verus! {

/// Returns ten, whatever was handed in.
pub fn prints_and_returns_10(a: i32) -> (r: u32)
    ensures
        r == 10,
{
    10
}

} // verus!
