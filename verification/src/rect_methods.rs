//! A rectangle with its area and a width check as methods.

use vstd::prelude::*;

verus! {

/// A rectangle given by its side lengths.
pub struct Rectangle {
    pub width: u32,
    pub height: u32,
}

impl Rectangle {
    /// The area, widened so that no product of side lengths can overflow.
    pub fn area(&self) -> (area: u64)
        ensures
            area == self.width * self.height,
    {
        proof {
            let w = self.width as int;
            let h = self.height as int;
            assert(w * h <= 0xffff_ffff * 0xffff_ffff) by (nonlinear_arith)
                requires
                    0 <= w <= 0xffff_ffff,
                    0 <= h <= 0xffff_ffff,
            ;
        }
        (self.width as u64) * (self.height as u64)
    }

    /// Whether the rectangle has any width at all.
    pub fn width(&self) -> (positive: bool)
        ensures
            positive == (self.width > 0),
    {
        self.width > 0
    }
}

} // verus!
