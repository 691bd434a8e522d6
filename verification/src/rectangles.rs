//! A rectangle and its area, computed by a free function.

use vstd::prelude::*;

verus! {

/// A rectangle given by its side lengths.
pub struct Rectangle {
    pub width: u32,
    pub height: u32,
}

/// The area of a rectangle, widened so that no product of two `u32` side
/// lengths can overflow.
pub fn rect_area(r: &Rectangle) -> (area: u64)
    ensures
        area == r.width * r.height,
{
    proof {
        let w = r.width as int;
        let h = r.height as int;
        assert(w * h <= 0xffff_ffff * 0xffff_ffff) by (nonlinear_arith)
            requires
                0 <= w <= 0xffff_ffff,
                0 <= h <= 0xffff_ffff,
        ;
    }
    (r.width as u64) * (r.height as u64)
}

} // verus!
