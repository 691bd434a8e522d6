//! A rectangle that can tell whether it fits strictly inside another.

use vstd::prelude::*;

verus! {

/// A rectangle given by its side lengths.
pub struct Rectangle {
    pub width: u32,
    pub height: u32,
}

impl Rectangle {
    /// The area. The sides must be small enough for the product to fit a
    /// `u32`.
    pub fn area(&self) -> (area: u32)
        requires
            self.width * self.height <= u32::MAX,
        ensures
            area == self.width * self.height,
    {
        self.width * self.height
    }

    /// Whether `r` is strictly wider and strictly taller than `self`.
    pub fn can_hold(&self, r: &Rectangle) -> (held: bool)
        ensures
            held == (self.width < r.width && self.height < r.height),
    {
        self.width < r.width && self.height < r.height
    }

    /// A square of the given side length.
    pub fn square(size: u32) -> (r: Rectangle)
        ensures
            r.width == size,
            r.height == size,
    {
        Rectangle { width: size, height: size }
    }
}

} // verus!
