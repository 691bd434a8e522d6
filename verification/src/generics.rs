//! Generic points, the largest number of a list, and the longer of two
//! strings.

use vstd::prelude::*;
use vstd::utf8::encode_utf8;

verus! {

/// A point whose two coordinates share one type.
pub struct Point<T> {
    pub x: T,
    pub y: T,
}

impl<T> Point<T> {
    /// Borrows the first coordinate.
    pub fn x(&self) -> (x: &T)
        ensures
            *x == self.x,
    {
        &self.x
    }
}

/// A point whose two coordinates may differ in type.
pub struct Pointy<X1, Y1> {
    pub x: X1,
    pub y: Y1,
}

impl<X1, Y1> Pointy<X1, Y1> {
    /// A point taking its first coordinate from `self` and its second from
    /// `other`.
    pub fn mixup<X2, Y2>(self, other: Pointy<X2, Y2>) -> (mixed: Pointy<X1, Y2>)
        ensures
            mixed.x == self.x,
            mixed.y == other.y,
    {
        Pointy { x: self.x, y: other.y }
    }
}

/// The largest number of a nonempty list.
pub fn find_largest(v: &Vec<i32>) -> (max: i32)
    requires
        v@.len() > 0,
    ensures
        v@.contains(max),
        forall|k: int| 0 <= k < v@.len() ==> v@[k] <= max,
{
    let mut max = v[0];
    let mut i: usize = 1;
    while i < v.len()
        invariant
            1 <= i <= v@.len(),
            v@.contains(max),
            forall|k: int| 0 <= k < i ==> v@[k] <= max,
        decreases v@.len() - i,
    {
        if v[i] > max {
            max = v[i];
        }
        i += 1;
    }
    max
}

/// The longer of two strings, counted in bytes; ties go to the second.
pub fn longest<'a>(str1: &'a String, str2: &'a String) -> (longer: &'a String)
    ensures
        encode_utf8(str1@).len() as usize > encode_utf8(str2@).len() as usize ==> longer == str1,
        encode_utf8(str1@).len() as usize <= encode_utf8(str2@).len() as usize ==> longer == str2,
{
    if str1.as_str().len() > str2.as_str().len() {
        str1
    } else {
        str2
    }
}

} // verus!
