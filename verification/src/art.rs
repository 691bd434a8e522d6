//! A library for modeling artistic concepts.

use vstd::prelude::*;

verus! {

/// The primary colors according to the RYB color model.
pub enum PrimaryColor {
    Red,
    Yellow,
    Blue,
}

/// The secondary colors according to the RYB color model.
pub enum SecondaryColor {
    Orange,
    Green,
    Purple,
}

/// The secondary color two primary colors mix to. A color mixed with
/// itself yields no new hue; Purple stands in for that case.
pub open spec fn spec_mix(c1: PrimaryColor, c2: PrimaryColor) -> SecondaryColor {
    match (c1, c2) {
        (PrimaryColor::Red, PrimaryColor::Yellow) => SecondaryColor::Orange,
        (PrimaryColor::Yellow, PrimaryColor::Red) => SecondaryColor::Orange,
        (PrimaryColor::Yellow, PrimaryColor::Blue) => SecondaryColor::Green,
        (PrimaryColor::Blue, PrimaryColor::Yellow) => SecondaryColor::Green,
        (PrimaryColor::Red, PrimaryColor::Blue) => SecondaryColor::Purple,
        (PrimaryColor::Blue, PrimaryColor::Red) => SecondaryColor::Purple,
        _ => SecondaryColor::Purple,
    }
}

/// Combines two primary colors in equal amounts to create a secondary
/// color.
pub fn mix(c1: PrimaryColor, c2: PrimaryColor) -> (mixed: SecondaryColor)
    ensures
        mixed == spec_mix(c1, c2),
{
    match (c1, c2) {
        (PrimaryColor::Red, PrimaryColor::Yellow) => SecondaryColor::Orange,
        (PrimaryColor::Yellow, PrimaryColor::Red) => SecondaryColor::Orange,
        (PrimaryColor::Yellow, PrimaryColor::Blue) => SecondaryColor::Green,
        (PrimaryColor::Blue, PrimaryColor::Yellow) => SecondaryColor::Green,
        (PrimaryColor::Red, PrimaryColor::Blue) => SecondaryColor::Purple,
        (PrimaryColor::Blue, PrimaryColor::Red) => SecondaryColor::Purple,
        _ => SecondaryColor::Purple,
    }
}

/// Function add_one adds one to the number given.
pub fn add_one(num: i32) -> (r: i32)
    requires
        num < i32::MAX,
    ensures
        r == num + 1,
{
    num + 1
}

} // verus!
