//! Rectangle areas, in three shapes: a struct with methods, a pair of
//! named parameters, and a width/length tuple.

use vstd::prelude::*;

verus! {

/// A rectangle given by its width and length.
pub struct Rectangle {
    pub width: u32,
    pub length: u32,
}

impl Rectangle {
    /// The area of the rectangle; the bound rules out overflow.
    pub fn area(&self) -> (r: u32)
        requires
            self.width * self.length <= u32::MAX,
        ensures
            r == self.width * self.length,
    {
        self.width * self.length
    }

    /// Whether `other` fits strictly inside `self` in both dimensions.
    pub fn can_contain(&self, other: &Rectangle) -> (r: bool)
        ensures
            r == (self.width > other.width && self.length > other.length),
    {
        self.width > other.width && self.length > other.length
    }
}

/// The area of a rectangle given as two separate dimensions.
pub fn calculate_area(w: u32, l: u32) -> (r: u32)
    requires
        w * l <= u32::MAX,
    ensures
        r == w * l,
{
    w * l
}

/// The area of a rectangle given as a (width, length) tuple.
pub fn area(dim: (u32, u32)) -> (r: u32)
    requires
        dim.0 * dim.1 <= u32::MAX,
    ensures
        r == dim.0 * dim.1,
{
    dim.0 * dim.1
}

} // verus!
