//! A named-field alternative to passing a rectangle's measures as a tuple.

use vstd::prelude::*;

verus! {

/// The measures of a rectangle, with each field named for clarity.
pub struct Dimensions {
    pub width: u32,
    pub length: u32,
}

/// The area of the rectangle described by `dimsn`.
pub fn area(dimsn: &Dimensions) -> (r: u32)
    requires
        dimsn.width * dimsn.length <= u32::MAX,
    ensures
        r == dimsn.width * dimsn.length,
{
    dimsn.width * dimsn.length
}

} // verus!
