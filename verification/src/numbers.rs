//! Tiny arithmetic helpers: a constant producer and a checked successor.

use vstd::prelude::*;

verus! {

/// Returns the constant five.
pub fn five() -> (r: i32)
    ensures
        r == 5,
{
    5
}

/// Returns the successor of `x`; the bound on `x` rules out overflow.
pub fn plus_one(x: i32) -> (r: i32)
    requires
        x < i32::MAX,
    ensures
        r == x + 1,
{
    x + 1
}

} // verus!
