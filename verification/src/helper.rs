//! Integer helpers.

use vstd::prelude::*;

verus! {

/// Twice `x`, for every `x` whose double is an `i32`.
pub fn unused_helper(x: i32) -> (doubled: i32)
    requires
        i32::MIN <= 2 * x <= i32::MAX,
    ensures
        doubled == 2 * x,
{
    x * 2
}

} // verus!
