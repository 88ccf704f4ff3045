//! The coordinate that the guarded action works with.

use vstd::prelude::*;

verus! {

/// The sum of the three coordinates as an integer.
pub open spec fn coordinate_total(x: i32, y: i32, z: i32) -> int {
    x + y + z
}

/// The coordinate that the three parts add up to, or `None` if the sum is
/// not an `i32`.
pub fn coordinate_sum(x: i32, y: i32, z: i32) -> (sum: Option<i32>)
    ensures
        match sum {
            Some(coordinate) => coordinate == coordinate_total(x, y, z),
            None => coordinate_total(x, y, z) < i32::MIN || coordinate_total(x, y, z) > i32::MAX,
        },
{
    let total: i64 = x as i64 + y as i64 + z as i64;
    if total < i32::MIN as i64 || total > i32::MAX as i64 {
        None
    } else {
        Some(total as i32)
    }
}

} // verus!
