//! The window that shows the live picture.

use vstd::prelude::*;

verus! {

/// Where the time of a frame is written on it: a third of the way across,
/// a sixth of the height above the bottom. Frame sizes come from the image
/// library as non-negative `i32` values.
pub fn text_origin(width: u32, height: u32) -> (p: (i32, i32))
    requires
        width <= i32::MAX,
        height <= i32::MAX,
    ensures
        p.0 == width / 3,
        p.1 == height - height / 6,
{
    ((width as i32) / 3, (height - (height / 6)) as i32)
}

} // verus!
