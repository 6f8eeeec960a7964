//! The drawable size of the video surface, from the window's inner size in physical pixels.
use vstd::prelude::*;

verus! {

/// A side of the window as the EGL window takes it: at least one pixel, and read as a
/// signed 32-bit number (a side of 2^31 pixels or more wraps, as a cast does).
pub open spec fn surface_side(side: u32) -> int {
    let s: int = if side == 0 { 1 } else { side as int };
    if s < 0x8000_0000 { s } else { s - 0x1_0000_0000 }
}

fn side(v: u32) -> (r: i32)
    ensures
        r == surface_side(v),
{
    let m: u32 = if v == 0 { 1 } else { v };
    let r = m as i32;
    assert(m < 0x8000_0000u32 ==> r == m) by (bit_vector)
        requires r == m as i32;
    assert(m >= 0x8000_0000u32 ==> r == m - 0x1_0000_0000) by (bit_vector)
        requires r == m as i32;
    r
}

/// The framebuffer size `(width, height)` for a window of `width` by `height` physical pixels.
pub fn surface_size(width: u32, height: u32) -> (r: (i32, i32))
    ensures
        r.0 == surface_side(width),
        r.1 == surface_side(height),
{
    (side(width), side(height))
}

/// A side is never 0: an empty side becomes one pixel, and any side that fits in an `i32`
/// is kept as it is.
pub proof fn lemma_surface_side(side: u32)
    ensures
        side == 0 ==> surface_side(side) == 1,
        0 < side < 0x8000_0000 ==> surface_side(side) == side,
        surface_side(side) != 0,
{
}

} // verus!
