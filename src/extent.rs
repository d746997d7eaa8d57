use vstd::prelude::*;

verus! {

/// A render-target side length as the GPU receives it: zero becomes one.
pub open spec fn side(x: u32) -> u32 {
    if x == 0 { 1 } else { x }
}

/// Clamps a requested (width, height) to the smallest valid target size,
/// one texel on each side.
pub fn clamp_extent(width: u32, height: u32) -> (r: (u32, u32))
    ensures
        r == (side(width), side(height)),
        r.0 >= 1 && r.1 >= 1,
{
    let w: u32 = if width == 0 { 1 } else { width };
    let h: u32 = if height == 0 { 1 } else { height };
    (w, h)
}

/// A side clamped to `[1, max_side]`.
pub open spec fn fitted_side(x: u32, max_side: u32) -> u32 {
    if side(x) > max_side {
        max_side
    } else {
        side(x)
    }
}

/// Clamps a requested (width, height) to at least one texel and at most
/// `max_side` texels on each side, the largest 2D texture a device accepts.
pub fn clamp_extent_within(width: u32, height: u32, max_side: u32) -> (r: (u32, u32))
    requires
        max_side >= 1,
    ensures
        r == (fitted_side(width, max_side), fitted_side(height, max_side)),
        1 <= r.0 <= max_side,
        1 <= r.1 <= max_side,
        width <= max_side && height <= max_side ==> r == (side(width), side(height)),
{
    let (w, h) = clamp_extent(width, height);
    let w2: u32 = if w > max_side { max_side } else { w };
    let h2: u32 = if h > max_side { max_side } else { h };
    (w2, h2)
}

} // verus!
