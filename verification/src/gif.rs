//! Frame sizing for GIF export and video thumbnails.

use vstd::prelude::*;

verus! {

/// One side scaled by `max_long_edge / long_edge`, rounded down, at least one.
pub open spec fn scaled_side(side: int, max_long_edge: int, long_edge: int) -> int {
    let scaled = side * max_long_edge / long_edge;
    if scaled < 1 { 1 } else { scaled }
}

/// The export size: unchanged when any input is zero or the long edge already
/// fits, otherwise both sides scaled so that the long edge becomes
/// `max_long_edge` (rounding down, never below one pixel).
pub open spec fn spec_scaled_dimensions(width: u32, height: u32, max_long_edge: u32) -> (u32, u32) {
    let long_edge: int = if width >= height { width as int } else { height as int };
    if width == 0 || height == 0 || max_long_edge == 0 || long_edge <= max_long_edge {
        (width, height)
    } else {
        (
            scaled_side(width as int, max_long_edge as int, long_edge) as u32,
            scaled_side(height as int, max_long_edge as int, long_edge) as u32,
        )
    }
}

proof fn lemma_scaled_side_bounds(side: int, max_long_edge: int, long_edge: int)
    requires
        0 < side <= long_edge,
        0 < max_long_edge < long_edge,
        long_edge <= u32::MAX,
    ensures
        1 <= scaled_side(side, max_long_edge, long_edge) <= max_long_edge,
        side * max_long_edge <= u64::MAX,
{
    assert(side * max_long_edge <= long_edge * max_long_edge) by (nonlinear_arith)
        requires 0 < side <= long_edge, 0 < max_long_edge;
    assert(long_edge * max_long_edge <= u32::MAX * u32::MAX) by (nonlinear_arith)
        requires 0 < long_edge <= u32::MAX, 0 < max_long_edge <= u32::MAX;
    assert(side * max_long_edge / long_edge <= max_long_edge) by (nonlinear_arith)
        requires 0 < side <= long_edge, 0 < max_long_edge;
}

/// Scales `width` x `height` so that its long edge is at most `max_long_edge`.
pub fn scaled_dimensions(width: u32, height: u32, max_long_edge: u32) -> (dimensions: (u32, u32))
    ensures
        dimensions == spec_scaled_dimensions(width, height, max_long_edge),
{
    if width == 0 || height == 0 || max_long_edge == 0 {
        return (width, height);
    }
    let long_edge = if width >= height { width } else { height };
    if long_edge <= max_long_edge {
        return (width, height);
    }
    proof {
        lemma_scaled_side_bounds(width as int, max_long_edge as int, long_edge as int);
        lemma_scaled_side_bounds(height as int, max_long_edge as int, long_edge as int);
    }
    let scaled_width = (width as u64) * (max_long_edge as u64) / (long_edge as u64);
    let scaled_height = (height as u64) * (max_long_edge as u64) / (long_edge as u64);
    let scaled_width = if scaled_width < 1 { 1 } else { scaled_width };
    let scaled_height = if scaled_height < 1 { 1 } else { scaled_height };
    (scaled_width as u32, scaled_height as u32)
}

/// The thumbnail size for a video frame: one pixel square when any input is
/// zero, unchanged when the long edge already fits, otherwise the long edge
/// becomes `max_long_edge` and the short edge is scaled (rounding down, never
/// below one pixel).
pub open spec fn spec_scale_long_edge(width: u32, height: u32, max_long_edge: u32) -> (u32, u32) {
    if width == 0 || height == 0 || max_long_edge == 0 {
        (1, 1)
    } else if width <= max_long_edge && height <= max_long_edge {
        (width, height)
    } else if width >= height {
        (max_long_edge, scaled_side(height as int, max_long_edge as int, width as int) as u32)
    } else {
        (scaled_side(width as int, max_long_edge as int, height as int) as u32, max_long_edge)
    }
}

/// Scales a decoded video frame so that its long edge is at most
/// `max_long_edge`.
pub fn scale_long_edge(width: u32, height: u32, max_long_edge: u32) -> (size: (u32, u32))
    ensures
        size == spec_scale_long_edge(width, height, max_long_edge),
{
    if width == 0 || height == 0 || max_long_edge == 0 {
        return (1, 1);
    }
    if width <= max_long_edge && height <= max_long_edge {
        return (width, height);
    }
    if width >= height {
        proof {
            lemma_scaled_side_bounds(height as int, max_long_edge as int, width as int);
        }
        let scaled = (height as u64) * (max_long_edge as u64) / (width as u64);
        let scaled = if scaled < 1 { 1 } else { scaled };
        (max_long_edge, scaled as u32)
    } else {
        proof {
            lemma_scaled_side_bounds(width as int, max_long_edge as int, height as int);
        }
        let scaled = (width as u64) * (max_long_edge as u64) / (height as u64);
        let scaled = if scaled < 1 { 1 } else { scaled };
        (scaled as u32, max_long_edge)
    }
}

/// A scaled GIF frame fits the long-edge limit and keeps at least one pixel
/// on each side.
pub proof fn lemma_scaled_dimensions_fit(width: u32, height: u32, max_long_edge: u32)
    requires
        width > 0,
        height > 0,
        max_long_edge > 0,
    ensures
        1 <= spec_scaled_dimensions(width, height, max_long_edge).0 <= max_long_edge,
        1 <= spec_scaled_dimensions(width, height, max_long_edge).1 <= max_long_edge,
{
    let long_edge: int = if width >= height { width as int } else { height as int };
    if long_edge > max_long_edge {
        lemma_scaled_side_bounds(width as int, max_long_edge as int, long_edge);
        lemma_scaled_side_bounds(height as int, max_long_edge as int, long_edge);
    }
}

/// A video thumbnail fits the long-edge limit (when there is one) and is
/// never empty.
pub proof fn lemma_scale_long_edge_fits(width: u32, height: u32, max_long_edge: u32)
    ensures
        spec_scale_long_edge(width, height, max_long_edge).0 >= 1,
        spec_scale_long_edge(width, height, max_long_edge).1 >= 1,
        max_long_edge > 0 ==> spec_scale_long_edge(width, height, max_long_edge).0 <= max_long_edge,
        max_long_edge > 0 ==> spec_scale_long_edge(width, height, max_long_edge).1 <= max_long_edge,
{
    if width > 0 && height > 0 && max_long_edge > 0 && !(width <= max_long_edge && height <= max_long_edge) {
        if width >= height {
            lemma_scaled_side_bounds(height as int, max_long_edge as int, width as int);
        } else {
            lemma_scaled_side_bounds(width as int, max_long_edge as int, height as int);
        }
    }
}

} // verus!
