//! Pixel addressing and the rasterizer's column plan.
//!
//! The rasterizer walks a segment along its major axis and, at each column,
//! deposits light into two vertically adjacent pixels.  Steep segments are
//! transposed first, so every plot must swap its coordinates back before
//! touching the buffer; out-of-range coordinates are clipped, never an error,
//! since endpoint rounding routinely lands a neighbor pixel off the image.

use vstd::prelude::*;

verus! {

/// Whether `(x, y)` lies on the image: `[0, width) x [0, height)`.
pub open spec fn in_bounds(x: int, y: int, width: int, height: int) -> bool {
    0 <= x < width && 0 <= y < height
}

/// Row-major position of `(x, y)` in a buffer of row length `width`.
pub open spec fn pixel_index(x: int, y: int, width: int) -> int {
    x + y * width
}

/// What a clipped write resolves to: the row-major index when `(x, y)` is on
/// the image, and no index at all when the write is clipped away.
pub open spec fn is_plot_target(r: Option<usize>, x: int, y: int, width: int, height: int) -> bool {
    match r {
        Some(i) => in_bounds(x, y, width, height) && i == pixel_index(x, y, width),
        None => !in_bounds(x, y, width, height),
    }
}

/// An in-bounds pixel's row-major index lies inside the buffer.
pub proof fn lemma_index_in_range(x: int, y: int, width: int, height: int)
    requires
        in_bounds(x, y, width, height),
    ensures
        0 <= pixel_index(x, y, width) < width * height,
{
    assert(0 <= x + y * width < width * height) by (nonlinear_arith)
        requires
            0 <= x < width,
            0 <= y < height,
    ;
}

/// Distinct on-image pixels have distinct row-major indices, so a clipped
/// write that resolves to an index touches its own pixel and no other.
pub proof fn lemma_pixel_index_injective(x1: int, y1: int, x2: int, y2: int, width: int, height: int)
    requires
        in_bounds(x1, y1, width, height),
        in_bounds(x2, y2, width, height),
        pixel_index(x1, y1, width) == pixel_index(x2, y2, width),
    ensures
        x1 == x2 && y1 == y2,
{
    assert(x1 == x2 && y1 == y2) by (nonlinear_arith)
        requires
            0 <= x1 < width,
            0 <= x2 < width,
            0 <= y1 < height,
            0 <= y2 < height,
            x1 + y1 * width == x2 + y2 * width,
    ;
}

/// Resolves one clipped write: the row-major index of `(x, y)` when it is on
/// the image, and nothing when it is not.
pub fn plot_index(x: i32, y: i32, width: usize, height: usize) -> (r: Option<usize>)
    requires
        (width as int) * (height as int) <= usize::MAX as int,
    ensures
        is_plot_target(r, x as int, y as int, width as int, height as int),
{
    if x < 0 || y < 0 {
        return None;
    }
    let xu: usize = x as usize;
    let yu: usize = y as usize;
    if xu >= width || yu >= height {
        return None;
    }
    proof {
        lemma_index_in_range(xu as int, yu as int, width as int, height as int);
    }
    Some(xu + yu * width)
}

/// Buffer x-coordinate of a plot issued at major-axis coordinate `xa` and
/// minor-axis coordinate `ya`: a steep segment swaps the axes back.
pub open spec fn buffer_x(steep: bool, xa: int, ya: int) -> int {
    if steep {
        ya
    } else {
        xa
    }
}

/// Buffer y-coordinate of the same plot.
pub open spec fn buffer_y(steep: bool, xa: int, ya: int) -> int {
    if steep {
        xa
    } else {
        ya
    }
}

/// Resolves the pair of clipped writes one column of the stroke makes: the
/// pixels at minor-axis coordinates `ya` and `ya + 1`, swapped back to buffer
/// coordinates when the segment is steep.
pub fn plot_pair(steep: bool, xa: i32, ya: i32, width: usize, height: usize) -> (r: (
    Option<usize>,
    Option<usize>,
))
    requires
        (width as int) * (height as int) <= usize::MAX as int,
        ya < i32::MAX,
    ensures
        is_plot_target(
            r.0,
            buffer_x(steep, xa as int, ya as int),
            buffer_y(steep, xa as int, ya as int),
            width as int,
            height as int,
        ),
        is_plot_target(
            r.1,
            buffer_x(steep, xa as int, ya as int + 1),
            buffer_y(steep, xa as int, ya as int + 1),
            width as int,
            height as int,
        ),
{
    let lower = if steep {
        plot_index(ya, xa, width, height)
    } else {
        plot_index(xa, ya, width, height)
    };
    let upper = if steep {
        plot_index(ya + 1, xa, width, height)
    } else {
        plot_index(xa, ya + 1, width, height)
    };
    (lower, upper)
}

/// The columns the rasterizer's interior loop visits between the two endpoint
/// anchor columns: every column from `xpxl1 + 1` up to but excluding
/// `xpxl2 - 1`.  The upper bound deliberately stops one column short of the
/// second anchor; the renderer's stroke look depends on that boundary, so it
/// is kept exactly.
pub fn interior_columns(xpxl1: i32, xpxl2: i32) -> (r: Vec<i32>)
    ensures
        r@.len() == if xpxl1 + 1 < xpxl2 - 1 {
            (xpxl2 - 1) - (xpxl1 + 1)
        } else {
            0
        },
        forall|i: int| 0 <= i < r@.len() ==> r@[i] == xpxl1 + 1 + i,
{
    let lo: i64 = xpxl1 as i64 + 1;
    let hi: i64 = xpxl2 as i64 - 1;
    let mut r: Vec<i32> = Vec::new();
    let mut c: i64 = lo;
    while c < hi
        invariant
            lo <= c,
            c <= if lo < hi {
                hi
            } else {
                lo
            },
            lo == xpxl1 + 1,
            hi == xpxl2 - 1,
            i32::MIN < lo,
            hi <= i32::MAX,
            r@.len() == c - lo,
            forall|i: int| 0 <= i < r@.len() ==> r@[i] == lo + i,
        decreases hi - c,
    {
        r.push(c as i32);
        c = c + 1;
    }
    r
}

} // verus!
