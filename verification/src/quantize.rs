//! Clamp-and-pack step of the display quantizer.
//!
//! The caller scales each color channel by 255 and truncates toward zero; the
//! functions here clamp that integer to the displayable range and pack the
//! three channels into one 24-bit pixel, red in bits 16..=23, green in bits
//! 8..=15, blue in bits 0..=7, with no alpha.

use vstd::prelude::*;

verus! {

/// A channel value scaled by 255 and truncated, clamped to the displayable
/// range: negative values floor at 0, values past full brightness cap at 255.
pub open spec fn clamped_channel(t: int) -> int {
    if t < 0 {
        0
    } else if t > 255 {
        255
    } else {
        t
    }
}

/// The packed 24-bit pixel for three already-clamped channel values.
pub open spec fn packed_rgb(r: int, g: int, b: int) -> int {
    r * 0x10000 + g * 0x100 + b
}

/// Clamps one scaled-by-255, truncated channel value to `[0, 255]`.
pub fn quantize_channel(t: i64) -> (r: u32)
    ensures
        r == clamped_channel(t as int),
{
    if t < 0 {
        0
    } else if t > 255 {
        255
    } else {
        t as u32
    }
}

/// Packs three channel values, each at most 255, into one 24-bit pixel.
pub fn pack_rgb(r: u32, g: u32, b: u32) -> (p: u32)
    requires
        r <= 255,
        g <= 255,
        b <= 255,
    ensures
        p == packed_rgb(r as int, g as int, b as int),
        p <= 0xFFFFFF,
{
    proof {
        assert(((r << 16u32) | (g << 8u32) | b) == r * 0x10000 + g * 0x100 + b
            && ((r << 16u32) | (g << 8u32) | b) <= 0xFFFFFF) by (bit_vector)
            requires
                r <= 255,
                g <= 255,
                b <= 255,
        ;
    }
    (r << 16u32) | (g << 8u32) | b
}

/// Quantizes one pixel: clamps each scaled channel, then packs the three.
pub fn quantize(rt: i64, gt: i64, bt: i64) -> (p: u32)
    ensures
        p == packed_rgb(clamped_channel(rt as int), clamped_channel(gt as int), clamped_channel(bt as int)),
{
    let r: u32 = quantize_channel(rt);
    let g: u32 = quantize_channel(gt);
    let b: u32 = quantize_channel(bt);
    pack_rgb(r, g, b)
}

} // verus!
