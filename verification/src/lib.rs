//! Integer core of an anti-aliased line renderer's display path.
//!
//! The surrounding renderer rasterizes segments into a float accumulation
//! buffer, merges completed samples into a running average, and quantizes the
//! blend for display.  Everything in that path that is decided over integers
//! lives here, verified: pixel addressing and clipping, the rasterizer's
//! column plan, and the clamp-and-pack step of the quantizer, together with an
//! exact-arithmetic model of the blending rules.

pub mod blend;
pub mod quantize;
pub mod raster;
