//! RGB colors of fixed-point components.

use vstd::prelude::*;
use crate::fixed::FP_ONE;

verus! {

/// An RGB color; each channel is a fixed-point scalar at scale `FP_ONE`.
#[derive(Clone, Copy, PartialEq, Eq, Structural, Debug)]
pub struct Color {
    pub r: i64,
    pub g: i64,
    pub b: i64,
}

/// Every channel lies in `[0, FP_ONE]`: the color is a valid attenuation
/// factor. Emitted light is not bound by this.
pub open spec fn color_in_unit(c: Color) -> bool {
    &&& 0 <= c.r <= FP_ONE
    &&& 0 <= c.g <= FP_ONE
    &&& 0 <= c.b <= FP_ONE
}

/// The all-zero color.
pub open spec fn black_spec() -> Color {
    Color { r: 0, g: 0, b: 0 }
}

/// Opaque white: every channel is `FP_ONE`.
pub open spec fn white_spec() -> Color {
    Color { r: FP_ONE, g: FP_ONE, b: FP_ONE }
}

impl Color {
    /// The all-zero color.
    pub fn black() -> (c: Color)
        ensures
            c == black_spec(),
    {
        Color { r: 0, g: 0, b: 0 }
    }

    /// Opaque white: every channel is `FP_ONE`.
    pub fn white() -> (c: Color)
        ensures
            c == white_spec(),
    {
        Color { r: FP_ONE, g: FP_ONE, b: FP_ONE }
    }
}

/// Each channel clamped into `[0, FP_ONE]`.
pub open spec fn clamp_channel_spec(v: int) -> int {
    if v < 0 {
        0
    } else if v > FP_ONE {
        FP_ONE as int
    } else {
        v
    }
}

/// The color with each channel clamped into `[0, FP_ONE]`.
pub open spec fn clamp_color_spec(c: Color) -> Color {
    Color {
        r: clamp_channel_spec(c.r as int) as i64,
        g: clamp_channel_spec(c.g as int) as i64,
        b: clamp_channel_spec(c.b as int) as i64,
    }
}

/// A fixed-point scalar clamped into `[0, FP_ONE]`.
pub fn clamp_channel(v: i64) -> (r: i64)
    ensures
        r as int == clamp_channel_spec(v as int),
        0 <= r <= FP_ONE,
{
    if v < 0 {
        0
    } else if v > FP_ONE {
        FP_ONE
    } else {
        v
    }
}

/// The color with each channel clamped into `[0, FP_ONE]`.
pub fn clamp_color(c: Color) -> (r: Color)
    ensures
        r == clamp_color_spec(c),
        color_in_unit(r),
{
    Color { r: clamp_channel(c.r), g: clamp_channel(c.g), b: clamp_channel(c.b) }
}

} // verus!
