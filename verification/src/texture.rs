//! The texture capability: anything that can produce a color for a point
//! on a surface.

use vstd::prelude::*;
use crate::color::Color;
use crate::vec3::Vec3;

verus! {

/// A texture: a side-effect-free sampling capability. `sample` must return
/// exactly the color that `sample_spec` describes, so every implementation
/// carries its own verified sampling contract.
pub trait Texture: Sized {
    /// The color this texture holds at surface coordinates `(u, v)` and
    /// position `p`.
    spec fn sample_spec(&self, u: i64, v: i64, p: Vec3) -> Color;

    /// Sample the texture at surface coordinates `(u, v)` and position `p`.
    fn sample(&self, u: i64, v: i64, p: &Vec3) -> (c: Color)
        ensures
            c == self.sample_spec(u, v, *p),
    ;
}

/// A texture of one constant color everywhere.
#[derive(Clone, Copy, PartialEq, Eq, Structural, Debug)]
pub struct SolidColor {
    pub color: Color,
}

impl Texture for SolidColor {
    open spec fn sample_spec(&self, u: i64, v: i64, p: Vec3) -> Color {
        self.color
    }

    fn sample(&self, u: i64, v: i64, p: &Vec3) -> (c: Color) {
        self.color
    }
}

} // verus!
