//! Rays, intersection records, and the entropy a scatter call consumes.

use vstd::prelude::*;
use crate::fixed::FP_ONE;
use crate::vec3::{in_range, norm2_spec, Vec3};

verus! {

/// Largest magnitude a ray-direction component may have; keeps every
/// intermediate product of the scattering laws inside `i64`.
pub const DIR_MAX: i64 = 0x400_0000;

/// A ray: an origin point and a direction, not required pre-normalized.
#[derive(Clone, Copy, PartialEq, Eq, Structural, Debug)]
pub struct Ray {
    pub origin: Vec3,
    pub direction: Vec3,
}

/// The record of a ray/geometry intersection, produced by the (external)
/// intersection system and read-only to materials: the hit point, the
/// oriented surface normal, which side was hit, the surface coordinates,
/// and the ray parameter of the hit.
#[derive(Clone, Copy, PartialEq, Eq, Structural, Debug)]
pub struct HitPayload {
    pub point: Vec3,
    pub normal: Vec3,
    pub front_face: bool,
    pub u: i64,
    pub v: i64,
    pub t: i64,
}

/// The entropy one scatter call consumes, drawn by the caller: a uniform
/// point inside the unit sphere and a uniform scalar in `[0, FP_ONE)`.
/// Passing it explicitly keeps the laws free of hidden global state and
/// safe under concurrent workers.
#[derive(Clone, Copy, PartialEq, Eq, Structural, Debug)]
pub struct ScatterSample {
    pub in_sphere: Vec3,
    pub uniform: i64,
}

/// A usable surface normal: at most unit scale in each component, and not
/// the zero vector. A unit-length normal satisfies this.
pub open spec fn normal_wf(n: Vec3) -> bool {
    &&& in_range(n@, FP_ONE as int)
    &&& norm2_spec(n@) > 0
}

/// A usable ray direction: bounded components and nonzero length.
pub open spec fn direction_wf(d: Vec3) -> bool {
    &&& in_range(d@, DIR_MAX as int)
    &&& norm2_spec(d@) > 0
}

/// A well-formed entropy sample: the point lies inside the unit sphere and
/// the scalar lies in `[0, FP_ONE)`.
pub open spec fn sample_wf(s: ScatterSample) -> bool {
    &&& in_range(s.in_sphere@, FP_ONE as int)
    &&& norm2_spec(s.in_sphere@) < (FP_ONE as int) * (FP_ONE as int)
    &&& 0 <= s.uniform < FP_ONE
}

} // verus!
