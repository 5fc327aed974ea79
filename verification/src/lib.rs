//! Material-scattering core of a path tracer: given a ray/surface
//! interaction, each of five physical laws (Lambertian, Metal, Dielectric,
//! Isotropic, DiffuseLight) decides whether the light path continues, and
//! with what color attenuation.
//!
//! All scalar quantities are fixed-point numbers: an `i64` holding the value
//! scaled by `fixed::FP_ONE`. Every scattering law is specified exactly over
//! that representation and proved against its specification.

pub mod color;
pub mod fixed;
pub mod laws;
pub mod material;
pub mod ray;
pub mod texture;
pub mod vec3;
