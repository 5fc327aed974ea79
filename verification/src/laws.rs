//! The physical laws the scattering models obey, stated and proved over
//! the same spec functions that `scatter`'s and `emitted`'s contracts use.
//!
//! Two further laws live directly in `Material::scatter`'s `ensures`: a
//! returned direction is never the zero vector, and Lambertian, Isotropic
//! and Dielectric always continue the path while DiffuseLight never does.

use vstd::prelude::*;
use crate::color::black_spec;
use crate::fixed::{fp_mul_spec, tdiv, FP_ONE};
use crate::material::{
    attenuation_source_in_unit,
    cos_theta_spec, dielectric_dir_spec, dielectric_reflects_spec, emitted_spec, metal_dir_spec,
    pow5_fp_spec, refraction_ratio_spec, schlick_r0_spec, schlick_spec, scatter_spec,
    sin_theta_spec, v3_of, Material,
};
use crate::ray::{HitPayload, Ray, ScatterSample};
use crate::texture::Texture;
use crate::vec3::{dot_raw_spec, reflect_spec, smul_spec, unit_spec, vadd, Fp3};

verus! {

/// With `fuzz = 0` the Metal law's direction is exactly the ideal specular
/// reflection of the normalized incoming direction, and a continuing
/// bounce carries the configured albedo unchanged.
pub proof fn lemma_metal_fuzz_zero_specular<T: Texture>(
    albedo: crate::color::Color,
    r_in: Ray,
    h: HitPayload,
    s: ScatterSample,
)
    ensures
        metal_dir_spec(r_in.direction@, h.normal@, 0, s.in_sphere@) == reflect_spec(
            unit_spec(r_in.direction@),
            h.normal@,
        ),
        scatter_spec(Material::<T>::Metal { albedo, fuzz: 0 }, r_in, h, s) matches Some((a, sc))
            ==> a == albedo && sc.direction == v3_of(
            reflect_spec(unit_spec(r_in.direction@), h.normal@),
        ),
{
    let rnd = s.in_sphere@;
    assert(0 * rnd.0 == 0 && 0 * rnd.1 == 0 && 0 * rnd.2 == 0) by (nonlinear_arith);
    assert(tdiv(0, FP_ONE as int) == 0);
    assert(smul_spec(0, rnd) == ((0int, 0int, 0int)));
}

/// The Metal law absorbs exactly the bounces whose perturbed direction
/// does not point away from the surface: when its dot product with the
/// normal is not strictly positive, `scatter` returns nothing.
pub proof fn lemma_metal_absorbs_into_surface<T: Texture>(
    albedo: crate::color::Color,
    fuzz: i64,
    r_in: Ray,
    h: HitPayload,
    s: ScatterSample,
)
    ensures
        dot_raw_spec(
            metal_dir_spec(r_in.direction@, h.normal@, fuzz as int, s.in_sphere@),
            h.normal@,
        ) <= 0 ==> scatter_spec(Material::<T>::Metal { albedo, fuzz }, r_in, h, s) is None,
{
}

/// Total internal reflection: whenever `ratio * sin_theta > 1`, the
/// Dielectric law reflects — for every value of the uniform draw.
pub proof fn lemma_dielectric_total_internal_reflection(
    d: Fp3,
    n: Fp3,
    front_face: bool,
    ir: int,
    uniform: int,
)
    requires
        fp_mul_spec(
            refraction_ratio_spec(ir, front_face),
            sin_theta_spec(cos_theta_spec(unit_spec(d), n)),
        ) > FP_ONE as int,
    ensures
        dielectric_dir_spec(d, n, front_face, ir, uniform) == reflect_spec(unit_spec(d), n),
{
    let ratio = refraction_ratio_spec(ir, front_face);
    let cos = cos_theta_spec(unit_spec(d), n);
    assert(dielectric_reflects_spec(cos, ratio, uniform));
}

/// At perpendicular incidence (`cos_theta = 1`) the `(1 - cos)^5` term of
/// Schlick's approximation vanishes, so the reflectance is exactly `r0`.
pub proof fn lemma_schlick_perpendicular(ratio: int)
    ensures
        schlick_spec(FP_ONE as int, ratio) == schlick_r0_spec(ratio),
{
    assert(FP_ONE as int - FP_ONE as int == 0);
    assert(0 * 0 == 0) by (nonlinear_arith);
    assert(tdiv(0, FP_ONE as int) == 0);
    assert(fp_mul_spec(0, 0) == 0);
    assert(pow5_fp_spec(0) == 0);
    let r0 = schlick_r0_spec(ratio);
    assert((FP_ONE as int - r0) * 0 == 0) by (nonlinear_arith);
    assert(fp_mul_spec(FP_ONE as int - r0, 0) == 0);
}

/// Attenuation is a reflectance, never a gain: whenever the material's
/// texture samples a color with channels in `[0, FP_ONE]` (and always for
/// the laws whose attenuation is a constant), a continuing bounce carries
/// an attenuation with every channel in `[0, FP_ONE]`.
pub proof fn lemma_attenuation_in_unit<T: Texture>(
    m: Material<T>,
    r_in: Ray,
    h: HitPayload,
    s: ScatterSample,
)
    requires
        m.wf(),
        attenuation_source_in_unit(m, h),
    ensures
        scatter_spec(m, r_in, h, s) matches Some((a, sc)) ==> crate::color::color_in_unit(a),
{
}

/// Emission is two-sided: `emitted` depends only on the surface
/// coordinates and the hit point, never on which side was hit.
pub proof fn lemma_emitted_two_sided<T: Texture>(m: Material<T>, h1: HitPayload, h2: HitPayload)
    requires
        h1.point == h2.point,
        h1.u == h2.u,
        h1.v == h2.v,
    ensures
        emitted_spec(m, h1) == emitted_spec(m, h2),
{
}

/// Every law but DiffuseLight emits exact black.
pub proof fn lemma_non_emissive_emits_black<T: Texture>(m: Material<T>, h: HitPayload)
    requires
        !(m is DiffuseLight),
    ensures
        emitted_spec(m, h) == black_spec(),
{
}

} // verus!
