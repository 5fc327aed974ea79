//! The five scattering laws and the material dispatcher.
//!
//! A `Material` is a closed sum over five stateless physical laws. Its two
//! operations are `scatter`, which decides whether a light path continues
//! and with what attenuation, and `emitted`, the light a surface adds on
//! its own. Both are specified exactly: `scatter_spec` and `emitted_spec`
//! give the returned value as a function of the inputs and of the entropy
//! sample the caller supplies.

use std::sync::Arc;
use vstd::prelude::*;
use crate::color::{
    black_spec, clamp_channel, clamp_channel_spec, clamp_color, clamp_color_spec, color_in_unit,
    Color,
};
use crate::fixed::{
    fp_div, fp_div_spec, fp_mul, fp_mul_spec, lemma_mul_bound, lemma_sqrt_floor_le, lemma_tdiv_le,
    lemma_tdiv_nonneg, sqrt_floor, sqrt_i64, tdiv, FP_ONE, FP_ONE_SQ,
};
use crate::ray::{direction_wf, normal_wf, sample_wf, HitPayload, Ray, ScatterSample};
use crate::texture::Texture;
use crate::vec3::{
    dot_fp_spec, dot_raw_spec, in_range, lemma_norm2_pos, norm2_spec, reflect_spec, smul_spec,
    unit_spec, vadd, vneg, vsub, Fp3, Vec3,
};

verus! {

/// Smallest refraction index a dielectric is constructed with (1/16).
pub const IR_MIN: i64 = 4096;

/// Largest refraction index a dielectric is constructed with (16).
pub const IR_MAX: i64 = 1048576;

/// The triple `(0, 0, 0)`, the only degenerate direction.
pub open spec fn zero3() -> Fp3 {
    (0int, 0int, 0int)
}

/// A model triple brought back to a concrete vector.
pub open spec fn v3_of(a: Fp3) -> Vec3 {
    Vec3 { x: a.0 as i64, y: a.1 as i64, z: a.2 as i64 }
}

/// Direction the Lambertian law scatters into: the surface normal plus a
/// random point inside the unit sphere, normalized; the normal itself when
/// that sum, or its normalization, degenerates to zero.
pub open spec fn lambertian_dir_spec(n: Fp3, rnd: Fp3) -> Fp3 {
    let s = vadd(n, rnd);
    if s == zero3() {
        n
    } else {
        let u = unit_spec(s);
        if u == zero3() {
            n
        } else {
            u
        }
    }
}

/// Direction the Isotropic law scatters into: the random point itself,
/// uniform over the sphere; the surface normal when it is zero.
pub open spec fn isotropic_dir_spec(n: Fp3, rnd: Fp3) -> Fp3 {
    if rnd == zero3() {
        n
    } else {
        rnd
    }
}

/// Direction the Metal law perturbs toward: the ideal specular reflection
/// of the normalized incoming direction, offset by `fuzz` times the random
/// point.
pub open spec fn metal_dir_spec(d: Fp3, n: Fp3, fuzz: int, rnd: Fp3) -> Fp3 {
    vadd(reflect_spec(unit_spec(d), n), smul_spec(fuzz, rnd))
}

/// Effective refraction ratio: `1/ir` entering from outside, `ir` leaving.
pub open spec fn refraction_ratio_spec(ir: int, front_face: bool) -> int {
    if front_face {
        fp_div_spec(FP_ONE as int, ir)
    } else {
        ir
    }
}

/// A scalar clamped into `[-FP_ONE, FP_ONE]`.
pub open spec fn clamp_unit_spec(v: int) -> int {
    if v > FP_ONE as int {
        FP_ONE as int
    } else if v < -(FP_ONE as int) {
        -(FP_ONE as int)
    } else {
        v
    }
}

/// Cosine of the angle of incidence: `dot(-u, n)`, capped at one (and, in
/// this bounded representation, at minus one).
pub open spec fn cos_theta_spec(u: Fp3, n: Fp3) -> int {
    clamp_unit_spec(dot_fp_spec(vneg(u), n))
}

/// Sine from the cosine: `sqrt(1 - cos^2)`, at scale `FP_ONE`.
pub open spec fn sin_theta_spec(cos: int) -> int {
    sqrt_floor(FP_ONE_SQ - cos * cos)
}

/// Schlick's base reflectance `r0 = ((1 - ratio) / (1 + ratio))^2`,
/// computed as one fixed-point quotient of squares.
pub open spec fn schlick_r0_spec(ratio: int) -> int {
    tdiv(
        (FP_ONE as int - ratio) * (FP_ONE as int - ratio) * (FP_ONE as int),
        (FP_ONE as int + ratio) * (FP_ONE as int + ratio),
    )
}

/// Fifth power of a fixed-point scalar.
pub open spec fn pow5_fp_spec(x: int) -> int {
    fp_mul_spec(fp_mul_spec(fp_mul_spec(fp_mul_spec(x, x), x), x), x)
}

/// Schlick's approximation of the Fresnel reflectance:
/// `r0 + (1 - r0) * (1 - cos)^5`.
pub open spec fn schlick_spec(cos: int, ratio: int) -> int {
    let r0 = schlick_r0_spec(ratio);
    r0 + fp_mul_spec(FP_ONE as int - r0, pow5_fp_spec(FP_ONE as int - cos))
}

/// The dielectric reflects rather than refracts: either refraction is
/// impossible (total internal reflection, `ratio * sin > 1`) or the
/// uniform draw falls below Schlick's reflectance.
pub open spec fn dielectric_reflects_spec(cos: int, ratio: int, uniform: int) -> bool {
    fp_mul_spec(ratio, sin_theta_spec(cos)) > FP_ONE as int || uniform < schlick_spec(cos, ratio)
}

/// Snell's law in vector form: the perpendicular component
/// `ratio * (u + cos * n)` and the parallel component
/// `-sqrt(|1 - |perp|^2|) * n`.
pub open spec fn refract_spec(u: Fp3, n: Fp3, ratio: int, cos: int) -> Fp3 {
    let perp = smul_spec(ratio, vadd(u, smul_spec(cos, n)));
    let k = FP_ONE_SQ - norm2_spec(perp);
    let par = sqrt_floor(if k >= 0 { k } else { -k });
    vsub(perp, smul_spec(par, n))
}

/// Direction the Dielectric law scatters into, as a function of the
/// incoming direction, the oriented normal, the side hit, the refraction
/// index, and the uniform draw.
pub open spec fn dielectric_dir_spec(d: Fp3, n: Fp3, front_face: bool, ir: int, uniform: int) -> Fp3 {
    let u = unit_spec(d);
    let ratio = refraction_ratio_spec(ir, front_face);
    let cos = cos_theta_spec(u, n);
    if dielectric_reflects_spec(cos, ratio, uniform) {
        reflect_spec(u, n)
    } else {
        refract_spec(u, n, ratio, cos)
    }
}

/// A refraction index clamped into `[IR_MIN, IR_MAX]`.
pub open spec fn clamp_ir_spec(v: int) -> int {
    if v < IR_MIN as int {
        IR_MIN as int
    } else if v > IR_MAX as int {
        IR_MAX as int
    } else {
        v
    }
}

/// A material: a closed sum of exactly five stateless scattering laws,
/// immutable once constructed and freely shareable. Textures are held
/// behind thread-safe shared-ownership handles.
#[derive(Clone)]
pub enum Material<T: Texture> {
    Lambertian { texture: Arc<T> },
    Metal { albedo: Color, fuzz: i64 },
    Dielectric { ir: i64 },
    Isotropic { texture: Arc<T> },
    DiffuseLight { texture: Arc<T> },
}

impl<T: Texture> Material<T> {
    /// The construction-time parameters lie in the ranges the factories
    /// establish.
    pub open spec fn wf(self) -> bool {
        match self {
            Material::Metal { albedo, fuzz } => 0 <= fuzz <= FP_ONE && color_in_unit(albedo),
            Material::Dielectric { ir } => IR_MIN <= ir <= IR_MAX,
            _ => true,
        }
    }
}

/// What `scatter` returns: nothing when the path terminates, else the
/// attenuation and the outgoing ray, both exact functions of the inputs
/// and of the entropy sample.
pub open spec fn scatter_spec<T: Texture>(
    m: Material<T>,
    r_in: Ray,
    h: HitPayload,
    s: ScatterSample,
) -> Option<(Color, Ray)> {
    match m {
        Material::Lambertian { texture } => Some(
            (
                texture.sample_spec(h.u, h.v, h.point),
                Ray {
                    origin: h.point,
                    direction: v3_of(lambertian_dir_spec(h.normal@, s.in_sphere@)),
                },
            ),
        ),
        Material::Metal { albedo, fuzz } => {
            let dir = metal_dir_spec(r_in.direction@, h.normal@, fuzz as int, s.in_sphere@);
            if dot_raw_spec(dir, h.normal@) > 0 {
                Some((albedo, Ray { origin: h.point, direction: v3_of(dir) }))
            } else {
                None
            }
        },
        Material::Dielectric { ir } => {
            let dir = dielectric_dir_spec(
                r_in.direction@,
                h.normal@,
                h.front_face,
                ir as int,
                s.uniform as int,
            );
            let dir_safe = if dir == zero3() {
                h.normal@
            } else {
                dir
            };
            Some((crate::color::white_spec(), Ray { origin: h.point, direction: v3_of(dir_safe) }))
        },
        Material::Isotropic { texture } => Some(
            (
                texture.sample_spec(h.u, h.v, h.point),
                Ray {
                    origin: h.point,
                    direction: v3_of(isotropic_dir_spec(h.normal@, s.in_sphere@)),
                },
            ),
        ),
        Material::DiffuseLight { .. } => None,
    }
}

/// The texture this material would sample its attenuation from returns a
/// color with every channel in `[0, FP_ONE]` at this hit; vacuous for the
/// laws whose attenuation is a construction-time constant.
pub open spec fn attenuation_source_in_unit<T: Texture>(m: Material<T>, h: HitPayload) -> bool {
    match m {
        Material::Lambertian { texture } => color_in_unit(texture.sample_spec(h.u, h.v, h.point)),
        Material::Isotropic { texture } => color_in_unit(texture.sample_spec(h.u, h.v, h.point)),
        _ => true,
    }
}

/// What `emitted` returns: the texture's sampled color for a diffuse
/// light, black for every other law. The side hit plays no part.
pub open spec fn emitted_spec<T: Texture>(m: Material<T>, h: HitPayload) -> Color {
    match m {
        Material::DiffuseLight { texture } => texture.sample_spec(h.u, h.v, h.point),
        _ => black_spec(),
    }
}

/// The Metal law's perturbed direction: reflect the normalized incoming
/// direction about the normal, then add `fuzz` times the random point.
fn metal_dir(d: &Vec3, n: &Vec3, fuzz: i64, rnd: &Vec3) -> (dir: Vec3)
    requires
        direction_wf(*d),
        in_range(n@, FP_ONE as int),
        0 <= fuzz <= FP_ONE,
        in_range(rnd@, FP_ONE as int),
    ensures
        dir@ == metal_dir_spec(d@, n@, fuzz as int, rnd@),
        in_range(dir@, 8 * FP_ONE as int),
{
    let u = d.unit();
    let refl = u.reflect(n);
    proof {
        lemma_mul_bound(fuzz as int, rnd@.0, 65536, 65536);
        lemma_mul_bound(fuzz as int, rnd@.1, 65536, 65536);
        lemma_mul_bound(fuzz as int, rnd@.2, 65536, 65536);
        lemma_tdiv_le(fuzz as int * rnd@.0, 65536, 65536);
        lemma_tdiv_le(fuzz as int * rnd@.1, 65536, 65536);
        lemma_tdiv_le(fuzz as int * rnd@.2, 65536, 65536);
    }
    let offset = rnd.smul(fuzz);
    refl.add(&offset)
}

/// The Dielectric law's outgoing direction: total internal reflection and
/// Schlick's approximation decide between reflecting and refracting.
fn dielectric_dir(ir: i64, front_face: bool, d: &Vec3, n: &Vec3, uniform: i64) -> (dir: Vec3)
    requires
        IR_MIN <= ir <= IR_MAX,
        direction_wf(*d),
        in_range(n@, FP_ONE as int),
    ensures
        dir@ == dielectric_dir_spec(d@, n@, front_face, ir as int, uniform as int),
{
    let ratio: i64 = if front_face {
        fp_div(FP_ONE, ir)
    } else {
        ir
    };
    proof {
        if front_face {
            lemma_tdiv_nonneg((FP_ONE as int) * (FP_ONE as int), ir as int);
            assert((FP_ONE as int) * (FP_ONE as int) <= 1048576 * (ir as int)) by (nonlinear_arith)
                requires
                    ir >= 4096,
                    FP_ONE == 65536,
            ;
            lemma_tdiv_le((FP_ONE as int) * (FP_ONE as int), ir as int, 1048576);
        }
        assert(0 <= ratio <= 1048576);
    }
    let u = d.unit();
    let nu = u.neg();
    let dcos = nu.dot_fp(n);
    let cos: i64 = if dcos > FP_ONE {
        FP_ONE
    } else if dcos < -FP_ONE {
        -FP_ONE
    } else {
        dcos
    };
    proof {
        assert(cos as int == clamp_unit_spec(dot_fp_spec(vneg(u@), n@)));
        assert(0 <= (cos as int) * (cos as int) <= 4294967296) by (nonlinear_arith)
            requires
                -65536 <= cos <= 65536,
        ;
    }
    let c2: i64 = cos * cos;
    let s2: i64 = FP_ONE_SQ - c2;
    let sin: i64 = sqrt_i64(s2);
    proof {
        lemma_sqrt_floor_le(s2 as int, 65536);
    }
    let rs = fp_mul(ratio, sin);
    let reflects: bool;
    if rs > FP_ONE {
        reflects = true;
    } else {
        let num: i64 = FP_ONE - ratio;
        let den: i64 = FP_ONE + ratio;
        proof {
            lemma_mul_bound(num as int, num as int, 1048576, 1048576);
            lemma_mul_bound(den as int, den as int, 1114112, 1114112);
            assert((num as int) * (num as int) >= 0 && (den as int) * (den as int) >= 1
                && (num as int) * (num as int) <= (den as int) * (den as int))
                by (nonlinear_arith)
                requires
                    -(den as int) <= num as int <= den as int,
                    den >= 1,
            ;
        }
        let nn: i64 = num * num;
        let dd: i64 = den * den;
        let r0: i64 = fp_div(nn, dd);
        proof {
            lemma_tdiv_nonneg((nn as int) * (FP_ONE as int), dd as int);
            assert(-(65536 * (dd as int)) <= (nn as int) * 65536 <= 65536 * (dd as int))
                by (nonlinear_arith)
                requires
                    0 <= nn as int <= dd as int,
            ;
            lemma_tdiv_le((nn as int) * 65536, dd as int, 65536);
            assert(0 <= r0 <= FP_ONE);
        }
        let f: i64 = FP_ONE - cos;
        proof {
            lemma_mul_bound(f as int, f as int, 131072, 131072);
            lemma_tdiv_le((f as int) * (f as int), 65536, 262144);
            assert((f as int) * (f as int) >= 0) by (nonlinear_arith);
            lemma_tdiv_nonneg((f as int) * (f as int), 65536);
        }
        let f2 = fp_mul(f, f);
        proof {
            lemma_mul_bound(f2 as int, f as int, 262144, 131072);
            lemma_tdiv_le((f2 as int) * (f as int), 65536, 524288);
            assert((f2 as int) * (f as int) >= 0) by (nonlinear_arith)
                requires
                    f2 >= 0,
                    f >= 0,
            ;
            lemma_tdiv_nonneg((f2 as int) * (f as int), 65536);
        }
        let f3 = fp_mul(f2, f);
        proof {
            lemma_mul_bound(f3 as int, f as int, 524288, 131072);
            lemma_tdiv_le((f3 as int) * (f as int), 65536, 1048576);
            assert((f3 as int) * (f as int) >= 0) by (nonlinear_arith)
                requires
                    f3 >= 0,
                    f >= 0,
            ;
            lemma_tdiv_nonneg((f3 as int) * (f as int), 65536);
        }
        let f4 = fp_mul(f3, f);
        proof {
            lemma_mul_bound(f4 as int, f as int, 1048576, 131072);
            lemma_tdiv_le((f4 as int) * (f as int), 65536, 2097152);
            assert((f4 as int) * (f as int) >= 0) by (nonlinear_arith)
                requires
                    f4 >= 0,
                    f >= 0,
            ;
            lemma_tdiv_nonneg((f4 as int) * (f as int), 65536);
        }
        let f5 = fp_mul(f4, f);
        let omr: i64 = FP_ONE - r0;
        proof {
            lemma_mul_bound(omr as int, f5 as int, 65536, 2097152);
            lemma_tdiv_le((omr as int) * (f5 as int), 65536, 2097152);
        }
        let term = fp_mul(omr, f5);
        let refl: i64 = r0 + term;
        reflects = uniform < refl;
        proof {
            assert(refl as int == schlick_spec(cos as int, ratio as int));
        }
    }
    if reflects {
        u.reflect(n)
    } else {
        proof {
            lemma_mul_bound(cos as int, n@.0, 65536, 65536);
            lemma_mul_bound(cos as int, n@.1, 65536, 65536);
            lemma_mul_bound(cos as int, n@.2, 65536, 65536);
            lemma_tdiv_le((cos as int) * n@.0, 65536, 65536);
            lemma_tdiv_le((cos as int) * n@.1, 65536, 65536);
            lemma_tdiv_le((cos as int) * n@.2, 65536, 65536);
        }
        let cn = n.smul(cos);
        let inner = u.add(&cn);
        proof {
            lemma_mul_bound(ratio as int, vadd(u@, smul_spec(cos as int, n@)).0, 1048576, 131072);
            lemma_mul_bound(ratio as int, vadd(u@, smul_spec(cos as int, n@)).1, 1048576, 131072);
            lemma_mul_bound(ratio as int, vadd(u@, smul_spec(cos as int, n@)).2, 1048576, 131072);
            lemma_tdiv_le((ratio as int) * vadd(u@, smul_spec(cos as int, n@)).0, 65536, 2097152);
            lemma_tdiv_le((ratio as int) * vadd(u@, smul_spec(cos as int, n@)).1, 65536, 2097152);
            lemma_tdiv_le((ratio as int) * vadd(u@, smul_spec(cos as int, n@)).2, 65536, 2097152);
        }
        let perp = inner.smul(ratio);
        proof {
            lemma_mul_bound(perp@.0, perp@.0, 2097152, 2097152);
            lemma_mul_bound(perp@.1, perp@.1, 2097152, 2097152);
            lemma_mul_bound(perp@.2, perp@.2, 2097152, 2097152);
        }
        let p2 = perp.norm2();
        let k: i64 = FP_ONE_SQ - p2;
        let ka: i64 = if k >= 0 {
            k
        } else {
            -k
        };
        let par = sqrt_i64(ka);
        proof {
            assert((ka as int) <= 4194304 * 4194304) by (nonlinear_arith)
                requires
                    -13194139533312 <= ka as int <= 13194139533312,
            ;
            lemma_sqrt_floor_le(ka as int, 4194304);
            lemma_mul_bound(par as int, n@.0, 4194304, 65536);
            lemma_mul_bound(par as int, n@.1, 4194304, 65536);
            lemma_mul_bound(par as int, n@.2, 4194304, 65536);
            lemma_tdiv_le((par as int) * n@.0, 65536, 4194304);
            lemma_tdiv_le((par as int) * n@.1, 65536, 4194304);
            lemma_tdiv_le((par as int) * n@.2, 65536, 4194304);
        }
        let pn = n.smul(par);
        perp.sub(&pn)
    }
}

impl<T: Texture> Material<T> {
    /// Decide the fate of a light path at this surface: nothing means the
    /// path is absorbed; a value carries the attenuation to multiply into
    /// the running color and the ray to trace next. Pure in its inputs:
    /// the entropy consumed is passed in as `sample`.
    pub fn scatter(&self, r_in: &Ray, payload: &HitPayload, sample: &ScatterSample) -> (result:
        Option<(Color, Ray)>)
        requires
            self.wf(),
            normal_wf(payload.normal),
            sample_wf(*sample),
            (*self is Metal || *self is Dielectric) ==> direction_wf(r_in.direction),
        ensures
            result == scatter_spec(*self, *r_in, *payload, *sample),
            (*self is Lambertian || *self is Isotropic || *self is Dielectric)
                ==> result is Some,
            *self is DiffuseLight ==> result is None,
            result matches Some((a, sc)) ==> sc.origin == payload.point && sc.direction@
                != zero3(),
            result matches Some((a, sc)) ==> ((*self is Metal || *self is Dielectric)
                ==> color_in_unit(a)),
    {
        proof {
            lemma_norm2_pos(payload.normal@);
        }
        match self {
            Material::Lambertian { texture } => {
                let sum = payload.normal.add(&sample.in_sphere);
                let dir: Vec3;
                if sum.is_zero() {
                    dir = payload.normal;
                } else {
                    proof {
                        lemma_norm2_pos(sum@);
                    }
                    let u = sum.unit();
                    if u.is_zero() {
                        dir = payload.normal;
                    } else {
                        dir = u;
                    }
                }
                let att = texture.sample(payload.u, payload.v, &payload.point);
                Some((att, Ray { origin: payload.point, direction: dir }))
            },
            Material::Metal { albedo, fuzz } => {
                let dir = metal_dir(&r_in.direction, &payload.normal, *fuzz, &sample.in_sphere);
                let d = dir.dot_raw(&payload.normal);
                if d > 0 {
                    proof {
                        if dir@ == zero3() {
                            assert(dot_raw_spec(dir@, payload.normal@) == 0) by (nonlinear_arith)
                                requires
                                    dir@ == ((0int, 0int, 0int)),
                            ;
                        }
                    }
                    Some((*albedo, Ray { origin: payload.point, direction: dir }))
                } else {
                    None
                }
            },
            Material::Dielectric { ir } => {
                let dir0 = dielectric_dir(
                    *ir,
                    payload.front_face,
                    &r_in.direction,
                    &payload.normal,
                    sample.uniform,
                );
                let dir: Vec3;
                if dir0.is_zero() {
                    dir = payload.normal;
                } else {
                    dir = dir0;
                }
                Some((Color::white(), Ray { origin: payload.point, direction: dir }))
            },
            Material::Isotropic { texture } => {
                let dir: Vec3;
                if sample.in_sphere.is_zero() {
                    dir = payload.normal;
                } else {
                    dir = sample.in_sphere;
                }
                let att = texture.sample(payload.u, payload.v, &payload.point);
                Some((att, Ray { origin: payload.point, direction: dir }))
            },
            Material::DiffuseLight { .. } => None,
        }
    }

    /// The light this surface emits on its own: the texture's sampled
    /// color for a diffuse light, black for every other law — emission is
    /// two-sided, `front_face` is not consulted.
    pub fn emitted(&self, payload: &HitPayload) -> (c: Color)
        ensures
            c == emitted_spec(*self, *payload),
    {
        match self {
            Material::DiffuseLight { texture } => texture.sample(
                payload.u,
                payload.v,
                &payload.point,
            ),
            _ => Color::black(),
        }
    }

    /// A diffuse (Lambertian) material over the given texture.
    pub fn lambertian(albedo: Arc<T>) -> (m: Material<T>)
        ensures
            m == (Material::Lambertian { texture: albedo }),
            m.wf(),
    {
        Material::Lambertian { texture: albedo }
    }

    /// A glossy specular material with the given base color and fuzz.
    /// Out-of-range configuration is clamped at construction: fuzz into
    /// `[0, FP_ONE]`, each albedo channel into `[0, FP_ONE]`.
    pub fn metal(albedo: Color, fuzz: i64) -> (m: Material<T>)
        ensures
            m == (Material::<T>::Metal {
                albedo: clamp_color_spec(albedo),
                fuzz: clamp_channel_spec(fuzz as int) as i64,
            }),
            m.wf(),
    {
        Material::Metal { albedo: clamp_color(albedo), fuzz: clamp_channel(fuzz) }
    }

    /// A dielectric with the given refraction index. Out-of-range
    /// configuration is clamped at construction into `[IR_MIN, IR_MAX]`.
    pub fn dielectric(ir: i64) -> (m: Material<T>)
        ensures
            m == (Material::<T>::Dielectric { ir: clamp_ir_spec(ir as int) as i64 }),
            m.wf(),
    {
        let v: i64 = if ir < IR_MIN {
            IR_MIN
        } else if ir > IR_MAX {
            IR_MAX
        } else {
            ir
        };
        Material::Dielectric { ir: v }
    }

    /// An isotropic phase function (volumetric scattering) over the given
    /// texture.
    pub fn isotropic(albedo: Arc<T>) -> (m: Material<T>)
        ensures
            m == (Material::Isotropic { texture: albedo }),
            m.wf(),
    {
        Material::Isotropic { texture: albedo }
    }

    /// A pure emitter over the given texture.
    pub fn diffuse_light(emit: Arc<T>) -> (m: Material<T>)
        ensures
            m == (Material::DiffuseLight { texture: emit }),
            m.wf(),
    {
        Material::DiffuseLight { texture: emit }
    }
}

} // verus!
