use std::sync::Arc;

use ray_materials::color::Color;
use ray_materials::fixed::FP_ONE;
use ray_materials::material::Material;
use ray_materials::ray::{HitPayload, Ray, ScatterSample};
use ray_materials::texture::SolidColor;
use ray_materials::vec3::Vec3;

fn v(x: i64, y: i64, z: i64) -> Vec3 {
    Vec3 { x, y, z }
}

fn hit(normal: Vec3, front_face: bool) -> HitPayload {
    HitPayload { point: v(0, 0, 0), normal, front_face, u: 0, v: 0, t: 0 }
}

fn sample(in_sphere: Vec3, uniform: i64) -> ScatterSample {
    ScatterSample { in_sphere, uniform }
}

fn ray_down() -> Ray {
    Ray { origin: v(0, 0, 0), direction: v(0, -FP_ONE, 0) }
}

fn gray() -> Arc<SolidColor> {
    Arc::new(SolidColor { color: Color { r: 32768, g: 32768, b: 32768 } })
}

#[test]
fn lambertian_constant_texture_scenario() {
    let m = Material::lambertian(gray());
    let h = hit(v(0, FP_ONE, 0), true);
    let s = sample(v(0, 0, 0), 0);
    let (att, scattered) = m.scatter(&ray_down(), &h, &s).unwrap();
    assert_eq!(att, Color { r: 32768, g: 32768, b: 32768 });
    assert_eq!(scattered.origin, v(0, 0, 0));
    assert_eq!(scattered.direction, v(0, FP_ONE, 0));
}

#[test]
fn lambertian_degenerate_sum_substitutes_normal() {
    let m = Material::lambertian(gray());
    let h = hit(v(0, 1000, 0), true);
    let s = sample(v(0, -1000, 0), 0);
    let (_, scattered) = m.scatter(&ray_down(), &h, &s).unwrap();
    assert_eq!(scattered.direction, v(0, 1000, 0));
}

#[test]
fn metal_mirror_reflects_unnormalized_incoming() {
    let albedo = Color { r: 52428, g: 52428, b: 52428 };
    let m = Material::<SolidColor>::metal(albedo, 0);
    let h = hit(v(0, FP_ONE, 0), true);
    let r = Ray { origin: v(0, 0, 0), direction: v(FP_ONE, -FP_ONE, 0) };
    let s = sample(v(0, 0, 0), 0);
    let (att, scattered) = m.scatter(&r, &h, &s).unwrap();
    assert_eq!(att, albedo);
    // The ideal specular direction, proportional to (1, 1, 0).
    assert_eq!(scattered.direction, v(46341, 46341, 0));
    assert_eq!(scattered.direction.x, scattered.direction.y);
    assert!(scattered.direction.x > 0);
    assert_eq!(scattered.direction.z, 0);
}

#[test]
fn metal_grazing_with_full_fuzz_absorbs() {
    let albedo = Color { r: 52428, g: 52428, b: 52428 };
    let m = Material::<SolidColor>::metal(albedo, FP_ONE);
    let h = hit(v(0, FP_ONE, 0), true);
    // A grazing incoming ray and a fuzz offset pointing into the surface.
    let r = Ray { origin: v(0, 0, 0), direction: v(FP_ONE, -1, 0) };
    let s = sample(v(0, -(FP_ONE - 1), 0), 0);
    assert!(m.scatter(&r, &h, &s).is_none());
}

#[test]
fn metal_clamps_fuzz_and_albedo_at_construction() {
    // Channels above FP_ONE and below zero are clamped; fuzz far above one
    // behaves as one.
    let m = Material::<SolidColor>::metal(Color { r: 700000, g: -3, b: 30000 }, 999999);
    let h = hit(v(0, FP_ONE, 0), true);
    let r = ray_down();
    let s = sample(v(0, 0, 0), 0);
    let (att, scattered) = m.scatter(&r, &h, &s).unwrap();
    assert_eq!(att, Color { r: FP_ONE, g: 0, b: 30000 });
    assert_eq!(scattered.direction, v(0, FP_ONE, 0));
}

#[test]
fn dielectric_total_internal_reflection_for_any_draw() {
    // Leaving the medium (front_face = false) at a grazing angle with
    // ir = 1.5: ratio * sin_theta > 1, so every draw reflects.
    let m = Material::<SolidColor>::dielectric(98304);
    let h = hit(v(0, FP_ONE, 0), false);
    let r = Ray { origin: v(0, 0, 0), direction: v(FP_ONE, -1, 0) };
    for uniform in [0, 1, 2621, 32768, FP_ONE - 1] {
        let (att, scattered) = m.scatter(&r, &h, &sample(v(0, 0, 0), uniform)).unwrap();
        assert_eq!(att, Color { r: FP_ONE, g: FP_ONE, b: FP_ONE });
        assert_eq!(scattered.direction, v(FP_ONE, 1, 0));
    }
}

#[test]
fn dielectric_perpendicular_incidence_uses_schlick_r0() {
    // Perpendicular incidence, ir = 1.5: the (1 - cos)^5 term vanishes and
    // the reflectance is exactly r0 = ((1 - ratio) / (1 + ratio))^2, which
    // is 2621 at this scale. Draws below r0 reflect, the rest refract
    // straight through.
    let m = Material::<SolidColor>::dielectric(98304);
    let h = hit(v(0, FP_ONE, 0), true);
    let r = ray_down();

    let (att, reflected) = m.scatter(&r, &h, &sample(v(0, 0, 0), 0)).unwrap();
    assert_eq!(att, Color { r: FP_ONE, g: FP_ONE, b: FP_ONE });
    assert_eq!(reflected.direction, v(0, FP_ONE, 0));

    let (_, reflected2) = m.scatter(&r, &h, &sample(v(0, 0, 0), 2620)).unwrap();
    assert_eq!(reflected2.direction, v(0, FP_ONE, 0));

    let (att3, refracted) = m.scatter(&r, &h, &sample(v(0, 0, 0), 2621)).unwrap();
    assert_eq!(att3, Color { r: FP_ONE, g: FP_ONE, b: FP_ONE });
    assert_eq!(refracted.direction, v(0, -FP_ONE, 0));
}

#[test]
fn dielectric_clamps_refraction_index() {
    // A non-positive index is clamped at construction; the clamped value
    // gives total internal reflection at this grazing angle.
    let m = Material::<SolidColor>::dielectric(0);
    let h = hit(v(0, FP_ONE, 0), true);
    let r = Ray { origin: v(0, 0, 0), direction: v(FP_ONE, -1, 0) };
    let (_, scattered) = m.scatter(&r, &h, &sample(v(0, 0, 0), 0)).unwrap();
    assert_eq!(scattered.direction, v(FP_ONE, 1, 0));
}

#[test]
fn isotropic_scatters_into_sample_direction() {
    let m = Material::isotropic(gray());
    let h = hit(v(0, FP_ONE, 0), true);
    let s = sample(v(100, 200, -300), 0);
    let (att, scattered) = m.scatter(&ray_down(), &h, &s).unwrap();
    assert_eq!(att, Color { r: 32768, g: 32768, b: 32768 });
    assert_eq!(scattered.direction, v(100, 200, -300));
    assert_eq!(scattered.origin, v(0, 0, 0));
}

#[test]
fn isotropic_zero_sample_substitutes_normal() {
    let m = Material::isotropic(gray());
    let h = hit(v(0, FP_ONE, 0), true);
    let (_, scattered) = m.scatter(&ray_down(), &h, &sample(v(0, 0, 0), 0)).unwrap();
    assert_eq!(scattered.direction, v(0, FP_ONE, 0));
}

#[test]
fn diffuse_light_never_scatters_and_emits_two_sided() {
    // An emitter brighter than full white: emitted light may exceed one.
    let bright = Arc::new(SolidColor { color: Color { r: 131072, g: 98304, b: 65536 } });
    let m = Material::diffuse_light(bright);
    let front = hit(v(0, FP_ONE, 0), true);
    let back = hit(v(0, FP_ONE, 0), false);
    assert!(m.scatter(&ray_down(), &front, &sample(v(0, 0, 0), 0)).is_none());
    assert!(m.scatter(&ray_down(), &back, &sample(v(1, 2, 3), 99)).is_none());
    assert_eq!(m.emitted(&front), Color { r: 131072, g: 98304, b: 65536 });
    assert_eq!(m.emitted(&back), Color { r: 131072, g: 98304, b: 65536 });
}

#[test]
fn lambertian_isotropic_dielectric_always_continue() {
    let lam = Material::lambertian(gray());
    let iso = Material::isotropic(gray());
    let die = Material::<SolidColor>::dielectric(98304);
    let h = hit(v(0, FP_ONE, 0), true);
    let samples = [
        sample(v(0, 0, 0), 0),
        sample(v(20000, -30000, 10000), 12345),
        sample(v(-65535, 0, 0), FP_ONE - 1),
        sample(v(1, 1, 1), 2621),
    ];
    for s in samples {
        for m in [&lam, &iso, &die] {
            let (_, scattered) = m.scatter(&ray_down(), &h, &s).unwrap();
            let d = scattered.direction;
            assert!(d.x != 0 || d.y != 0 || d.z != 0);
        }
    }
}

#[test]
fn every_non_emissive_factory_emits_black() {
    let h = hit(v(0, FP_ONE, 0), true);
    let black = Color { r: 0, g: 0, b: 0 };
    assert_eq!(Material::lambertian(gray()).emitted(&h), black);
    assert_eq!(Material::<SolidColor>::metal(Color { r: 1, g: 2, b: 3 }, 0).emitted(&h), black);
    assert_eq!(Material::<SolidColor>::dielectric(98304).emitted(&h), black);
    assert_eq!(Material::isotropic(gray()).emitted(&h), black);
}
