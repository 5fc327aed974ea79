use ray_materials::fixed::{fp_div, fp_mul, sqrt_u64, tdiv_i64, FP_ONE};
use ray_materials::vec3::Vec3;

#[test]
fn truncating_division_rounds_toward_zero() {
    assert_eq!(tdiv_i64(7, 2), 3);
    assert_eq!(tdiv_i64(-7, 2), -3);
    assert_eq!(tdiv_i64(0, 5), 0);
    assert_eq!(tdiv_i64(-1, FP_ONE), 0);
}

#[test]
fn fixed_point_products_and_quotients() {
    // 0.5 * 0.5 == 0.25
    assert_eq!(fp_mul(32768, 32768), 16384);
    // 1 / 2 == 0.5
    assert_eq!(fp_div(FP_ONE, 2 * FP_ONE), 32768);
    assert_eq!(fp_mul(-32768, 32768), -16384);
    assert_eq!(fp_mul(FP_ONE, 12345), 12345);
}

#[test]
fn square_root_is_the_floor_root() {
    assert_eq!(sqrt_u64(0), 0);
    assert_eq!(sqrt_u64(1), 1);
    assert_eq!(sqrt_u64(15), 3);
    assert_eq!(sqrt_u64(16), 4);
    assert_eq!(sqrt_u64(4294967296), 65536);
    assert_eq!(sqrt_u64(4294967295), 65535);
}

#[test]
fn unit_rescales_a_three_four_five_vector() {
    let v = Vec3 { x: 3 * FP_ONE, y: 4 * FP_ONE, z: 0 };
    let u = v.unit();
    assert_eq!(u, Vec3 { x: 39321, y: 52428, z: 0 });
}

#[test]
fn reflect_mirrors_about_the_normal() {
    let d = Vec3 { x: 46341, y: -46341, z: 0 };
    let n = Vec3 { x: 0, y: FP_ONE, z: 0 };
    assert_eq!(d.reflect(&n), Vec3 { x: 46341, y: 46341, z: 0 });
}
