use voxelengine::graphics::materials::default_material::SolidColorMaterial;
use voxelengine::graphics::materials::dielectric_material::DielectricMaterial;
use voxelengine::graphics::materials::lambertian_material::LambertianMaterial;
use voxelengine::graphics::materials::lambertian_material::SCATTER_LIMIT_BITS;
use voxelengine::graphics::materials::metal_material::MetalMaterial;
use voxelengine::graphics::materials::Material;
use voxelengine::graphics::materials::Scatter;
use voxelengine::hittable::Hit;
use voxelengine::math::scalar::Scalar;
use voxelengine::math::vec3::Vec3;
use voxelengine::ray::Ray;

fn s(value: f64) -> Scalar {
    Scalar::from_bits(value.to_bits())
}

fn v(a: [f64; 3]) -> Vec3 {
    Vec3::new(s(a[0]), s(a[1]), s(a[2]))
}

fn dot(a: [f64; 3], b: [f64; 3]) -> f64 {
    a[0] * b[0] + a[1] * b[1] + a[2] * b[2]
}

fn hit_at(point: [f64; 3], normal: [f64; 3], front_face: bool) -> Hit {
    let material = Material::SolidColor(SolidColorMaterial::new(v([0.0, 0.0, 0.0])));
    Hit::new(s(1.0), v(point), v(normal), front_face, material)
}

#[test]
fn scatter_new_keeps_its_parts() {
    let ray = Ray::new(v([1.0, 2.0, 3.0]), v([0.0, 0.0, -1.0]));
    let scatter = Scatter::new(v([0.5, 0.5, 0.5]), ray);
    assert_eq!(scatter.attenuation, v([0.5, 0.5, 0.5]));
    assert_eq!(scatter.scattered, ray);
    assert_eq!(scatter.scattered.origin, v([1.0, 2.0, 3.0]));
    assert_eq!(scatter.scattered.direction, v([0.0, 0.0, -1.0]));
}

#[test]
fn scatter_limit_is_one_billionth() {
    assert_eq!(SCATTER_LIMIT_BITS, 0.000000001f64.to_bits());
}

#[test]
fn lambertian_scatters_along_the_candidate() {
    let material = LambertianMaterial::new(v([0.9, 0.2, 0.1]));
    let hit = hit_at([1.0, 1.0, 1.0], [0.0, 1.0, 0.0], true);
    let candidate = [0.6, 1.8, 0.0];
    let scatter = material.scatter(&hit, v(candidate), s(dot(candidate, candidate))).unwrap();
    assert_eq!(scatter.attenuation, v([0.9, 0.2, 0.1]));
    assert_eq!(scatter.scattered.origin, v([1.0, 1.0, 1.0]));
    assert_eq!(scatter.scattered.direction, v(candidate));
}

#[test]
fn lambertian_falls_back_on_the_normal() {
    let material = LambertianMaterial::new(v([0.9, 0.2, 0.1]));
    let hit = hit_at([1.0, 1.0, 1.0], [0.0, 1.0, 0.0], true);
    let candidate = [1e-6, 0.0, 0.0];
    let scatter = material.scatter(&hit, v(candidate), s(dot(candidate, candidate))).unwrap();
    assert_eq!(scatter.scattered.direction, v([0.0, 1.0, 0.0]));
    assert_eq!(scatter.attenuation, v([0.9, 0.2, 0.1]));
    let zero = material.scatter(&hit, v([0.0; 3]), s(0.0)).unwrap();
    assert_eq!(zero.scattered.direction, v([0.0, 1.0, 0.0]));
}

#[test]
fn lambertian_keeps_a_candidate_at_the_limit() {
    let material = LambertianMaterial::new(v([0.9, 0.2, 0.1]));
    let hit = hit_at([0.0; 3], [0.0, 1.0, 0.0], true);
    let candidate = [3e-5, 1e-5, 0.0];
    let at_limit = material.scatter(&hit, v(candidate), s(0.000000001)).unwrap();
    assert_eq!(at_limit.scattered.direction, v(candidate));
    let nan = material.scatter(&hit, v(candidate), s(f64::NAN)).unwrap();
    assert_eq!(nan.scattered.direction, v(candidate));
}

#[test]
fn solid_color_scatters_along_the_candidate() {
    let material = SolidColorMaterial::new(v([0.1, 0.2, 0.3]));
    assert_eq!(material.color, v([0.1, 0.2, 0.3]));
    let hit = hit_at([4.0, 5.0, 6.0], [1.0, 0.0, 0.0], false);
    let scatter = material.scatter(&hit, v([0.0, 0.0, 0.0])).unwrap();
    assert_eq!(scatter.attenuation, v([0.1, 0.2, 0.3]));
    assert_eq!(scatter.scattered, Ray::new(v([4.0, 5.0, 6.0]), v([0.0, 0.0, 0.0])));
}

#[test]
fn metal_reflects_where_the_candidate_leaves_the_surface() {
    let material = MetalMaterial::new(v([0.8, 0.8, 0.8]), s(0.1));
    assert_eq!(material.fuzz, s(0.1));
    let normal = [0.0, 1.0, 0.0];
    let hit = hit_at([0.0, 0.0, 0.0], normal, true);
    let candidate = [0.7, 0.7, 0.05];
    let scatter = material.scatter(&hit, v(candidate), s(dot(candidate, normal))).unwrap();
    assert_eq!(scatter.attenuation, v([0.8, 0.8, 0.8]));
    assert_eq!(scatter.scattered, Ray::new(v([0.0, 0.0, 0.0]), v(candidate)));
}

#[test]
fn metal_absorbs_a_grazing_reflection_that_fuzz_pushes_under() {
    let material = MetalMaterial::new(v([0.8, 0.8, 0.8]), s(1.0));
    let normal = [0.0, 1.0, 0.0];
    let hit = hit_at([0.0, 0.0, 0.0], normal, true);
    let incoming = [1.0, -0.01, 0.0];
    let length = dot(incoming, incoming).sqrt();
    let unit = [incoming[0] / length, incoming[1] / length, incoming[2] / length];
    let along = 2.0 * dot(unit, normal);
    let reflected = [
        unit[0] - along * normal[0],
        unit[1] - along * normal[1],
        unit[2] - along * normal[2],
    ];
    assert!(dot(reflected, normal) > 0.0);
    let fuzz = [0.0, -1.0, 0.0];
    let candidate = [reflected[0] + fuzz[0], reflected[1] + fuzz[1], reflected[2] + fuzz[2]];
    let alignment = dot(candidate, normal);
    assert!(alignment <= 0.0);
    assert_eq!(material.scatter(&hit, v(candidate), s(alignment)), None);
    let clean = material.scatter(&hit, v(reflected), s(dot(reflected, normal)));
    assert_eq!(clean.unwrap().scattered.direction, v(reflected));
}

#[test]
fn metal_absorbs_at_alignment_zero_and_below() {
    let material = MetalMaterial::new(v([0.5, 0.5, 0.5]), s(0.0));
    let hit = hit_at([0.0; 3], [0.0, 1.0, 0.0], true);
    let candidate = v([1.0, 0.0, 0.0]);
    assert_eq!(material.scatter(&hit, candidate, s(0.0)), None);
    assert_eq!(material.scatter(&hit, candidate, s(-0.0)), None);
    assert_eq!(material.scatter(&hit, candidate, s(-3.0)), None);
    assert!(material.scatter(&hit, candidate, s(5e-324)).is_some());
    assert!(material.scatter(&hit, candidate, s(f64::NAN)).is_some());
}

#[test]
fn dielectric_ratio_depends_on_the_face() {
    let material = DielectricMaterial::new(s(1.5));
    assert_eq!(material.ref_idx, s(1.5));
    assert_eq!(material.refraction_ratio(true, s(1.0 / 1.5)), s(1.0 / 1.5));
    assert_eq!(material.refraction_ratio(false, s(1.0 / 1.5)), s(1.5));
}

#[test]
fn dielectric_reflects_where_it_cannot_refract() {
    let material = DielectricMaterial::new(s(1.5));
    let hit = hit_at([1.0, 2.0, 3.0], [0.0, 1.0, 0.0], false);
    let reflected = v([0.6, 0.8, 0.0]);
    let refracted = v([0.6, -0.8, 0.0]);
    let scatter = material.scatter(&hit, s(1.2), s(0.0), s(0.999), reflected, refracted).unwrap();
    assert_eq!(scatter.attenuation, v([1.0, 1.0, 1.0]));
    assert_eq!(scatter.scattered, Ray::new(v([1.0, 2.0, 3.0]), reflected));
}

#[test]
fn dielectric_reflects_where_the_draw_is_below_the_reflectance() {
    let material = DielectricMaterial::new(s(1.5));
    let hit = hit_at([1.0, 2.0, 3.0], [0.0, 1.0, 0.0], true);
    let reflected = v([0.6, 0.8, 0.0]);
    let refracted = v([0.6, -0.8, 0.0]);
    let scatter = material.scatter(&hit, s(0.4), s(0.3), s(0.29), reflected, refracted).unwrap();
    assert_eq!(scatter.scattered.direction, reflected);
    assert_eq!(scatter.attenuation, v([1.0, 1.0, 1.0]));
}

#[test]
fn dielectric_refracts_otherwise() {
    let material = DielectricMaterial::new(s(1.5));
    let hit = hit_at([1.0, 2.0, 3.0], [0.0, 1.0, 0.0], true);
    let reflected = v([0.6, 0.8, 0.0]);
    let refracted = v([0.6, -0.8, 0.0]);
    let scatter = material.scatter(&hit, s(0.4), s(0.3), s(0.3), reflected, refracted).unwrap();
    assert_eq!(scatter.scattered, Ray::new(v([1.0, 2.0, 3.0]), refracted));
    assert_eq!(scatter.attenuation, v([1.0, 1.0, 1.0]));
    let at_one = material.scatter(&hit, s(1.0), s(0.04), s(0.5), reflected, refracted).unwrap();
    assert_eq!(at_one.scattered.direction, refracted);
}
