use raytracing::body::HitRecord;
use raytracing::material::materials::{Base, Dielectric, Lambertian, Light, Metal};
use raytracing::material::{Material, ScatterSample};
use raytracing::ray::Ray;
use raytracing::scalar::Scalar;
use raytracing::vector::Vec3D;

type V = [f32; 3];

fn s(x: f32) -> Scalar {
    Scalar::from_bits(x.to_bits())
}

fn f(x: Scalar) -> f32 {
    f32::from_bits(x.to_bits())
}

fn v(a: V) -> Vec3D {
    Vec3D::new(s(a[0]), s(a[1]), s(a[2]))
}

fn w(a: Vec3D) -> V {
    [f(a.x), f(a.y), f(a.z)]
}

fn sample() -> ScatterSample {
    ScatterSample {
        diffuse: v([0.1, 0.9, 0.2]),
        fuzzed: v([0.3, 0.8, -0.1]),
        fuzzed_facing: s(0.8),
        sine_ratio: s(0.4),
        reflectance: s(0.05),
        draw: s(0.5),
        reflected: v([0.6, 0.8, 0.0]),
        refracted: v([0.6, -0.8, 0.0]),
    }
}

fn record() -> HitRecord {
    let mut record = HitRecord::new();
    record.point = v([1.0, 2.0, 3.0]);
    record.normal = v([0.0, 1.0, 0.0]);
    record.t = s(4.0);
    record.front_face = true;
    record
}

fn marked() -> (Ray, Vec3D) {
    (Ray::new(&v([7.0, 7.0, 7.0]), &v([8.0, 8.0, 8.0])), v([9.0, 9.0, 9.0]))
}

#[test]
fn base_reports_a_scattering_and_writes_nothing() {
    let (mut ray_out, mut attenuation) = marked();
    assert!(Base {}.scatter(&sample(), &mut ray_out, &mut attenuation, &record()));
    assert_eq!(w(ray_out.origin), [7.0, 7.0, 7.0]);
    assert_eq!(w(ray_out.direction), [8.0, 8.0, 8.0]);
    assert_eq!(w(attenuation), [9.0, 9.0, 9.0]);
    assert_eq!(w(Base {}.emit()), [0.0, 0.0, 0.0]);
}

#[test]
fn lambertian_scatters_along_the_sample() {
    let material = Lambertian { albedo: v([0.8, 0.2, 0.2]) };
    let (mut ray_out, mut attenuation) = marked();
    assert!(material.scatter(&sample(), &mut ray_out, &mut attenuation, &record()));
    assert_eq!(w(ray_out.origin), [1.0, 2.0, 3.0]);
    assert_eq!(w(ray_out.direction), [0.1, 0.9, 0.2]);
    assert_eq!(w(attenuation), [0.8, 0.2, 0.2]);
    assert_eq!(w(material.emit()), [0.0, 0.0, 0.0]);
}

#[test]
fn lambertian_falls_back_to_the_normal() {
    let material = Lambertian { albedo: v([0.8, 0.2, 0.2]) };
    let mut degenerate = sample();
    degenerate.diffuse = v([1.0e-8, -1.0e-8, 0.0]);
    let (mut ray_out, mut attenuation) = marked();
    assert!(material.scatter(&degenerate, &mut ray_out, &mut attenuation, &record()));
    assert_eq!(w(ray_out.origin), [1.0, 2.0, 3.0]);
    assert_eq!(w(ray_out.direction), [0.0, 1.0, 0.0]);
    assert_eq!(w(attenuation), [0.8, 0.2, 0.2]);
}

#[test]
fn metal_scatters_what_leaves_the_surface() {
    let material = Metal { albedo: v([0.9, 0.9, 0.9]), fuzz: s(0.3) };
    let (mut ray_out, mut attenuation) = marked();
    assert!(material.scatter(&sample(), &mut ray_out, &mut attenuation, &record()));
    assert_eq!(w(ray_out.origin), [1.0, 2.0, 3.0]);
    assert_eq!(w(ray_out.direction), [0.3, 0.8, -0.1]);
    assert_eq!(w(attenuation), [0.9, 0.9, 0.9]);
    assert_eq!(w(material.emit()), [0.0, 0.0, 0.0]);
}

#[test]
fn metal_absorbs_what_enters_the_surface() {
    let material = Metal { albedo: v([0.9, 0.9, 0.9]), fuzz: s(0.3) };
    for facing in [0.0f32, -0.0, -0.2, f32::NAN] {
        let mut inward = sample();
        inward.fuzzed_facing = s(facing);
        let (mut ray_out, mut attenuation) = marked();
        assert!(!material.scatter(&inward, &mut ray_out, &mut attenuation, &record()));
        assert_eq!(w(ray_out.origin), [1.0, 2.0, 3.0]);
        assert_eq!(w(ray_out.direction), [0.3, 0.8, -0.1]);
        assert_eq!(w(attenuation), [0.9, 0.9, 0.9]);
    }
}

#[test]
fn dielectric_refracts_below_the_draw() {
    let material = Dielectric { refraction_index: s(1.5) };
    let (mut ray_out, mut attenuation) = marked();
    assert!(material.scatter(&sample(), &mut ray_out, &mut attenuation, &record()));
    assert_eq!(w(ray_out.origin), [1.0, 2.0, 3.0]);
    assert_eq!(w(ray_out.direction), [0.6, -0.8, 0.0]);
    assert_eq!(w(attenuation), [1.0, 1.0, 1.0]);
    assert_eq!(w(material.emit()), [0.0, 0.0, 0.0]);
}

#[test]
fn dielectric_reflects_above_the_draw() {
    let material = Dielectric { refraction_index: s(1.5) };
    let mut glancing = sample();
    glancing.reflectance = s(0.75);
    let (mut ray_out, mut attenuation) = marked();
    assert!(material.scatter(&glancing, &mut ray_out, &mut attenuation, &record()));
    assert_eq!(w(ray_out.direction), [0.6, 0.8, 0.0]);
    assert_eq!(w(attenuation), [1.0, 1.0, 1.0]);
    glancing.reflectance = s(0.5);
    assert!(material.scatter(&glancing, &mut ray_out, &mut attenuation, &record()));
    assert_eq!(w(ray_out.direction), [0.6, -0.8, 0.0]);
}

#[test]
fn dielectric_reflects_totally() {
    let material = Dielectric { refraction_index: s(1.5) };
    let mut trapped = sample();
    trapped.sine_ratio = s(1.2);
    trapped.refracted = v([f32::NAN, f32::NAN, f32::NAN]);
    let (mut ray_out, mut attenuation) = marked();
    assert!(material.scatter(&trapped, &mut ray_out, &mut attenuation, &record()));
    assert_eq!(w(ray_out.direction), [0.6, 0.8, 0.0]);
    assert!(Dielectric::cannot_refract(s(1.2)));
    assert!(Dielectric::cannot_refract(s(1.0000001)));
    assert!(!Dielectric::cannot_refract(s(1.0)));
    assert!(!Dielectric::cannot_refract(s(0.4)));
    assert!(!Dielectric::cannot_refract(s(f32::NAN)));
}

#[test]
fn dielectric_ratio_depends_on_the_face() {
    let material = Dielectric { refraction_index: s(1.5) };
    let reciprocal = 1.0f32 / 1.5;
    assert_eq!(f(material.refraction_ratio(true, s(reciprocal))), reciprocal);
    assert_eq!(f(material.refraction_ratio(false, s(reciprocal))), 1.5);
}

#[test]
fn dielectric_cosine_is_capped() {
    for dot in [-0.5f32, -1.0, -1.5, 0.0, 0.25, -0.99999994, f32::NEG_INFINITY, f32::INFINITY] {
        let expected = (-dot).min(1.0);
        assert_eq!(f(Dielectric::cos_theta(s(dot))).to_bits(), expected.to_bits(), "{dot}");
    }
    assert_eq!(f(Dielectric::cos_theta(s(-0.5))), 0.5);
    assert_eq!(f(Dielectric::cos_theta(s(-1.5))), 1.0);
    assert_eq!(f(Dielectric::cos_theta(s(f32::NAN))), 1.0);
}

#[test]
fn light_emits_and_never_scatters() {
    let material = Light { color: v([30.0, 30.0, 30.0]) };
    let (mut ray_out, mut attenuation) = marked();
    assert!(!material.scatter(&sample(), &mut ray_out, &mut attenuation, &record()));
    assert_eq!(w(ray_out.origin), [7.0, 7.0, 7.0]);
    assert_eq!(w(ray_out.direction), [8.0, 8.0, 8.0]);
    assert_eq!(w(attenuation), [9.0, 9.0, 9.0]);
    assert_eq!(w(material.emit()), [30.0, 30.0, 30.0]);
}

#[test]
fn material_dispatches_on_its_model() {
    let materials = [
        Material::Base(Base {}),
        Material::Lambertian(Lambertian { albedo: v([0.8, 0.2, 0.2]) }),
        Material::Metal(Metal { albedo: v([0.9, 0.9, 0.9]), fuzz: s(0.3) }),
        Material::Dielectric(Dielectric { refraction_index: s(1.5) }),
        Material::Light(Light { color: v([30.0, 30.0, 30.0]) }),
    ];
    let scattered = [true, true, true, true, false];
    let directions = [[8.0, 8.0, 8.0], [0.1, 0.9, 0.2], [0.3, 0.8, -0.1], [0.6, -0.8, 0.0], [8.0, 8.0, 8.0]];
    let attenuations = [[9.0, 9.0, 9.0], [0.8, 0.2, 0.2], [0.9, 0.9, 0.9], [1.0, 1.0, 1.0], [9.0, 9.0, 9.0]];
    let emissions = [[0.0; 3], [0.0; 3], [0.0; 3], [0.0; 3], [30.0; 3]];
    for i in 0..materials.len() {
        let (mut ray_out, mut attenuation) = marked();
        assert_eq!(
            materials[i].scatter(&sample(), &mut ray_out, &mut attenuation, &record()),
            scattered[i]
        );
        assert_eq!(w(ray_out.direction), directions[i]);
        assert_eq!(w(attenuation), attenuations[i]);
        assert_eq!(w(materials[i].emit()), emissions[i]);
    }
}
