use raytracing::scalar::Scalar;
use raytracing::vector::Vec3D;

fn s(x: f32) -> Scalar {
    Scalar::from_bits(x.to_bits())
}

fn v(x: f32, y: f32, z: f32) -> Vec3D {
    Vec3D::new(s(x), s(y), s(z))
}

fn bits(a: Vec3D) -> [u32; 3] {
    [a.x.to_bits(), a.y.to_bits(), a.z.to_bits()]
}

fn near_zero(x: f32, y: f32, z: f32) -> bool {
    (x.abs() <= f32::EPSILON) && (y.abs() <= f32::EPSILON) && (z.abs() <= f32::EPSILON)
}

#[test]
fn constructors_hold_their_components() {
    assert_eq!(bits(v(1.5, -2.0, 0.25)), [1.5f32.to_bits(), (-2.0f32).to_bits(), 0.25f32.to_bits()]);
    assert_eq!(bits(Vec3D::zero()), bits(v(0.0, 0.0, 0.0)));
    assert_eq!(bits(Vec3D::one()), bits(v(1.0, 1.0, 1.0)));
    assert_eq!(bits(Vec3D::x_unit()), bits(v(1.0, 0.0, 0.0)));
    assert_eq!(bits(Vec3D::y_unit()), bits(v(0.0, 1.0, 0.0)));
    assert_eq!(bits(Vec3D::z_unit()), bits(v(0.0, 0.0, 1.0)));
}

#[test]
fn negation_turns_every_sign() {
    let a = v(1.0, -2.0, 0.0);
    assert_eq!(bits(-a), bits(v(-1.0, 2.0, -0.0)));
    assert_eq!(bits(-(-a)), bits(a));
    assert_ne!(bits(-a), bits(a));
}

#[test]
fn equality_is_that_of_the_numbers() {
    assert!(v(0.0, 1.0, 2.0) == v(-0.0, 1.0, 2.0));
    assert!(v(0.0, 1.0, 2.0) != v(0.0, 1.0, 2.5));
    assert!(v(f32::NAN, 1.0, 2.0) != v(f32::NAN, 1.0, 2.0));
}

#[test]
fn near_zero_agrees_with_the_hardware() {
    let values = [
        0.0f32,
        -0.0,
        f32::EPSILON,
        -f32::EPSILON,
        1.1920930e-7,
        1.1920928e-7,
        1.0e-8,
        -1.0e-8,
        1.0,
        f32::NAN,
        f32::INFINITY,
    ];
    for &x in &values {
        for &y in &values {
            for &z in &values {
                assert_eq!(v(x, y, z).is_near_zero(), near_zero(x, y, z), "({x}, {y}, {z})");
            }
        }
    }
}

#[test]
fn near_zero_edges() {
    assert!(Vec3D::zero().is_near_zero());
    assert!(v(f32::EPSILON, -f32::EPSILON, 0.0).is_near_zero());
    assert!(!v(f32::EPSILON * 1.5, 0.0, 0.0).is_near_zero());
    assert!(!v(0.0, 0.0, f32::NAN).is_near_zero());
}

#[test]
fn unit_ball_keeps_what_is_strictly_inside() {
    let p = v(0.5, 0.5, 0.5);
    let kept = Vec3D::random_in_unit_sphere(p, s(0.75));
    assert_eq!(kept.map(bits), Some(bits(p)));
    assert!(Vec3D::random_in_unit_sphere(p, s(1.0)).is_none());
    assert!(Vec3D::random_in_unit_sphere(p, s(1.5)).is_none());
    assert!(Vec3D::random_in_unit_sphere(p, s(f32::NAN)).is_none());
    assert!(Vec3D::random_in_unit_sphere(p, s(0.99999994)).is_some());
}

#[test]
fn unit_disc_lies_in_the_plane() {
    let kept = Vec3D::random_in_unit_disc(s(0.25), s(-0.5), s(0.3125));
    assert_eq!(kept.map(bits), Some(bits(v(0.25, -0.5, 0.0))));
    assert!(Vec3D::random_in_unit_disc(s(1.0), s(0.0), s(1.0)).is_none());
    assert!(Vec3D::random_in_unit_disc(s(0.9), s(0.9), s(1.62)).is_none());
}

#[test]
fn hemisphere_follows_the_normal() {
    let a = v(0.6, 0.0, 0.8);
    assert_eq!(bits(Vec3D::random_on_hemisphere(a, s(0.8))), bits(a));
    assert_eq!(bits(Vec3D::random_on_hemisphere(a, s(-0.8))), bits(-a));
    assert_eq!(bits(Vec3D::random_on_hemisphere(a, s(0.0))), bits(-a));
    assert_eq!(bits(Vec3D::random_on_hemisphere(a, s(f32::NAN))), bits(-a));
}

#[derive(PartialEq, PartialOrd)]
struct Floats {
    x: f32,
    y: f32,
    z: f32,
}

#[test]
fn order_is_that_of_the_first_components_that_differ() {
    let values = [-1.0f32, -0.0, 0.0, 0.5, 2.0, f32::INFINITY, f32::NAN];
    for &ax in &values {
        for &ay in &values {
            for &bx in &values {
                for &by in &values {
                    for &(az, bz) in &[(0.0f32, 0.0f32), (1.0, 2.0), (2.0, 1.0), (f32::NAN, 0.0)] {
                        let (a, b) = (v(ax, ay, az), v(bx, by, bz));
                        let (fa, fb) = (Floats { x: ax, y: ay, z: az }, Floats { x: bx, y: by, z: bz });
                        assert_eq!(a.partial_cmp(&b), fa.partial_cmp(&fb));
                        assert_eq!(a < b, fa < fb);
                        assert_eq!(a <= b, fa <= fb);
                        assert_eq!(a > b, fa > fb);
                        assert_eq!(a >= b, fa >= fb);
                        assert_eq!(a == b, fa == fb);
                    }
                }
            }
        }
    }
}

#[test]
fn order_of_chosen_vectors() {
    assert_eq!(v(1.0, 5.0, 5.0).partial_cmp(&v(2.0, 0.0, 0.0)), Some(std::cmp::Ordering::Less));
    assert_eq!(v(1.0, 2.0, 3.0).partial_cmp(&v(1.0, 2.0, 3.0)), Some(std::cmp::Ordering::Equal));
    assert_eq!(v(1.0, 2.0, 4.0).partial_cmp(&v(1.0, 2.0, 3.0)), Some(std::cmp::Ordering::Greater));
    assert_eq!(v(1.0, f32::NAN, 4.0).partial_cmp(&v(1.0, 2.0, 3.0)), None);
    assert_eq!(v(0.0, f32::NAN, 4.0).partial_cmp(&v(1.0, 2.0, 3.0)), Some(std::cmp::Ordering::Less));
}
