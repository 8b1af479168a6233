use raytracer::arith::Arith;
use raytracer::ray::Ray;
use raytracer::scalar::Scalar;
use raytracer::vector::Vec3;

struct Ieee;

fn s(x: f32) -> Scalar {
    Scalar::from_bits(x.to_bits())
}

fn f(x: Scalar) -> f32 {
    f32::from_bits(x.to_bits())
}

impl Arith for Ieee {
    fn sum(&self, a: Scalar, b: Scalar) -> Scalar {
        s(f(a) + f(b))
    }
    fn difference(&self, a: Scalar, b: Scalar) -> Scalar {
        s(f(a) - f(b))
    }
    fn product(&self, a: Scalar, b: Scalar) -> Scalar {
        s(f(a) * f(b))
    }
    fn quotient(&self, a: Scalar, b: Scalar) -> Scalar {
        s(f(a) / f(b))
    }
    fn remainder(&self, a: Scalar, b: Scalar) -> Scalar {
        s(f(a) % f(b))
    }
    fn square_root(&self, a: Scalar) -> Scalar {
        s(f(a).sqrt())
    }
    fn power(&self, a: Scalar, b: Scalar) -> Scalar {
        s(f(a).powf(f(b)))
    }
    fn sine(&self, a: Scalar) -> Scalar {
        s(f(a).sin())
    }
    fn cosine(&self, a: Scalar) -> Scalar {
        s(f(a).cos())
    }
    fn tangent(&self, a: Scalar) -> Scalar {
        s(f(a).tan())
    }
    fn arc_sine(&self, a: Scalar) -> Scalar {
        s(f(a).asin())
    }
    fn arc_tangent2(&self, y: Scalar, x: Scalar) -> Scalar {
        s(f(y).atan2(f(x)))
    }
    fn from_count(&self, n: u32) -> Scalar {
        s(n as f32)
    }
}

fn v(x: f32, y: f32, z: f32) -> Vec3 {
    Vec3::new(s(x), s(y), s(z))
}

const EPSILON: f32 = 1e-6;

fn approx_equal(a: f32, b: f32) -> bool {
    (a - b).abs() < EPSILON
}

#[test]
fn test_vector_creation() {
    let v = v(1.0, 2.0, 3.0);
    assert!(approx_equal(f(v.x), 1.0));
    assert!(approx_equal(f(v.y), 2.0));
    assert!(approx_equal(f(v.z), 3.0));
}

#[test]
fn test_vector_addition() {
    let v1 = v(1.0, 2.0, 3.0);
    let v2 = v(4.0, 5.0, 6.0);
    let result = v1.add(v2, &Ieee);
    assert!(approx_equal(f(result.x), 5.0));
    assert!(approx_equal(f(result.y), 7.0));
    assert!(approx_equal(f(result.z), 9.0));
}

#[test]
fn test_vector_subtraction() {
    let v1 = v(4.0, 5.0, 6.0);
    let v2 = v(1.0, 2.0, 3.0);
    let result = v1.sub(v2, &Ieee);
    assert!(approx_equal(f(result.x), 3.0));
    assert!(approx_equal(f(result.y), 3.0));
    assert!(approx_equal(f(result.z), 3.0));
}

#[test]
fn test_scalar_multiplication() {
    let v = v(1.0, 2.0, 3.0);
    let result = v.mul(s(2.0), &Ieee);
    assert!(approx_equal(f(result.x), 2.0));
    assert!(approx_equal(f(result.y), 4.0));
    assert!(approx_equal(f(result.z), 6.0));
}

#[test]
fn test_scalar_division() {
    let v = v(2.0, 4.0, 6.0);
    let result = v.div(s(2.0), &Ieee);
    assert!(approx_equal(f(result.x), 1.0));
    assert!(approx_equal(f(result.y), 2.0));
    assert!(approx_equal(f(result.z), 3.0));
}

#[test]
fn test_dot_product() {
    let v1 = v(1.0, 2.0, 3.0);
    let v2 = v(4.0, 5.0, 6.0);
    let result = v1.dot(&v2, &Ieee);
    assert!(approx_equal(f(result), 32.0));
}

#[test]
fn test_cross_product() {
    let v1 = v(1.0, 0.0, 0.0);
    let v2 = v(0.0, 1.0, 0.0);
    let result = v1.cross(&v2, &Ieee);
    assert!(approx_equal(f(result.x), 0.0));
    assert!(approx_equal(f(result.y), 0.0));
    assert!(approx_equal(f(result.z), 1.0));
}

#[test]
fn test_length() {
    let v = v(3.0, 4.0, 0.0);
    let length = v.length(&Ieee);
    assert!(approx_equal(f(length), 5.0));
}

#[test]
fn test_normalize() {
    let v = v(3.0, 4.0, 0.0);
    let normalized = v.normalize(&Ieee);
    let length = normalized.length(&Ieee);
    assert!(approx_equal(f(length), 1.0));
    assert!(approx_equal(f(normalized.x), 0.6));
    assert!(approx_equal(f(normalized.y), 0.8));
}

#[test]
fn test_reflection() {
    let incident = v(1.0, -1.0, 0.0).normalize(&Ieee);
    let normal = v(0.0, 1.0, 0.0);
    let reflected = incident.reflect(&normal, &Ieee);
    let expected = v(1.0, 1.0, 0.0).normalize(&Ieee);
    assert!(approx_equal(f(reflected.x), f(expected.x)));
    assert!(approx_equal(f(reflected.y), f(expected.y)));
    assert!(approx_equal(f(reflected.z), f(expected.z)));
}

#[test]
fn test_clamp() {
    let v = v(1.5, -0.5, 0.5);
    let clamped = v.clamp();
    assert!(approx_equal(f(clamped.x), 1.0));
    assert!(approx_equal(f(clamped.y), 0.0));
    assert!(approx_equal(f(clamped.z), 0.5));
}

#[test]
fn zero_vector_normalizes_to_zero() {
    let n = Vec3::zero().normalize(&Ieee);
    assert_eq!(f(n.x), 0.0);
    assert_eq!(f(n.y), 0.0);
    assert_eq!(f(n.z), 0.0);
    let kept = Vec3::unit_or_zero(s(2.0), v(0.5, 0.0, 0.0));
    assert_eq!(f(kept.x), 0.5);
    let dropped = Vec3::unit_or_zero(s(0.0), v(f32::NAN, f32::NAN, f32::NAN));
    assert_eq!(f(dropped.x), 0.0);
    let undefined = Vec3::unit_or_zero(s(f32::NAN), v(1.0, 1.0, 1.0));
    assert_eq!(f(undefined.y), 0.0);
}

#[test]
fn length_squared_spares_the_root() {
    assert_eq!(f(v(1.0, 2.0, 2.0).length_squared(&Ieee)), 9.0);
    assert_eq!(f(v(1.0, 2.0, 2.0).length(&Ieee)), 3.0);
}

#[test]
fn negation_flips_every_component() {
    let n = v(1.0, -2.0, 0.0).neg();
    assert_eq!(f(n.x), -1.0);
    assert_eq!(f(n.y), 2.0);
    assert_eq!(n.z.to_bits(), (-0.0f32).to_bits());
}

#[test]
fn compound_operations_update_in_place() {
    let mut a = v(1.0, 2.0, 3.0);
    a.add_assign(v(1.0, 1.0, 1.0), &Ieee);
    assert_eq!((f(a.x), f(a.y), f(a.z)), (2.0, 3.0, 4.0));
    a.sub_assign(v(2.0, 2.0, 2.0), &Ieee);
    assert_eq!((f(a.x), f(a.y), f(a.z)), (0.0, 1.0, 2.0));
    a.mul_assign(s(3.0), &Ieee);
    assert_eq!((f(a.x), f(a.y), f(a.z)), (0.0, 3.0, 6.0));
}

#[test]
fn reflecting_twice_gives_the_vector_back() {
    let normals = [v(0.0, 1.0, 0.0), v(1.0, 2.0, -2.0).normalize(&Ieee), v(-3.0, 0.5, 1.0).normalize(&Ieee)];
    let dirs = [v(1.0, -1.0, 0.0).normalize(&Ieee), v(0.2, 0.3, -0.9).normalize(&Ieee), v(0.0, 0.0, 1.0)];
    for n in normals.iter() {
        for d in dirs.iter() {
            let back = d.reflect(n, &Ieee).reflect(n, &Ieee);
            assert!((f(back.x) - f(d.x)).abs() < 1e-5);
            assert!((f(back.y) - f(d.y)).abs() < 1e-5);
            assert!((f(back.z) - f(d.z)).abs() < 1e-5);
        }
    }
}

#[test]
fn ray_walks_along_its_direction() {
    let ray = Ray::new(v(1.0, 2.0, 3.0), v(0.0, 0.0, -1.0));
    let p = ray.at(s(2.5), &Ieee);
    assert_eq!((f(p.x), f(p.y), f(p.z)), (1.0, 2.0, 0.5));
    assert_eq!(f(ray.origin.x), 1.0);
    assert_eq!(f(ray.direction.z), -1.0);
}
