//! Spheres.

use vstd::prelude::*;
use crate::arith::{
    arc_sine_of, arc_tangent2_of, difference_of, fixed, product_of, quotient_of, square_root_of,
    sum_of, Arith,
};
use crate::material::Material;
use crate::ray::Ray;
use crate::scalar::{Scalar, FOUR_BITS, HALF_BITS, PI_BITS, SURFACE_EPSILON_BITS, TWO_BITS, ZERO_BITS};
use crate::vector::{Point3, Vec3};

verus! {

#[derive(Clone, Copy, Debug)]
pub struct Sphere {
    pub center: Point3,
    pub radius: Scalar,
    pub material: Material,
}

impl Sphere {
    /// The distance at which a ray meets the sphere, given the discriminant of
    /// the quadratic and its two roots, `t1` the smaller: nothing for a
    /// discriminant below zero; else `t1` if it is above 1e-4; else `t2` if
    /// that is; else nothing.
    pub open spec fn nearest_root_spec(discriminant: Scalar, t1: Scalar, t2: Scalar) -> Option<
        Scalar,
    > {
        if discriminant.lt_spec(Scalar { bits: ZERO_BITS }) {
            None
        } else if t1.gt_spec(Scalar { bits: SURFACE_EPSILON_BITS }) {
            Some(t1)
        } else if t2.gt_spec(Scalar { bits: SURFACE_EPSILON_BITS }) {
            Some(t2)
        } else {
            None
        }
    }

    /// The distance at which `ray` meets the sphere: the quadratic
    /// `a t^2 + b t + c = 0` with `a = d . d`, `b = 2 (o . d)` and
    /// `c = o . o - radius^2`, where `d` is the ray's direction and `o` leads
    /// from the centre to its origin, and of its roots the one that
    /// `nearest_root_spec` takes.
    pub open spec fn intersect_spec<A: Arith>(ops: &A, sphere: Sphere, ray: Ray) -> Option<Scalar> {
        let two = Scalar { bits: TWO_BITS };
        let oc = Vec3::sub_spec(ops, ray.origin, sphere.center);
        let a = Vec3::dot_spec(ops, ray.direction, ray.direction);
        let b = product_of(ops, two, Vec3::dot_spec(ops, oc, ray.direction));
        let c = difference_of(
            ops,
            Vec3::dot_spec(ops, oc, oc),
            product_of(ops, sphere.radius, sphere.radius),
        );
        let four_ac = product_of(ops, product_of(ops, Scalar { bits: FOUR_BITS }, a), c);
        let discriminant = difference_of(ops, product_of(ops, b, b), four_ac);
        let root = square_root_of(ops, discriminant);
        let twice_a = product_of(ops, two, a);
        let t1 = quotient_of(ops, difference_of(ops, b.neg_spec(), root), twice_a);
        let t2 = quotient_of(ops, sum_of(ops, b.neg_spec(), root), twice_a);
        Sphere::nearest_root_spec(discriminant, t1, t2)
    }

    /// The way from the centre to `point`, at unit length.
    pub open spec fn normal_at_spec<A: Arith>(ops: &A, sphere: Sphere, point: Point3) -> Vec3 {
        Vec3::normalize_spec(ops, Vec3::sub_spec(ops, point, sphere.center))
    }

    /// For the normal `n` at `point`: `u = 0.5 + atan2(n.z, n.x) / pi * 0.5`
    /// and `v = 0.5 - asin(n.y) / pi`, on face 0.
    pub open spec fn get_uv_spec<A: Arith>(ops: &A, sphere: Sphere, point: Point3) -> Option<
        (Scalar, Scalar, usize),
    > {
        let n = Sphere::normal_at_spec(ops, sphere, point);
        let pi = Scalar { bits: PI_BITS };
        let half = Scalar { bits: HALF_BITS };
        let turn = product_of(ops, quotient_of(ops, arc_tangent2_of(ops, n.z, n.x), pi), half);
        let u = sum_of(ops, half, turn);
        let v = difference_of(ops, half, quotient_of(ops, arc_sine_of(ops, n.y), pi));
        Some((u, v, 0usize))
    }

    pub fn new(center: Point3, radius: Scalar, material: Material) -> (r: Sphere)
        ensures
            r.center == center,
            r.radius == radius,
            r.material == material,
    {
        Sphere { center, radius, material }
    }

    pub fn nearest_root(discriminant: Scalar, t1: Scalar, t2: Scalar) -> (r: Option<Scalar>)
        ensures
            r == Sphere::nearest_root_spec(discriminant, t1, t2),
    {
        if discriminant.lt(Scalar::zero()) {
            None
        } else if t1.gt(Scalar::surface_epsilon()) {
            Some(t1)
        } else if t2.gt(Scalar::surface_epsilon()) {
            Some(t2)
        } else {
            None
        }
    }

    /// Solves `|origin + t * direction - center|^2 = radius^2` for `t`. A
    /// distance that comes back is above 1e-4.
    pub fn intersect<A: Arith>(&self, ray: &Ray, ops: &A) -> (r: Option<Scalar>)
        ensures
            r matches Some(t) ==> t.gt_spec(Scalar { bits: SURFACE_EPSILON_BITS }),
            fixed(ops) ==> r == Sphere::intersect_spec(ops, *self, *ray),
    {
        let oc = ray.origin.sub(self.center, ops);
        let a = ray.direction.dot(&ray.direction, ops);
        let b = ops.product(Scalar::from_bits(TWO_BITS), oc.dot(&ray.direction, ops));
        let c = ops.difference(oc.dot(&oc, ops), ops.product(self.radius, self.radius));
        let four_ac = ops.product(ops.product(Scalar::from_bits(FOUR_BITS), a), c);
        let discriminant = ops.difference(ops.product(b, b), four_ac);
        let root = ops.square_root(discriminant);
        let twice_a = ops.product(Scalar::from_bits(TWO_BITS), a);
        let t1 = ops.quotient(ops.difference(b.neg(), root), twice_a);
        let t2 = ops.quotient(ops.sum(b.neg(), root), twice_a);
        Sphere::nearest_root(discriminant, t1, t2)
    }

    /// The direction from the centre to `point`, at unit length.
    pub fn normal_at<A: Arith>(&self, point: &Point3, ops: &A) -> (r: Vec3)
        ensures
            fixed(ops) ==> r == Sphere::normal_at_spec(ops, *self, *point),
    {
        point.sub(self.center, ops).normalize(ops)
    }

    /// Longitude and latitude of `point`, each mapped to `[0, 1]`; the face
    /// is always 0.
    pub fn get_uv<A: Arith>(&self, point: &Point3, ops: &A) -> (r: Option<(Scalar, Scalar, usize)>)
        ensures
            r matches Some(uv) && uv.2 == 0,
            fixed(ops) ==> r == Sphere::get_uv_spec(ops, *self, *point),
    {
        let normal = self.normal_at(point, ops);
        let pi = Scalar::from_bits(PI_BITS);
        let half = Scalar::from_bits(HALF_BITS);
        let turn = ops.product(ops.quotient(ops.arc_tangent2(normal.z, normal.x), pi), half);
        let u = ops.sum(half, turn);
        let v = ops.difference(half, ops.quotient(ops.arc_sine(normal.y), pi));
        Some((u, v, 0))
    }
}

} // verus!
