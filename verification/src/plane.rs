//! Infinite planes.

use vstd::prelude::*;
use crate::arith::{fixed, product_of, quotient_of, remainder_of, Arith};
use crate::material::Material;
use crate::ray::Ray;
use crate::scalar::{
    Scalar, DEGENERACY_EPSILON_BITS, HALF_BITS, ONE_BITS, SURFACE_EPSILON_BITS, ZERO_BITS,
};
use crate::vector::{Point3, Vec3};

verus! {

/// 0.9: a normal whose x component is larger in size than this counts as
/// lying along the x axis.
pub const STEEP_BITS: u32 = 0x3f66_6666;

#[derive(Clone, Copy, Debug)]
pub struct Plane {
    pub point: Point3,
    /// Unit length once it has gone through `new`.
    pub normal: Vec3,
    pub material: Material,
}

impl Plane {
    /// The distance at which a ray crosses the plane, given `denom`, the
    /// direction's component along the normal, and `t`, the solution of the
    /// plane equation: nothing where `|denom|` is below 1e-6 (the ray runs
    /// along the plane); else `t` if it is above 1e-4; else nothing.
    pub open spec fn crossing_spec(denom: Scalar, t: Scalar) -> Option<Scalar> {
        if denom.abs_spec().lt_spec(Scalar { bits: DEGENERACY_EPSILON_BITS }) {
            None
        } else if t.gt_spec(Scalar { bits: SURFACE_EPSILON_BITS }) {
            Some(t)
        } else {
            None
        }
    }

    /// The distance at which `ray` crosses the plane: with `denom` the
    /// direction's component along the normal, `t = ((point - origin) .
    /// normal) / denom`, taken as `crossing_spec` says.
    pub open spec fn intersect_spec<A: Arith>(ops: &A, plane: Plane, ray: Ray) -> Option<Scalar> {
        let denom = Vec3::dot_spec(ops, ray.direction, plane.normal);
        let t = quotient_of(
            ops,
            Vec3::dot_spec(ops, Vec3::sub_spec(ops, plane.point, ray.origin), plane.normal),
            denom,
        );
        Plane::crossing_spec(denom, t)
    }

    /// The axis that the tangent is built from: y where the normal's x
    /// component is above 0.9 in size, x otherwise.
    pub open spec fn tangent_axis_spec(plane: Plane) -> Vec3 {
        let zero = Scalar { bits: ZERO_BITS };
        let one = Scalar { bits: ONE_BITS };
        if plane.normal.x.abs_spec().gt_spec(Scalar { bits: STEEP_BITS }) {
            Vec3 { x: zero, y: one, z: zero }
        } else {
            Vec3 { x: one, y: zero, z: zero }
        }
    }

    /// With the tangent `axis x normal` and the bitangent `normal x tangent`,
    /// both at unit length: the sizes of the remainders by 1 of half the
    /// point's offset along each, on face 1.
    pub open spec fn get_uv_spec<A: Arith>(ops: &A, plane: Plane, point: Point3) -> Option<
        (Scalar, Scalar, usize),
    > {
        let one = Scalar { bits: ONE_BITS };
        let half = Scalar { bits: HALF_BITS };
        let tangent = Vec3::normalize_spec(
            ops,
            Vec3::cross_spec(ops, Plane::tangent_axis_spec(plane), plane.normal),
        );
        let bitangent = Vec3::normalize_spec(ops, Vec3::cross_spec(ops, plane.normal, tangent));
        let offset = Vec3::sub_spec(ops, point, plane.point);
        let u = remainder_of(ops, product_of(ops, Vec3::dot_spec(ops, offset, tangent), half), one);
        let v = remainder_of(ops, product_of(ops, Vec3::dot_spec(ops, offset, bitangent), half), one);
        Some((u.abs_spec(), v.abs_spec(), 1usize))
    }

    /// The plane through `point` whose normal is `normal` scaled to unit
    /// length.
    pub fn new<A: Arith>(point: Point3, normal: Vec3, material: Material, ops: &A) -> (r: Plane)
        ensures
            r.point == point,
            r.material == material,
            fixed(ops) ==> r.normal == Vec3::normalize_spec(ops, normal),
    {
        Plane { point, normal: normal.normalize(ops), material }
    }

    pub fn crossing(denom: Scalar, t: Scalar) -> (r: Option<Scalar>)
        ensures
            r == Plane::crossing_spec(denom, t),
    {
        if denom.abs().lt(Scalar::degeneracy_epsilon()) {
            None
        } else if t.gt(Scalar::surface_epsilon()) {
            Some(t)
        } else {
            None
        }
    }

    /// Solves `(origin + t * direction - point) . normal = 0` for `t`. A
    /// distance that comes back is above 1e-4.
    pub fn intersect<A: Arith>(&self, ray: &Ray, ops: &A) -> (r: Option<Scalar>)
        ensures
            r matches Some(t) ==> t.gt_spec(Scalar { bits: SURFACE_EPSILON_BITS }),
            fixed(ops) ==> r == Plane::intersect_spec(ops, *self, *ray),
    {
        let denom = ray.direction.dot(&self.normal, ops);
        let t = ops.quotient(self.point.sub(ray.origin, ops).dot(&self.normal, ops), denom);
        Plane::crossing(denom, t)
    }

    /// The plane's normal, the same at every point.
    pub fn normal_at(&self, _point: &Point3) -> (r: Vec3)
        ensures
            r == self.normal,
    {
        self.normal
    }

    /// The position of `point` along two axes in the plane, half a unit per
    /// unit of distance, wrapped into one tile; the face is always 1, and
    /// neither coordinate carries a minus sign.
    pub fn get_uv<A: Arith>(&self, point: &Point3, ops: &A) -> (r: Option<(Scalar, Scalar, usize)>)
        ensures
            r matches Some(uv) && uv.2 == 1 && !uv.0.negative() && !uv.1.negative(),
            fixed(ops) ==> r == Plane::get_uv_spec(ops, *self, *point),
    {
        let zero = Scalar::zero();
        let one = Scalar::one();
        let axis = if self.normal.x.abs().gt(Scalar::from_bits(STEEP_BITS)) {
            Vec3::new(zero, one, zero)
        } else {
            Vec3::new(one, zero, zero)
        };
        let tangent = axis.cross(&self.normal, ops).normalize(ops);
        let bitangent = self.normal.cross(&tangent, ops).normalize(ops);
        let relative_pos = point.sub(self.point, ops);
        let half = Scalar::from_bits(HALF_BITS);
        let u = ops.remainder(ops.product(relative_pos.dot(&tangent, ops), half), one);
        let v = ops.remainder(ops.product(relative_pos.dot(&bitangent, ops), half), one);
        Some((u.abs(), v.abs(), 1))
    }
}

} // verus!
