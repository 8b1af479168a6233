//! Rays: an origin and a direction, walked by a distance.

use vstd::prelude::*;
use crate::arith::{fixed, Arith};
use crate::scalar::Scalar;
use crate::vector::{Point3, Vec3};

verus! {

#[derive(Clone, Copy, Debug)]
pub struct Ray {
    pub origin: Point3,
    pub direction: Vec3,
}

impl Ray {
    pub fn new(origin: Point3, direction: Vec3) -> (r: Ray)
        ensures
            r.origin == origin,
            r.direction == direction,
    {
        Ray { origin, direction }
    }

    /// `origin + direction * t`.
    pub open spec fn at_spec<A: Arith>(ops: &A, ray: Ray, t: Scalar) -> Point3 {
        Vec3::add_spec(ops, ray.origin, Vec3::mul_spec(ops, ray.direction, t))
    }

    /// The point `origin + direction * t`.
    pub fn at<A: Arith>(&self, t: Scalar, ops: &A) -> (r: Point3)
        ensures
            fixed(ops) ==> r == Ray::at_spec(ops, *self, t),
    {
        self.origin.add(self.direction.mul(t, ops), ops)
    }
}

} // verus!
