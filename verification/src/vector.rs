//! Three-component vectors, used as points, directions and colours alike.

use vstd::prelude::*;
use crate::arith::{
    difference_of, fixed, product_of, quotient_of, square_root_of, sum_of, Arith,
};
use crate::scalar::{Scalar, ZERO_BITS, TWO_BITS};

verus! {

#[derive(Clone, Copy, Debug)]
pub struct Vec3 {
    pub x: Scalar,
    pub y: Scalar,
    pub z: Scalar,
}

pub type Point3 = Vec3;

pub type Color = Vec3;

impl Vec3 {
    pub open spec fn zero_spec() -> Vec3 {
        Vec3 {
            x: Scalar { bits: ZERO_BITS },
            y: Scalar { bits: ZERO_BITS },
            z: Scalar { bits: ZERO_BITS },
        }
    }

    /// Each component restricted to `[0, 1]`.
    pub open spec fn clamp_spec(self) -> Vec3 {
        Vec3 {
            x: self.x.unit_clamp_spec(),
            y: self.y.unit_clamp_spec(),
            z: self.z.unit_clamp_spec(),
        }
    }

    pub open spec fn neg_spec(self) -> Vec3 {
        Vec3 { x: self.x.neg_spec(), y: self.y.neg_spec(), z: self.z.neg_spec() }
    }

    /// What `normalize` returns for a vector of length `len` whose
    /// components divided by `len` are `scaled`.
    pub open spec fn unit_or_zero_spec(len: Scalar, scaled: Vec3) -> Vec3 {
        if len.gt_spec(Scalar { bits: ZERO_BITS }) {
            scaled
        } else {
            Vec3::zero_spec()
        }
    }

    /// `a . b`: the products of the components, summed from the left.
    pub open spec fn dot_spec<A: Arith>(ops: &A, a: Vec3, b: Vec3) -> Scalar {
        sum_of(
            ops,
            sum_of(ops, product_of(ops, a.x, b.x), product_of(ops, a.y, b.y)),
            product_of(ops, a.z, b.z),
        )
    }

    /// `a x b`.
    pub open spec fn cross_spec<A: Arith>(ops: &A, a: Vec3, b: Vec3) -> Vec3 {
        Vec3 {
            x: difference_of(ops, product_of(ops, a.y, b.z), product_of(ops, a.z, b.y)),
            y: difference_of(ops, product_of(ops, a.z, b.x), product_of(ops, a.x, b.z)),
            z: difference_of(ops, product_of(ops, a.x, b.y), product_of(ops, a.y, b.x)),
        }
    }

    /// `a + b`, component by component.
    pub open spec fn add_spec<A: Arith>(ops: &A, a: Vec3, b: Vec3) -> Vec3 {
        Vec3 { x: sum_of(ops, a.x, b.x), y: sum_of(ops, a.y, b.y), z: sum_of(ops, a.z, b.z) }
    }

    /// `a - b`, component by component.
    pub open spec fn sub_spec<A: Arith>(ops: &A, a: Vec3, b: Vec3) -> Vec3 {
        Vec3 {
            x: difference_of(ops, a.x, b.x),
            y: difference_of(ops, a.y, b.y),
            z: difference_of(ops, a.z, b.z),
        }
    }

    /// Each component of `a` times `k`.
    pub open spec fn mul_spec<A: Arith>(ops: &A, a: Vec3, k: Scalar) -> Vec3 {
        Vec3 { x: product_of(ops, a.x, k), y: product_of(ops, a.y, k), z: product_of(ops, a.z, k) }
    }

    /// Each component of `a` over `k`.
    pub open spec fn div_spec<A: Arith>(ops: &A, a: Vec3, k: Scalar) -> Vec3 {
        Vec3 {
            x: quotient_of(ops, a.x, k),
            y: quotient_of(ops, a.y, k),
            z: quotient_of(ops, a.z, k),
        }
    }

    /// The root of `a . a`.
    pub open spec fn length_spec<A: Arith>(ops: &A, a: Vec3) -> Scalar {
        square_root_of(ops, Vec3::dot_spec(ops, a, a))
    }

    /// `a` over its length, or the zero vector where the length is not above
    /// zero.
    pub open spec fn normalize_spec<A: Arith>(ops: &A, a: Vec3) -> Vec3 {
        Vec3::unit_or_zero_spec(
            Vec3::length_spec(ops, a),
            Vec3::div_spec(ops, a, Vec3::length_spec(ops, a)),
        )
    }

    /// `d - n * (2 * (d . n))`.
    pub open spec fn reflect_spec<A: Arith>(ops: &A, d: Vec3, n: Vec3) -> Vec3 {
        Vec3::sub_spec(
            ops,
            d,
            Vec3::mul_spec(ops, n, product_of(ops, Scalar { bits: TWO_BITS }, Vec3::dot_spec(ops, d, n))),
        )
    }

    pub fn new(x: Scalar, y: Scalar, z: Scalar) -> (r: Vec3)
        ensures
            r.x == x,
            r.y == y,
            r.z == z,
    {
        Vec3 { x, y, z }
    }

    pub fn zero() -> (r: Vec3)
        ensures
            r == Vec3::zero_spec(),
    {
        Vec3 { x: Scalar::zero(), y: Scalar::zero(), z: Scalar::zero() }
    }

    /// The Euclidean length.
    pub fn length<A: Arith>(&self, ops: &A) -> (r: Scalar)
        ensures
            fixed(ops) ==> r == Vec3::length_spec(ops, *self),
    {
        ops.square_root(self.length_squared(ops))
    }

    /// The square of the length.
    pub fn length_squared<A: Arith>(&self, ops: &A) -> (r: Scalar)
        ensures
            fixed(ops) ==> r == Vec3::dot_spec(ops, *self, *self),
    {
        self.dot(self, ops)
    }

    /// The vector that `normalize` settles on once the length and the scaled
    /// components are known: the scaled one for a length above zero, the zero
    /// vector otherwise.
    pub fn unit_or_zero(len: Scalar, scaled: Vec3) -> (r: Vec3)
        ensures
            r == Vec3::unit_or_zero_spec(len, scaled),
    {
        if len.gt(Scalar::zero()) {
            scaled
        } else {
            Vec3::zero()
        }
    }

    /// The vector scaled to unit length. A vector whose length is not above
    /// zero gives the zero vector.
    pub fn normalize<A: Arith>(&self, ops: &A) -> (r: Vec3)
        ensures
            fixed(ops) ==> r == Vec3::normalize_spec(ops, *self),
    {
        let len = self.length(ops);
        Vec3::unit_or_zero(len, self.div(len, ops))
    }

    pub fn dot<A: Arith>(&self, other: &Vec3, ops: &A) -> (r: Scalar)
        ensures
            fixed(ops) ==> r == Vec3::dot_spec(ops, *self, *other),
    {
        let xx = ops.product(self.x, other.x);
        let yy = ops.product(self.y, other.y);
        let zz = ops.product(self.z, other.z);
        ops.sum(ops.sum(xx, yy), zz)
    }

    pub fn cross<A: Arith>(&self, other: &Vec3, ops: &A) -> (r: Vec3)
        ensures
            fixed(ops) ==> r == Vec3::cross_spec(ops, *self, *other),
    {
        Vec3 {
            x: ops.difference(ops.product(self.y, other.z), ops.product(self.z, other.y)),
            y: ops.difference(ops.product(self.z, other.x), ops.product(self.x, other.z)),
            z: ops.difference(ops.product(self.x, other.y), ops.product(self.y, other.x)),
        }
    }

    /// The mirror image of `self` about `normal`:
    /// `self - normal * (2 * (self . normal))`.
    pub fn reflect<A: Arith>(&self, normal: &Vec3, ops: &A) -> (r: Vec3)
        ensures
            fixed(ops) ==> r == Vec3::reflect_spec(ops, *self, *normal),
    {
        let twice = ops.product(Scalar::from_bits(TWO_BITS), self.dot(normal, ops));
        self.sub(normal.mul(twice, ops), ops)
    }

    /// Each component restricted to `[0, 1]`.
    pub fn clamp(&self) -> (r: Vec3)
        ensures
            r == self.clamp_spec(),
    {
        Vec3 { x: self.x.unit_clamp(), y: self.y.unit_clamp(), z: self.z.unit_clamp() }
    }

    pub fn add<A: Arith>(self, rhs: Vec3, ops: &A) -> (r: Vec3)
        ensures
            fixed(ops) ==> r == Vec3::add_spec(ops, self, rhs),
    {
        Vec3 { x: ops.sum(self.x, rhs.x), y: ops.sum(self.y, rhs.y), z: ops.sum(self.z, rhs.z) }
    }

    pub fn sub<A: Arith>(self, rhs: Vec3, ops: &A) -> (r: Vec3)
        ensures
            fixed(ops) ==> r == Vec3::sub_spec(ops, self, rhs),
    {
        Vec3 {
            x: ops.difference(self.x, rhs.x),
            y: ops.difference(self.y, rhs.y),
            z: ops.difference(self.z, rhs.z),
        }
    }

    pub fn mul<A: Arith>(self, scalar: Scalar, ops: &A) -> (r: Vec3)
        ensures
            fixed(ops) ==> r == Vec3::mul_spec(ops, self, scalar),
    {
        Vec3 {
            x: ops.product(self.x, scalar),
            y: ops.product(self.y, scalar),
            z: ops.product(self.z, scalar),
        }
    }

    pub fn div<A: Arith>(self, scalar: Scalar, ops: &A) -> (r: Vec3)
        ensures
            fixed(ops) ==> r == Vec3::div_spec(ops, self, scalar),
    {
        Vec3 {
            x: ops.quotient(self.x, scalar),
            y: ops.quotient(self.y, scalar),
            z: ops.quotient(self.z, scalar),
        }
    }

    pub fn neg(self) -> (r: Vec3)
        ensures
            r == self.neg_spec(),
    {
        Vec3 { x: self.x.neg(), y: self.y.neg(), z: self.z.neg() }
    }

    pub fn add_assign<A: Arith>(&mut self, rhs: Vec3, ops: &A)
        ensures
            fixed(ops) ==> *final(self) == Vec3::add_spec(ops, *old(self), rhs),
    {
        self.x = ops.sum(self.x, rhs.x);
        self.y = ops.sum(self.y, rhs.y);
        self.z = ops.sum(self.z, rhs.z);
    }

    pub fn sub_assign<A: Arith>(&mut self, rhs: Vec3, ops: &A)
        ensures
            fixed(ops) ==> *final(self) == Vec3::sub_spec(ops, *old(self), rhs),
    {
        self.x = ops.difference(self.x, rhs.x);
        self.y = ops.difference(self.y, rhs.y);
        self.z = ops.difference(self.z, rhs.z);
    }

    pub fn mul_assign<A: Arith>(&mut self, scalar: Scalar, ops: &A)
        ensures
            fixed(ops) ==> *final(self) == Vec3::mul_spec(ops, *old(self), scalar),
    {
        self.x = ops.product(self.x, scalar);
        self.y = ops.product(self.y, scalar);
        self.z = ops.product(self.z, scalar);
    }
}

} // verus!
