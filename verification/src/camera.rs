//! The camera: an eye, and a view plane one unit ahead of it.

use vstd::prelude::*;
use crate::arith::{fixed, product_of, quotient_of, tangent_of, Arith};
use crate::ray::Ray;
use crate::scalar::{Scalar, PI_BITS, TWO_BITS, ZERO_BITS};
use crate::vector::{Point3, Vec3};

verus! {

/// 180.0
pub const HALF_TURN_DEGREES_BITS: u32 = 0x4334_0000;

#[derive(Clone, Copy, Debug)]
pub struct Camera {
    pub position: Point3,
    pub look_at: Point3,
    pub up: Vec3,
    /// Vertical field of view, in degrees.
    pub fov: Scalar,
    pub aspect_ratio: Scalar,
    pub width: u32,
    pub height: u32,
    /// The fields from here on describe the view plane. `new` derives them
    /// from the ones above.
    pub forward: Vec3,
    pub right: Vec3,
    pub up_normalized: Vec3,
    pub viewport_height: Scalar,
    pub viewport_width: Scalar,
    pub horizontal: Vec3,
    pub vertical: Vec3,
    pub lower_left_corner: Point3,
}

impl Camera {
    /// The camera with its view plane derived from the fields that place
    /// it. `forward` leads from the eye to the target, `right` is
    /// `forward x up` and `up_normalized` is `right x forward`, all at unit
    /// length. The plane is `2 tan(fov / 2)` high, the field of view taken
    /// from degrees to radians, and `aspect_ratio` times as wide; it lies one
    /// unit ahead of the eye, and `lower_left_corner` is its corner.
    pub open spec fn framed_spec<A: Arith>(ops: &A, camera: Camera) -> Camera {
        let two = Scalar { bits: TWO_BITS };
        let forward = Vec3::normalize_spec(
            ops,
            Vec3::sub_spec(ops, camera.look_at, camera.position),
        );
        let right = Vec3::normalize_spec(ops, Vec3::cross_spec(ops, forward, camera.up));
        let up_normalized = Vec3::normalize_spec(ops, Vec3::cross_spec(ops, right, forward));
        let radians_per_degree = quotient_of(
            ops,
            Scalar { bits: PI_BITS },
            Scalar { bits: HALF_TURN_DEGREES_BITS },
        );
        let theta = product_of(ops, camera.fov, radians_per_degree);
        let viewport_height = product_of(ops, two, tangent_of(ops, quotient_of(ops, theta, two)));
        let viewport_width = product_of(ops, camera.aspect_ratio, viewport_height);
        let horizontal = Vec3::mul_spec(ops, right, viewport_width);
        let vertical = Vec3::mul_spec(ops, up_normalized, viewport_height);
        let ahead = Vec3::add_spec(ops, camera.position, forward);
        let lower_left_corner = Vec3::sub_spec(
            ops,
            Vec3::sub_spec(ops, ahead, Vec3::div_spec(ops, horizontal, two)),
            Vec3::div_spec(ops, vertical, two),
        );
        Camera {
            forward,
            right,
            up_normalized,
            viewport_height,
            viewport_width,
            horizontal,
            vertical,
            lower_left_corner,
            ..camera
        }
    }

    /// The camera that `new` makes.
    pub open spec fn new_spec<A: Arith>(
        ops: &A,
        position: Point3,
        look_at: Point3,
        up: Vec3,
        fov: Scalar,
        aspect_ratio: Scalar,
        width: u32,
        height: u32,
    ) -> Camera {
        Camera::framed_spec(
            ops,
            Camera {
                position,
                look_at,
                up: Vec3::normalize_spec(ops, up),
                fov,
                aspect_ratio,
                width,
                height,
                forward: Vec3::zero_spec(),
                right: Vec3::zero_spec(),
                up_normalized: Vec3::zero_spec(),
                viewport_height: Scalar { bits: ZERO_BITS },
                viewport_width: Scalar { bits: ZERO_BITS },
                horizontal: Vec3::zero_spec(),
                vertical: Vec3::zero_spec(),
                lower_left_corner: Vec3::zero_spec(),
            },
        )
    }

    /// The ray through the point of the view plane at `(u, v)`.
    pub open spec fn get_ray_spec<A: Arith>(ops: &A, camera: Camera, u: Scalar, v: Scalar) -> Ray {
        let through = Vec3::add_spec(
            ops,
            Vec3::add_spec(ops, camera.lower_left_corner, Vec3::mul_spec(ops, camera.horizontal, u)),
            Vec3::mul_spec(ops, camera.vertical, v),
        );
        Ray {
            origin: camera.position,
            direction: Vec3::normalize_spec(ops, Vec3::sub_spec(ops, through, camera.position)),
        }
    }

    /// A camera at `position` that looks towards `look_at`, with `up` scaled
    /// to unit length.
    pub fn new<A: Arith>(
        position: Point3,
        look_at: Point3,
        up: Vec3,
        fov: Scalar,
        aspect_ratio: Scalar,
        width: u32,
        height: u32,
        ops: &A,
    ) -> (r: Camera)
        ensures
            r.position == position,
            r.look_at == look_at,
            r.fov == fov,
            r.aspect_ratio == aspect_ratio,
            r.width == width,
            r.height == height,
            fixed(ops) ==> r == Camera::new_spec(
                ops,
                position,
                look_at,
                up,
                fov,
                aspect_ratio,
                width,
                height,
            ),
    {
        let mut camera = Camera {
            position,
            look_at,
            up: up.normalize(ops),
            fov,
            aspect_ratio,
            width,
            height,
            forward: Vec3::zero(),
            right: Vec3::zero(),
            up_normalized: Vec3::zero(),
            viewport_height: Scalar::zero(),
            viewport_width: Scalar::zero(),
            horizontal: Vec3::zero(),
            vertical: Vec3::zero(),
            lower_left_corner: Vec3::zero(),
        };
        camera.update_vectors(ops);
        camera
    }

    /// Derives the view plane from the public fields, which stay as they are.
    fn update_vectors<A: Arith>(&mut self, ops: &A)
        ensures
            final(self).position == old(self).position,
            final(self).look_at == old(self).look_at,
            final(self).up == old(self).up,
            final(self).fov == old(self).fov,
            final(self).aspect_ratio == old(self).aspect_ratio,
            final(self).width == old(self).width,
            final(self).height == old(self).height,
            fixed(ops) ==> *final(self) == Camera::framed_spec(ops, *old(self)),
    {
        let two = Scalar::from_bits(TWO_BITS);
        self.forward = self.look_at.sub(self.position, ops).normalize(ops);
        self.right = self.forward.cross(&self.up, ops).normalize(ops);
        self.up_normalized = self.right.cross(&self.forward, ops).normalize(ops);

        let radians_per_degree = ops.quotient(
            Scalar::from_bits(PI_BITS),
            Scalar::from_bits(HALF_TURN_DEGREES_BITS),
        );
        let theta = ops.product(self.fov, radians_per_degree);
        let h = ops.tangent(ops.quotient(theta, two));
        self.viewport_height = ops.product(two, h);
        self.viewport_width = ops.product(self.aspect_ratio, self.viewport_height);

        self.horizontal = self.right.mul(self.viewport_width, ops);
        self.vertical = self.up_normalized.mul(self.viewport_height, ops);

        let ahead = self.position.add(self.forward, ops);
        self.lower_left_corner = ahead.sub(self.horizontal.div(two, ops), ops).sub(
            self.vertical.div(two, ops),
            ops,
        );
    }

    /// The ray from the eye through the point of the view plane at `(u, v)`,
    /// both in `[0, 1]`, `(0, 0)` being the lower left corner.
    pub fn get_ray<A: Arith>(&self, u: Scalar, v: Scalar, ops: &A) -> (r: Ray)
        ensures
            r.origin == self.position,
            fixed(ops) ==> r == Camera::get_ray_spec(ops, *self, u, v),
    {
        let across = self.horizontal.mul(u, ops);
        let upward = self.vertical.mul(v, ops);
        let direction = self.lower_left_corner.add(across, ops).add(upward, ops).sub(
            self.position,
            ops,
        );
        Ray::new(self.position, direction.normalize(ops))
    }
}

} // verus!
