//! Point lights. Intensity does not fall off with distance.

use vstd::prelude::*;
use crate::scalar::{Scalar, ONE_BITS};
use crate::vector::{Color, Point3, Vec3};

verus! {

#[derive(Clone, Copy, Debug)]
pub struct Light {
    pub position: Point3,
    pub color: Color,
    pub intensity: Scalar,
}

impl Light {
    pub fn new(position: Point3, color: Color, intensity: Scalar) -> (r: Light)
        ensures
            r.position == position,
            r.color == color,
            r.intensity == intensity,
    {
        Light { position, color, intensity }
    }

    /// A light of colour (1, 1, 1).
    pub fn white(position: Point3, intensity: Scalar) -> (r: Light)
        ensures
            r.position == position,
            r.intensity == intensity,
            r.color.x.bits == ONE_BITS,
            r.color.y.bits == ONE_BITS,
            r.color.z.bits == ONE_BITS,
    {
        Light { position, color: Vec3::new(Scalar::one(), Scalar::one(), Scalar::one()), intensity }
    }
}

} // verus!
