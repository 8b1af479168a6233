//! Surface reflectance parameters.

use vstd::prelude::*;
use crate::scalar::{Scalar, ONE_BITS};
use crate::vector::Color;

verus! {

/// 0.8
pub const ALBEDO_DEFAULT: u32 = 0x3f4c_cccd;

/// 0.5
pub const ALBEDO_SHINY: u32 = 0x3f00_0000;

/// 0.1
pub const ALBEDO_MIRROR: u32 = 0x3dcc_cccd;

/// 0.2
pub const SPECULAR_DEFAULT: u32 = 0x3e4c_cccd;

/// 0.0
pub const SPECULAR_NONE: u32 = 0x0000_0000;

/// 0.8
pub const SPECULAR_SHINY: u32 = 0x3f4c_cccd;

/// 0.9
pub const SPECULAR_MIRROR: u32 = 0x3f66_6666;

/// 32.0
pub const SHININESS_DEFAULT: u32 = 0x4200_0000;

/// 1.0
pub const SHININESS_DIFFUSE: u32 = 0x3f80_0000;

/// 64.0
pub const SHININESS_SHINY: u32 = 0x4280_0000;

/// 128.0
pub const SHININESS_MIRROR: u32 = 0x4300_0000;

/// 0.0
pub const REFLECTIVITY_NONE: u32 = 0x0000_0000;

/// 0.3
pub const REFLECTIVITY_SHINY: u32 = 0x3e99_999a;

/// 0.9
pub const REFLECTIVITY_MIRROR: u32 = 0x3f66_6666;

#[derive(Clone, Copy, Debug)]
pub struct Material {
    pub color: Color,
    /// Share of incoming light that is scattered diffusely.
    pub albedo: Scalar,
    /// Strength of the highlight.
    pub specular: Scalar,
    /// Exponent of the highlight.
    pub shininess: Scalar,
    /// Share of the colour that comes from the mirrored ray.
    pub reflectivity: Scalar,
    pub has_texture: bool,
    /// Index into the scene's texture table.
    pub texture_id: Option<usize>,
}

impl Material {
    /// `x` lies in `[0, 1]`.
    pub open spec fn share(x: Scalar) -> bool {
        !x.nan() && 0 <= x.rank() <= ONE_BITS
    }

    /// Albedo, specular strength and reflectivity lie in `[0, 1]`, the
    /// shininess is above zero, and the flag says whether there is a
    /// texture id.
    pub open spec fn wf(&self) -> bool {
        &&& Material::share(self.albedo)
        &&& Material::share(self.specular)
        &&& Material::share(self.reflectivity)
        &&& !self.shininess.nan()
        &&& self.shininess.rank() > 0
        &&& self.has_texture == self.texture_id.is_some()
    }

    /// The material with the given numbers and no texture.
    pub open spec fn plain(
        color: Color,
        albedo: u32,
        specular: u32,
        shininess: u32,
        reflectivity: u32,
    ) -> Material {
        Material {
            color,
            albedo: Scalar { bits: albedo },
            specular: Scalar { bits: specular },
            shininess: Scalar { bits: shininess },
            reflectivity: Scalar { bits: reflectivity },
            has_texture: false,
            texture_id: None,
        }
    }

    /// Albedo 0.8, specular 0.2, shininess 32, no reflection.
    pub fn new(color: Color) -> (r: Material)
        ensures
            r == Material::plain(
                color,
                ALBEDO_DEFAULT,
                SPECULAR_DEFAULT,
                SHININESS_DEFAULT,
                REFLECTIVITY_NONE,
            ),
            r.wf(),
    {
        Material {
            color,
            albedo: Scalar::from_bits(ALBEDO_DEFAULT),
            specular: Scalar::from_bits(SPECULAR_DEFAULT),
            shininess: Scalar::from_bits(SHININESS_DEFAULT),
            reflectivity: Scalar::from_bits(REFLECTIVITY_NONE),
            has_texture: false,
            texture_id: None,
        }
    }

    /// Albedo 0.8, no highlight, no reflection.
    pub fn diffuse(color: Color) -> (r: Material)
        ensures
            r == Material::plain(
                color,
                ALBEDO_DEFAULT,
                SPECULAR_NONE,
                SHININESS_DIFFUSE,
                REFLECTIVITY_NONE,
            ),
            r.wf(),
    {
        Material {
            color,
            albedo: Scalar::from_bits(ALBEDO_DEFAULT),
            specular: Scalar::from_bits(SPECULAR_NONE),
            shininess: Scalar::from_bits(SHININESS_DIFFUSE),
            reflectivity: Scalar::from_bits(REFLECTIVITY_NONE),
            has_texture: false,
            texture_id: None,
        }
    }

    /// Albedo 0.5, specular 0.8, shininess 64, reflectivity 0.3.
    pub fn shiny(color: Color) -> (r: Material)
        ensures
            r == Material::plain(
                color,
                ALBEDO_SHINY,
                SPECULAR_SHINY,
                SHININESS_SHINY,
                REFLECTIVITY_SHINY,
            ),
            r.wf(),
    {
        Material {
            color,
            albedo: Scalar::from_bits(ALBEDO_SHINY),
            specular: Scalar::from_bits(SPECULAR_SHINY),
            shininess: Scalar::from_bits(SHININESS_SHINY),
            reflectivity: Scalar::from_bits(REFLECTIVITY_SHINY),
            has_texture: false,
            texture_id: None,
        }
    }

    /// Albedo 0.1, specular 0.9, shininess 128, reflectivity 0.9.
    pub fn reflective(color: Color) -> (r: Material)
        ensures
            r == Material::plain(
                color,
                ALBEDO_MIRROR,
                SPECULAR_MIRROR,
                SHININESS_MIRROR,
                REFLECTIVITY_MIRROR,
            ),
            r.wf(),
    {
        Material {
            color,
            albedo: Scalar::from_bits(ALBEDO_MIRROR),
            specular: Scalar::from_bits(SPECULAR_MIRROR),
            shininess: Scalar::from_bits(SHININESS_MIRROR),
            reflectivity: Scalar::from_bits(REFLECTIVITY_MIRROR),
            has_texture: false,
            texture_id: None,
        }
    }

    /// The same material, drawing its colour from texture `texture_id`.
    pub fn with_texture(self, texture_id: usize) -> (r: Material)
        ensures
            r == (Material { has_texture: true, texture_id: Some(texture_id), ..self }),
            self.wf() ==> r.wf(),
    {
        let mut m = self;
        m.has_texture = true;
        m.texture_id = Some(texture_id);
        m
    }
}

} // verus!
