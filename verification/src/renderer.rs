//! The tracer: nearest hit, local shading with shadows, mirrored rays.

use vstd::prelude::*;
use crate::arith::{difference_of, fixed, power_of, Arith};
use crate::light::Light;
use crate::material::Material;
use crate::ray::Ray;
use crate::scalar::{Scalar, INFINITY_BITS, ONE_BITS, SURFACE_EPSILON_BITS, ZERO_BITS};
use crate::scene::{lemma_closest_pins, lemma_normal_pins, lemma_uv_pins, Intersectable, Scene};
use crate::vector::{Color, Point3, Vec3};

verus! {

/// 0.2: the share of the base colour that every point shows, lit or not.
pub const AMBIENT_STRENGTH_BITS: u32 = 0x3e4c_cccd;

/// The depth at which a picture is usually traced.
pub const MAX_DEPTH: u32 = 5;

pub struct Renderer;

impl Renderer {
    /// A light is hidden from a point when something lies on the way to it:
    /// the shadow ray meets a shape at a distance below the light's.
    pub open spec fn is_in_shadow_spec(occluder: Option<Scalar>, distance_to_light: Scalar) -> bool {
        occluder matches Some(t) && t.lt_spec(distance_to_light)
    }

    /// A hit sends a mirrored ray when the surface reflects at all and the
    /// depth allows one more ray.
    pub open spec fn reflects_spec(reflectivity: Scalar, depth: u32) -> bool {
        reflectivity.gt_spec(Scalar { bits: ZERO_BITS }) && depth > 1
    }

    /// The texture that colours a hit: the one that the material names, where
    /// the hit has texture coordinates and the table has such a texture.
    pub open spec fn texture_for(
        material: Material,
        scene: Scene,
        uv_data: Option<(Scalar, Scalar, usize)>,
    ) -> Option<int> {
        match material.texture_id {
            Some(id) => if material.has_texture && uv_data is Some && id < scene.textures@.len() {
                Some(id as int)
            } else {
                None
            },
            None => None,
        }
    }

    /// The colour that shading starts from: the sample of the texture that
    /// `texture_for` finds, at the hit's coordinates; the material's own
    /// colour where it finds none.
    pub open spec fn base_color_spec<A: Arith>(
        ops: &A,
        material: Material,
        scene: Scene,
        uv_data: Option<(Scalar, Scalar, usize)>,
    ) -> Color {
        match Renderer::texture_for(material, scene, uv_data) {
            Some(id) => scene.textures@[id].sample_spec(ops, uv_data.unwrap().0, uv_data.unwrap().1),
            None => material.color,
        }
    }

    /// `color` with what one light gives: the sum of `diffuse` and `specular`
    /// where the light is seen, nothing where it is hidden.
    pub open spec fn illuminate_spec<A: Arith>(
        ops: &A,
        color: Color,
        occluder: Option<Scalar>,
        distance_to_light: Scalar,
        diffuse: Color,
        specular: Color,
    ) -> Color {
        if Renderer::is_in_shadow_spec(occluder, distance_to_light) {
            color
        } else {
            Vec3::add_spec(ops, Vec3::add_spec(ops, color, diffuse), specular)
        }
    }

    /// The point from which secondary rays leave a surface: 1e-4 along the
    /// normal from the hit.
    pub open spec fn lifted_spec<A: Arith>(ops: &A, hit_point: Point3, normal: Vec3) -> Point3 {
        Vec3::add_spec(
            ops,
            hit_point,
            Vec3::mul_spec(ops, normal, Scalar { bits: SURFACE_EPSILON_BITS }),
        )
    }

    /// The shadow ray for `light`: from the lifted hit point, in the unit
    /// direction to the light.
    pub open spec fn shadow_ray_spec<A: Arith>(
        ops: &A,
        hit_point: Point3,
        normal: Vec3,
        light: Light,
    ) -> Ray {
        Ray {
            origin: Renderer::lifted_spec(ops, hit_point, normal),
            direction: Vec3::normalize_spec(ops, Vec3::sub_spec(ops, light.position, hit_point)),
        }
    }

    /// The distance from the hit point to `light`.
    pub open spec fn light_distance_spec<A: Arith>(ops: &A, hit_point: Point3, light: Light) -> Scalar {
        Vec3::length_spec(ops, Vec3::sub_spec(ops, light.position, hit_point))
    }

    /// `after` is `before` with the share of `light`. The shadow ray leaves
    /// the lifted hit point towards the light; `found` is its nearest hit,
    /// and the light counts as hidden where that lies nearer than the light.
    /// The diffuse term is `base * max(0, n . l) * albedo * intensity`, the
    /// specular term `light colour * max(0, r . view)^shininess * specular *
    /// intensity`, with `l` the unit direction to the light and `r` the
    /// mirror image of `-l` about the normal.
    pub open spec fn light_step_spec<A: Arith>(
        ops: &A,
        scene: Scene,
        hit_point: Point3,
        normal: Vec3,
        material: Material,
        view_dir: Vec3,
        base: Color,
        light: Light,
        before: Color,
        after: Color,
    ) -> bool {
        let zero = Scalar { bits: ZERO_BITS };
        let to_light = Vec3::sub_spec(ops, light.position, hit_point);
        let light_dir = Vec3::normalize_spec(ops, to_light);
        let shadow_ray = Renderer::shadow_ray_spec(ops, hit_point, normal, light);
        let distance = Renderer::light_distance_spec(ops, hit_point, light);
        let diffuse_intensity = Vec3::dot_spec(ops, normal, light_dir).max_spec(zero);
        let diffuse = Vec3::mul_spec(
            ops,
            Vec3::mul_spec(ops, Vec3::mul_spec(ops, base, diffuse_intensity), material.albedo),
            light.intensity,
        );
        let reflected = Vec3::reflect_spec(ops, light_dir.neg_spec(), normal);
        let specular_intensity = power_of(
            ops,
            Vec3::dot_spec(ops, reflected, view_dir).max_spec(zero),
            material.shininess,
        );
        let specular = Vec3::mul_spec(
            ops,
            Vec3::mul_spec(ops, Vec3::mul_spec(ops, light.color, specular_intensity), material.specular),
            light.intensity,
        );
        exists|found: Option<(Scalar, Intersectable)>|
            #[trigger] scene.closest_spec(ops, shadow_ray, found) && after
                == Renderer::illuminate_spec(
                ops,
                before,
                match found {
                    Some(hit) => Some(hit.0),
                    None => None,
                },
                distance,
                diffuse,
                specular,
            )
    }

    /// `color` is the ambient share of `base`, 0.2 of it, with the shares of
    /// the first `n` lights added in order.
    pub open spec fn lit_spec<A: Arith>(
        ops: &A,
        scene: Scene,
        hit_point: Point3,
        normal: Vec3,
        material: Material,
        view_dir: Vec3,
        base: Color,
        n: nat,
        color: Color,
    ) -> bool
        decreases n,
    {
        if n == 0 {
            color == Vec3::mul_spec(ops, base, Scalar { bits: AMBIENT_STRENGTH_BITS })
        } else {
            exists|before: Color|
                Renderer::lit_spec(
                    ops,
                    scene,
                    hit_point,
                    normal,
                    material,
                    view_dir,
                    base,
                    (n - 1) as nat,
                    before,
                ) && #[trigger] Renderer::light_step_spec(
                    ops,
                    scene,
                    hit_point,
                    normal,
                    material,
                    view_dir,
                    base,
                    scene.lights@[n - 1],
                    before,
                    color,
                )
        }
    }

    /// `r` is the shaded colour: the base colour's ambient share with the
    /// shares of all lights, each channel held to `[0, 1]`.
    pub open spec fn shade_spec<A: Arith>(
        ops: &A,
        hit_point: Point3,
        normal: Vec3,
        material: Material,
        scene: Scene,
        view_dir: Vec3,
        uv_data: Option<(Scalar, Scalar, usize)>,
        r: Color,
    ) -> bool {
        exists|sum: Color|
            #[trigger] Renderer::lit_spec(
                ops,
                scene,
                hit_point,
                normal,
                material,
                view_dir,
                Renderer::base_color_spec(ops, material, scene, uv_data),
                scene.lights@.len(),
                sum,
            ) && r == sum.clamp_spec()
    }

    /// `r` is `local` and `mirrored` mixed by `reflectivity`:
    /// `local * (1 - reflectivity) + mirrored * reflectivity`.
    pub open spec fn blend_spec<A: Arith>(
        ops: &A,
        local: Color,
        mirrored: Color,
        reflectivity: Scalar,
        r: Color,
    ) -> bool {
        r == Vec3::add_spec(
            ops,
            Vec3::mul_spec(ops, local, difference_of(ops, Scalar { bits: ONE_BITS }, reflectivity)),
            Vec3::mul_spec(ops, mirrored, reflectivity),
        )
    }

    /// `r` is the colour that comes back along `ray` at depth `depth`.
    ///
    /// At depth 0 it is the background, and so it is where the ray meets no
    /// shape. Else, with `hit` the nearest hit, it is the shaded colour of
    /// the hit point, seen from the camera. Where the surface reflects and
    /// the depth is above 1, that colour is mixed with the colour that comes
    /// back, at one level less, along the mirrored ray, which leaves the
    /// lifted hit point in the direction of `ray` mirrored about the normal.
    pub open spec fn trace_spec<A: Arith>(ops: &A, scene: Scene, ray: Ray, depth: nat, r: Color) -> bool
        decreases depth,
    {
        if depth == 0 {
            r == scene.background_color
        } else {
            exists|found: Option<(Scalar, Intersectable)>|
                #[trigger] scene.closest_spec(ops, ray, found) && match found {
                    None => r == scene.background_color,
                    Some(hit) => {
                        let p = Ray::at_spec(ops, ray, hit.0);
                        let material = hit.1.material_spec();
                        let view_dir = Vec3::normalize_spec(
                            ops,
                            Vec3::sub_spec(ops, scene.camera.position, p),
                        );
                        exists|normal: Vec3, uv: Option<(Scalar, Scalar, usize)>, local: Color|
                            hit.1.normal_at_spec(ops, p, normal) && hit.1.get_uv_spec(ops, p, uv)
                                && #[trigger] Renderer::shade_spec(
                                ops,
                                p,
                                normal,
                                material,
                                scene,
                                view_dir,
                                uv,
                                local,
                            ) && if material.reflectivity.gt_spec(Scalar { bits: ZERO_BITS })
                                && depth > 1 {
                                exists|mirrored: Color|
                                    Renderer::trace_spec(
                                        ops,
                                        scene,
                                        Ray {
                                            origin: Renderer::lifted_spec(ops, p, normal),
                                            direction: Vec3::reflect_spec(ops, ray.direction, normal),
                                        },
                                        (depth - 1) as nat,
                                        mirrored,
                                    ) && #[trigger] Renderer::blend_spec(
                                        ops,
                                        local,
                                        mirrored,
                                        material.reflectivity,
                                        r,
                                    )
                            } else {
                                r == local
                            }
                    },
                }
        }
    }

    /// Each channel lies in `[0, 1]`, or is NaN.
    pub open spec fn unit_color(c: Color) -> bool {
        &&& c.x.nan() || 0 <= c.x.rank() <= ONE_BITS
        &&& c.y.nan() || 0 <= c.y.rank() <= ONE_BITS
        &&& c.z.nan() || 0 <= c.z.rank() <= ONE_BITS
    }

    /// The nearest hit of `ray` in the scene: its distance, the point, the
    /// normal there, and the shape.
    pub fn find_closest_intersection<'a, A: Arith>(ray: &Ray, scene: &'a Scene, ops: &A) -> (r:
        Option<(Scalar, Point3, Vec3, &'a Intersectable)>)
        ensures
            scene.objects@.len() == 0 ==> r is None,
            r matches Some(found) ==> {
                &&& found.0.lt_spec(Scalar { bits: INFINITY_BITS })
                &&& found.0.gt_spec(found.3.floor_spec())
                &&& found.0.rank() > 0
                &&& exists|i: int| 0 <= i < scene.objects@.len() && scene.objects@[i] == *found.3
            },
            fixed(ops) ==> match r {
                Some(found) => {
                    &&& scene.closest_spec(ops, *ray, Some((found.0, *found.3)))
                    &&& found.1 == Ray::at_spec(ops, *ray, found.0)
                    &&& found.3.normal_at_spec(ops, found.1, found.2)
                },
                None => scene.closest_spec(ops, *ray, None),
            },
    {
        match scene.find_closest_intersection(ray, ops) {
            Some((t, object)) => {
                let hit_point = ray.at(t, ops);
                let normal = object.normal_at(&hit_point, ops);
                Some((t, hit_point, normal, object))
            },
            None => None,
        }
    }

    pub fn is_in_shadow(occluder: Option<Scalar>, distance_to_light: Scalar) -> (r: bool)
        ensures
            r == Renderer::is_in_shadow_spec(occluder, distance_to_light),
    {
        match occluder {
            Some(t) => t.lt(distance_to_light),
            None => false,
        }
    }

    pub fn reflects(reflectivity: Scalar, depth: u32) -> (r: bool)
        ensures
            r == Renderer::reflects_spec(reflectivity, depth),
    {
        reflectivity.gt(Scalar::zero()) && depth > 1
    }

    /// The colour that shading starts from: a texel of the material's
    /// texture where `texture_for` finds one, the material's own colour
    /// where it does not. A texture id that the table lacks is no error.
    pub fn base_color<A: Arith>(
        material: &Material,
        scene: &Scene,
        uv_data: Option<(Scalar, Scalar, usize)>,
        ops: &A,
    ) -> (r: Color)
        requires
            scene.wf(),
        ensures
            match Renderer::texture_for(*material, *scene, uv_data) {
                Some(id) => scene.textures@[id].has_texel(r),
                None => r == material.color,
            },
            fixed(ops) ==> r == Renderer::base_color_spec(ops, *material, *scene, uv_data),
    {
        match (material.texture_id, uv_data) {
            (Some(id), Some((u, v, _))) => {
                if material.has_texture && id < scene.textures.len() {
                    scene.textures[id].sample(u, v, ops)
                } else {
                    material.color
                }
            },
            _ => material.color,
        }
    }

    /// Adds what one light gives to `color`: the sum of `diffuse` and
    /// `specular` where the light is seen, and nothing where it is hidden.
    pub fn illuminate<A: Arith>(
        color: Color,
        occluder: Option<Scalar>,
        distance_to_light: Scalar,
        diffuse: Color,
        specular: Color,
        ops: &A,
    ) -> (r: Color)
        ensures
            Renderer::is_in_shadow_spec(occluder, distance_to_light) ==> r == color,
            fixed(ops) ==> r == Renderer::illuminate_spec(
                ops,
                color,
                occluder,
                distance_to_light,
                diffuse,
                specular,
            ),
    {
        if Renderer::is_in_shadow(occluder, distance_to_light) {
            color
        } else {
            color.add(diffuse, ops).add(specular, ops)
        }
    }

    /// The colour of a surface point as the lights show it: an ambient share
    /// of the base colour, and for every light that is not hidden a diffuse
    /// and a specular term. Each channel of the sum is held to `[0, 1]`.
    pub fn shade<A: Arith>(
        hit_point: &Point3,
        normal: &Vec3,
        material: &Material,
        scene: &Scene,
        view_dir: &Vec3,
        uv_data: Option<(Scalar, Scalar, usize)>,
        ops: &A,
    ) -> (r: Color)
        requires
            scene.wf(),
        ensures
            Renderer::unit_color(r),
            fixed(ops) ==> Renderer::shade_spec(
                ops,
                *hit_point,
                *normal,
                *material,
                *scene,
                *view_dir,
                uv_data,
                r,
            ),
    {
        let zero = Scalar::zero();
        let base_color = Renderer::base_color(material, scene, uv_data, ops);
        let mut color = base_color.mul(Scalar::from_bits(AMBIENT_STRENGTH_BITS), ops);
        let offset = normal.mul(Scalar::surface_epsilon(), ops);
        let mut k: usize = 0;
        while k < scene.lights.len()
            invariant
                k <= scene.lights@.len(),
                scene.wf(),
                zero.bits == ZERO_BITS,
                fixed(ops) ==> base_color == Renderer::base_color_spec(
                    ops,
                    *material,
                    *scene,
                    uv_data,
                ),
                fixed(ops) ==> offset == Vec3::mul_spec(
                    ops,
                    *normal,
                    Scalar { bits: SURFACE_EPSILON_BITS },
                ),
                fixed(ops) ==> Renderer::lit_spec(
                    ops,
                    *scene,
                    *hit_point,
                    *normal,
                    *material,
                    *view_dir,
                    base_color,
                    k as nat,
                    color,
                ),
            decreases scene.lights@.len() - k,
        {
            let ghost before = color;
            let light = scene.lights[k];
            let to_light = light.position.sub(*hit_point, ops);
            let light_dir = to_light.normalize(ops);
            let shadow_ray = Ray::new(hit_point.add(offset, ops), light_dir);
            let distance_to_light = to_light.length(ops);
            let nearest = Renderer::find_closest_intersection(&shadow_ray, scene, ops);
            let ghost found: Option<(Scalar, Intersectable)> = match nearest {
                Some(hit) => Some((hit.0, *hit.3)),
                None => None,
            };
            let occluder = match nearest {
                Some(hit) => Some(hit.0),
                None => None,
            };

            let diffuse_intensity = normal.dot(&light_dir, ops).max(zero);
            let diffuse = base_color.mul(diffuse_intensity, ops).mul(material.albedo, ops).mul(
                light.intensity,
                ops,
            );

            let reflected_light = light_dir.neg().reflect(normal, ops);
            let specular_intensity = ops.power(
                reflected_light.dot(view_dir, ops).max(zero),
                material.shininess,
            );
            let specular = light.color.mul(specular_intensity, ops).mul(material.specular, ops).mul(
                light.intensity,
                ops,
            );

            color = Renderer::illuminate(color, occluder, distance_to_light, diffuse, specular, ops);
            proof {
                if fixed(ops) {
                    let n: nat = (k + 1) as nat;
                    assert(shadow_ray == Renderer::shadow_ray_spec(ops, *hit_point, *normal, light));
                    assert(scene.closest_spec(
                        ops,
                        Renderer::shadow_ray_spec(ops, *hit_point, *normal, light),
                        found,
                    ));
                    assert(Renderer::light_step_spec(
                        ops,
                        *scene,
                        *hit_point,
                        *normal,
                        *material,
                        *view_dir,
                        base_color,
                        scene.lights@[k as int],
                        before,
                        color,
                    ));
                    assert(Renderer::lit_spec(
                        ops,
                        *scene,
                        *hit_point,
                        *normal,
                        *material,
                        *view_dir,
                        base_color,
                        (n - 1) as nat,
                        before,
                    ));
                    assert(scene.lights@[n - 1] == scene.lights@[k as int]);
                    assert(Renderer::lit_spec(
                        ops,
                        *scene,
                        *hit_point,
                        *normal,
                        *material,
                        *view_dir,
                        base_color,
                        n,
                        color,
                    ));
                }
            }
            k += 1;
        }
        color.clamp()
    }

    /// The colour that comes back along `ray`. At depth 0, and where the ray
    /// meets nothing, that is the background. Else it is the shaded colour of
    /// the nearest hit, mixed with the colour of the mirrored ray, traced one
    /// level less deep, where the surface reflects.
    pub fn trace_ray<A: Arith>(ray: &Ray, scene: &Scene, depth: u32, ops: &A) -> (r: Color)
        requires
            scene.wf(),
        ensures
            depth == 0 ==> r == scene.background_color,
            scene.objects@.len() == 0 ==> r == scene.background_color,
            fixed(ops) ==> Renderer::trace_spec(ops, *scene, *ray, depth as nat, r),
        decreases depth,
    {
        if depth == 0 {
            return scene.background_color;
        }
        match Renderer::find_closest_intersection(ray, scene, ops) {
            Some((t, hit_point, normal, object)) => {
                let ghost found = Some((t, *object));
                let material = object.get_material();
                let view_dir = scene.camera.position.sub(hit_point, ops).normalize(ops);
                let uv_data = object.get_uv(&hit_point, ops);
                let local_color = Renderer::shade(
                    &hit_point,
                    &normal,
                    material,
                    scene,
                    &view_dir,
                    uv_data,
                    ops,
                );
                if Renderer::reflects(material.reflectivity, depth) {
                    let reflected_dir = ray.direction.reflect(&normal, ops);
                    let origin = hit_point.add(normal.mul(Scalar::surface_epsilon(), ops), ops);
                    let reflected_ray = Ray::new(origin, reflected_dir);
                    let reflected_color = Renderer::trace_ray(&reflected_ray, scene, depth - 1, ops);
                    let keep = ops.difference(Scalar::one(), material.reflectivity);
                    let mixed = local_color.mul(keep, ops).add(
                        reflected_color.mul(material.reflectivity, ops),
                        ops,
                    );
                    proof {
                        if fixed(ops) {
                            assert(scene.closest_spec(ops, *ray, found));
                            assert(Renderer::shade_spec(
                                ops,
                                hit_point,
                                normal,
                                *material,
                                *scene,
                                view_dir,
                                uv_data,
                                local_color,
                            ));
                            assert(Renderer::blend_spec(
                                ops,
                                local_color,
                                reflected_color,
                                material.reflectivity,
                                mixed,
                            ));
                            assert(Renderer::trace_spec(ops, *scene, *ray, depth as nat, mixed));
                        }
                    }
                    mixed
                } else {
                    proof {
                        if fixed(ops) {
                            assert(scene.closest_spec(ops, *ray, found));
                            assert(Renderer::shade_spec(
                                ops,
                                hit_point,
                                normal,
                                *material,
                                *scene,
                                view_dir,
                                uv_data,
                                local_color,
                            ));
                            assert(Renderer::trace_spec(ops, *scene, *ray, depth as nat, local_color));
                        }
                    }
                    local_color
                }
            },
            None => {
                proof {
                    if fixed(ops) {
                        let none: Option<(Scalar, Intersectable)> = None;
                        assert(scene.closest_spec(ops, *ray, none));
                        assert(Renderer::trace_spec(
                            ops,
                            *scene,
                            *ray,
                            depth as nat,
                            scene.background_color,
                        ));
                    }
                }
                scene.background_color
            },
        }
    }
}

/// A light behind an occluder adds nothing: where the nearest hit of the
/// shadow ray lies nearer than the light, the colour after the light's step
/// is the colour before it.
pub proof fn lemma_hidden_light_adds_nothing<A: Arith>(
    ops: &A,
    scene: Scene,
    hit_point: Point3,
    normal: Vec3,
    material: Material,
    view_dir: Vec3,
    base: Color,
    light: Light,
    before: Color,
    after: Color,
    occluder: (Scalar, Intersectable),
)
    requires
        Renderer::light_step_spec(
            ops,
            scene,
            hit_point,
            normal,
            material,
            view_dir,
            base,
            light,
            before,
            after,
        ),
        scene.closest_spec(
            ops,
            Renderer::shadow_ray_spec(ops, hit_point, normal, light),
            Some(occluder),
        ),
        occluder.0.lt_spec(Renderer::light_distance_spec(ops, hit_point, light)),
    ensures
        after == before,
{
    let shadow_ray = Renderer::shadow_ray_spec(ops, hit_point, normal, light);
    assert forall|found: Option<(Scalar, Intersectable)>| #[trigger]
        scene.closest_spec(ops, shadow_ray, found) implies found == Some(occluder) by {
        lemma_closest_pins(scene, ops, shadow_ray, found, Some(occluder));
    }
}

/// The colour after a light's step is one colour.
pub proof fn lemma_light_step_pins<A: Arith>(
    ops: &A,
    scene: Scene,
    hit_point: Point3,
    normal: Vec3,
    material: Material,
    view_dir: Vec3,
    base: Color,
    light: Light,
    before: Color,
    a1: Color,
    a2: Color,
)
    requires
        Renderer::light_step_spec(ops, scene, hit_point, normal, material, view_dir, base, light, before, a1),
        Renderer::light_step_spec(ops, scene, hit_point, normal, material, view_dir, base, light, before, a2),
    ensures
        a1 == a2,
{
    let shadow_ray = Renderer::shadow_ray_spec(ops, hit_point, normal, light);
    assert forall|f1: Option<(Scalar, Intersectable)>, f2: Option<(Scalar, Intersectable)>|
        #[trigger] scene.closest_spec(ops, shadow_ray, f1) && #[trigger] scene.closest_spec(
            ops,
            shadow_ray,
            f2,
        ) implies f1 == f2 by {
        lemma_closest_pins(scene, ops, shadow_ray, f1, f2);
    }
}

/// The colour after the first `n` lights is one colour.
pub proof fn lemma_lit_pins<A: Arith>(
    ops: &A,
    scene: Scene,
    hit_point: Point3,
    normal: Vec3,
    material: Material,
    view_dir: Vec3,
    base: Color,
    n: nat,
    c1: Color,
    c2: Color,
)
    requires
        Renderer::lit_spec(ops, scene, hit_point, normal, material, view_dir, base, n, c1),
        Renderer::lit_spec(ops, scene, hit_point, normal, material, view_dir, base, n, c2),
    ensures
        c1 == c2,
    decreases n,
{
    if n > 0 {
        let m = (n - 1) as nat;
        let light = scene.lights@[n - 1];
        let b1 = choose|before: Color|
            Renderer::lit_spec(ops, scene, hit_point, normal, material, view_dir, base, m, before)
                && #[trigger] Renderer::light_step_spec(
                ops,
                scene,
                hit_point,
                normal,
                material,
                view_dir,
                base,
                light,
                before,
                c1,
            );
        let b2 = choose|before: Color|
            Renderer::lit_spec(ops, scene, hit_point, normal, material, view_dir, base, m, before)
                && #[trigger] Renderer::light_step_spec(
                ops,
                scene,
                hit_point,
                normal,
                material,
                view_dir,
                base,
                light,
                before,
                c2,
            );
        lemma_lit_pins(ops, scene, hit_point, normal, material, view_dir, base, m, b1, b2);
        lemma_light_step_pins(
            ops,
            scene,
            hit_point,
            normal,
            material,
            view_dir,
            base,
            light,
            b1,
            c1,
            c2,
        );
    }
}

/// The shaded colour of a point is one colour: `shade_spec` leaves one
/// answer.
pub proof fn lemma_shade_pins<A: Arith>(
    ops: &A,
    hit_point: Point3,
    normal: Vec3,
    material: Material,
    scene: Scene,
    view_dir: Vec3,
    uv_data: Option<(Scalar, Scalar, usize)>,
    r1: Color,
    r2: Color,
)
    requires
        Renderer::shade_spec(ops, hit_point, normal, material, scene, view_dir, uv_data, r1),
        Renderer::shade_spec(ops, hit_point, normal, material, scene, view_dir, uv_data, r2),
    ensures
        r1 == r2,
{
    let base = Renderer::base_color_spec(ops, material, scene, uv_data);
    let n = scene.lights@.len();
    let s1 = choose|sum: Color|
        #[trigger] Renderer::lit_spec(ops, scene, hit_point, normal, material, view_dir, base, n, sum)
            && r1 == sum.clamp_spec();
    let s2 = choose|sum: Color|
        #[trigger] Renderer::lit_spec(ops, scene, hit_point, normal, material, view_dir, base, n, sum)
            && r2 == sum.clamp_spec();
    lemma_lit_pins(ops, scene, hit_point, normal, material, view_dir, base, n, s1, s2);
}

/// What a hit gives: the normal, the texture coordinates and the shaded
/// colour at the hit point are each one value.
pub proof fn lemma_surface_pins<A: Arith>(
    ops: &A,
    scene: Scene,
    shape: Intersectable,
    p: Point3,
    view_dir: Vec3,
    n1: Vec3,
    u1: Option<(Scalar, Scalar, usize)>,
    c1: Color,
    n2: Vec3,
    u2: Option<(Scalar, Scalar, usize)>,
    c2: Color,
)
    requires
        shape.normal_at_spec(ops, p, n1),
        shape.get_uv_spec(ops, p, u1),
        Renderer::shade_spec(ops, p, n1, shape.material_spec(), scene, view_dir, u1, c1),
        shape.normal_at_spec(ops, p, n2),
        shape.get_uv_spec(ops, p, u2),
        Renderer::shade_spec(ops, p, n2, shape.material_spec(), scene, view_dir, u2, c2),
    ensures
        n1 == n2,
        u1 == u2,
        c1 == c2,
{
    lemma_normal_pins(shape, ops, p, n1, n2);
    lemma_uv_pins(shape, ops, p, u1, u2);
    lemma_shade_pins(ops, p, n1, shape.material_spec(), scene, view_dir, u1, c1, c2);
}

/// The colour that comes back along a ray is one colour: `trace_spec` leaves
/// one answer.
#[verifier::rlimit(80)]
#[verifier::spinoff_prover]
pub proof fn lemma_trace_pins<A: Arith>(
    ops: &A,
    scene: Scene,
    ray: Ray,
    depth: nat,
    r1: Color,
    r2: Color,
)
    requires
        Renderer::trace_spec(ops, scene, ray, depth, r1),
        Renderer::trace_spec(ops, scene, ray, depth, r2),
    ensures
        r1 == r2,
    decreases depth,
{
    if depth > 0 {
        assert forall|f1: Option<(Scalar, Intersectable)>, f2: Option<(Scalar, Intersectable)>|
            #[trigger] scene.closest_spec(ops, ray, f1) && #[trigger] scene.closest_spec(
                ops,
                ray,
                f2,
            ) implies f1 == f2 by {
            lemma_closest_pins(scene, ops, ray, f1, f2);
        }
        assert forall|
            shape: Intersectable,
            p: Point3,
            v: Vec3,
            n1: Vec3,
            u1: Option<(Scalar, Scalar, usize)>,
            c1: Color,
            n2: Vec3,
            u2: Option<(Scalar, Scalar, usize)>,
            c2: Color,
        |
            shape.normal_at_spec(ops, p, n1) && shape.get_uv_spec(ops, p, u1)
                && #[trigger] Renderer::shade_spec(
                ops,
                p,
                n1,
                shape.material_spec(),
                scene,
                v,
                u1,
                c1,
            ) && shape.normal_at_spec(ops, p, n2) && shape.get_uv_spec(ops, p, u2)
                && #[trigger] Renderer::shade_spec(
                ops,
                p,
                n2,
                shape.material_spec(),
                scene,
                v,
                u2,
                c2,
            ) implies n1 == n2 && u1 == u2 && c1 == c2 by {
            lemma_surface_pins(ops, scene, shape, p, v, n1, u1, c1, n2, u2, c2);
        }
        assert forall|
            p: Point3,
            normal: Vec3,
            m1: Color,
            m2: Color,
            refl: Scalar,
            l: Color,
            b1: Color,
            b2: Color,
        |
            Renderer::trace_spec(
                ops,
                scene,
                Ray {
                    origin: #[trigger] Renderer::lifted_spec(ops, p, normal),
                    direction: Vec3::reflect_spec(ops, ray.direction, normal),
                },
                (depth - 1) as nat,
                m1,
            ) && Renderer::trace_spec(
                ops,
                scene,
                Ray {
                    origin: Renderer::lifted_spec(ops, p, normal),
                    direction: Vec3::reflect_spec(ops, ray.direction, normal),
                },
                (depth - 1) as nat,
                m2,
            ) && #[trigger] Renderer::blend_spec(ops, l, m1, refl, b1)
                && #[trigger] Renderer::blend_spec(ops, l, m2, refl, b2) implies m1 == m2 by {
            lemma_trace_pins(
                ops,
                scene,
                Ray {
                    origin: Renderer::lifted_spec(ops, p, normal),
                    direction: Vec3::reflect_spec(ops, ray.direction, normal),
                },
                (depth - 1) as nat,
                m1,
                m2,
            );
        }
    }
}

/// At depth 0 the colour that comes back is the background, whatever the
/// ray and the scene.
pub proof fn lemma_depth_zero_is_background<A: Arith>(ops: &A, scene: Scene, ray: Ray, r: Color)
    requires
        Renderer::trace_spec(ops, scene, ray, 0, r),
    ensures
        r == scene.background_color,
{
}

} // verus!
