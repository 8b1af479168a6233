//! The scene: shapes, lights, a camera, a background and a table of
//! textures.

use vstd::prelude::*;
use crate::arith::{fixed, Arith};
use crate::camera::Camera;
use crate::cube::{lemma_cube_uv_pins, lemma_normal_face_pins, Cube};
use crate::hit::{
    counts, lemma_nearest_distance_pins, lemma_nearest_pins, nearest, nearest_distance_spec,
    nearest_spec,
};
use crate::light::Light;
use crate::material::Material;
use crate::plane::Plane;
use crate::pyramid::{lemma_pyramid_normal_pins, Pyramid};
use crate::ray::Ray;
use crate::scalar::{
    Scalar, DEGENERACY_EPSILON_BITS, INFINITY_BITS, SURFACE_EPSILON_BITS, ZERO_BITS,
};
use crate::sphere::Sphere;
use crate::texture::Texture;
use crate::vector::{Color, Point3, Vec3};

verus! {

/// The shapes that a ray can be tested against.
#[derive(Clone, Copy, Debug)]
pub enum Intersectable {
    Sphere(Sphere),
    Plane(Plane),
    Cube(Cube),
    Pyramid(Pyramid),
}

impl Intersectable {
    pub open spec fn material_spec(&self) -> Material {
        match *self {
            Intersectable::Sphere(s) => s.material,
            Intersectable::Plane(p) => p.material,
            Intersectable::Cube(c) => c.material,
            Intersectable::Pyramid(p) => p.material,
        }
    }

    /// The distance that a hit on this shape has to exceed: 1e-6 on a
    /// pyramid, 1e-4 on the others.
    pub open spec fn floor_spec(&self) -> Scalar {
        match *self {
            Intersectable::Pyramid(_) => Scalar { bits: DEGENERACY_EPSILON_BITS },
            _ => Scalar { bits: SURFACE_EPSILON_BITS },
        }
    }

    /// `r` is what the shape's own `intersect` gives for `ray`.
    pub open spec fn intersect_spec<A: Arith>(&self, ops: &A, ray: Ray, r: Option<Scalar>) -> bool {
        match *self {
            Intersectable::Sphere(s) => r == Sphere::intersect_spec(ops, s, ray),
            Intersectable::Plane(p) => r == Plane::intersect_spec(ops, p, ray),
            Intersectable::Cube(c) => r == Cube::intersect_spec(ops, c, ray),
            Intersectable::Pyramid(p) => nearest_distance_spec(Pyramid::hits_spec(ops, p, ray), r),
        }
    }

    /// `r` is what the shape's own `normal_at` gives for `point`.
    pub open spec fn normal_at_spec<A: Arith>(&self, ops: &A, point: Point3, r: Vec3) -> bool {
        match *self {
            Intersectable::Sphere(s) => r == Sphere::normal_at_spec(ops, s, point),
            Intersectable::Plane(p) => r == p.normal,
            Intersectable::Cube(c) => exists|face: int|
                0 <= face < 6 && #[trigger] Cube::normal_face_spec(ops, c, point, face) && r
                    == Cube::face_normal_spec(face),
            Intersectable::Pyramid(p) => Pyramid::normal_at_spec(ops, p, point, r),
        }
    }

    /// `r` is what the shape's own `get_uv` gives for `point`.
    pub open spec fn get_uv_spec<A: Arith>(
        &self,
        ops: &A,
        point: Point3,
        r: Option<(Scalar, Scalar, usize)>,
    ) -> bool {
        match *self {
            Intersectable::Sphere(s) => r == Sphere::get_uv_spec(ops, s, point),
            Intersectable::Plane(p) => r == Plane::get_uv_spec(ops, p, point),
            Intersectable::Cube(c) => Cube::get_uv_spec(ops, c, point, r),
            Intersectable::Pyramid(_) => r == Some(
                (Scalar { bits: ZERO_BITS }, Scalar { bits: ZERO_BITS }, 0usize),
            ),
        }
    }

    /// The distance along `ray` at which it meets the shape. A distance that
    /// comes back is above the shape's floor, and so above zero.
    pub fn intersect<A: Arith>(&self, ray: &Ray, ops: &A) -> (r: Option<Scalar>)
        ensures
            r matches Some(t) ==> t.gt_spec(self.floor_spec()) && t.rank() > 0,
            fixed(ops) ==> self.intersect_spec(ops, *ray, r),
    {
        match self {
            Intersectable::Sphere(s) => s.intersect(ray, ops),
            Intersectable::Plane(p) => p.intersect(ray, ops),
            Intersectable::Cube(c) => c.intersect(ray, ops),
            Intersectable::Pyramid(p) => p.intersect(ray, ops),
        }
    }

    pub fn normal_at<A: Arith>(&self, point: &Point3, ops: &A) -> (r: Vec3)
        ensures
            self matches Intersectable::Plane(p) ==> r == p.normal,
            self is Cube ==> Cube::axis_unit(r),
            fixed(ops) ==> self.normal_at_spec(ops, *point, r),
    {
        match self {
            Intersectable::Sphere(s) => s.normal_at(point, ops),
            Intersectable::Plane(p) => p.normal_at(point),
            Intersectable::Cube(c) => c.normal_at(point, ops),
            Intersectable::Pyramid(p) => p.normal_at(point, ops),
        }
    }

    pub fn get_material(&self) -> (r: &Material)
        ensures
            *r == self.material_spec(),
    {
        match self {
            Intersectable::Sphere(s) => &s.material,
            Intersectable::Plane(p) => &p.material,
            Intersectable::Cube(c) => &c.material,
            Intersectable::Pyramid(p) => &p.material,
        }
    }

    /// Texture coordinates and face of `point`. Only a cube can fail to
    /// place a point.
    pub fn get_uv<A: Arith>(&self, point: &Point3, ops: &A) -> (r: Option<(Scalar, Scalar, usize)>)
        ensures
            !(self is Cube) ==> r is Some,
            r matches Some(uv) ==> uv.2 < 6,
            fixed(ops) ==> self.get_uv_spec(ops, *point, r),
    {
        match self {
            Intersectable::Sphere(s) => s.get_uv(point, ops),
            Intersectable::Plane(p) => p.get_uv(point, ops),
            Intersectable::Cube(c) => c.get_uv(point, ops),
            Intersectable::Pyramid(p) => p.get_uv(point),
        }
    }
}

pub struct Scene {
    /// In the order in which they were added.
    pub objects: Vec<Intersectable>,
    pub lights: Vec<Light>,
    pub camera: Camera,
    pub background_color: Color,
    /// A texture's place in this table is its id.
    pub textures: Vec<Texture>,
}

impl Scene {
    /// `hits` holds, for each shape in order, what its `intersect` gives for
    /// `ray`.
    pub open spec fn intersections_spec<A: Arith>(
        &self,
        ops: &A,
        ray: Ray,
        hits: Seq<Option<Scalar>>,
    ) -> bool {
        &&& hits.len() == self.objects@.len()
        &&& forall|i: int|
            0 <= i < hits.len() ==> (#[trigger] self.objects@[i]).intersect_spec(ops, ray, hits[i])
    }

    /// `r` is the least of `hits` with the shape it belongs to, the first of
    /// several at that distance; or nothing where no hit counts.
    pub open spec fn picked_spec(
        &self,
        hits: Seq<Option<Scalar>>,
        r: Option<(Scalar, Intersectable)>,
    ) -> bool {
        match r {
            Some(found) => exists|k: usize|
                #[trigger] nearest_spec(hits, Some((found.0, k))) && self.objects@[k as int]
                    == found.1,
            None => nearest_spec(hits, None),
        }
    }

    /// `r` is the nearest hit of `ray`: of the shapes' hits the least, with
    /// the shape it belongs to, the first of several at that distance; or
    /// nothing where no shape is hit below infinity.
    pub open spec fn closest_spec<A: Arith>(
        &self,
        ops: &A,
        ray: Ray,
        r: Option<(Scalar, Intersectable)>,
    ) -> bool {
        exists|hits: Seq<Option<Scalar>>|
            self.intersections_spec(ops, ray, hits) && #[trigger] self.picked_spec(hits, r)
    }

    /// Every texture in the table is well formed.
    pub open spec fn wf(&self) -> bool {
        forall|i: int| 0 <= i < self.textures@.len() ==> (#[trigger] self.textures@[i]).wf()
    }

    /// Whether the scene is well formed.
    pub fn is_wf(&self) -> (r: bool)
        ensures
            r == self.wf(),
    {
        let mut i: usize = 0;
        while i < self.textures.len()
            invariant
                i <= self.textures@.len(),
                forall|j: int| 0 <= j < i ==> (#[trigger] self.textures@[j]).wf(),
            decreases self.textures@.len() - i,
        {
            if !self.textures[i].is_wf() {
                return false;
            }
            i += 1;
        }
        true
    }

    /// An empty scene.
    pub fn new(camera: Camera, background_color: Color) -> (r: Scene)
        ensures
            r.wf(),
            r.objects@.len() == 0,
            r.lights@.len() == 0,
            r.textures@.len() == 0,
            r.camera == camera,
            r.background_color == background_color,
    {
        Scene {
            objects: Vec::new(),
            lights: Vec::new(),
            camera,
            background_color,
            textures: Vec::new(),
        }
    }

    /// Adds a shape behind those that are there.
    pub fn add_object(&mut self, object: Intersectable)
        ensures
            final(self).objects@ == old(self).objects@.push(object),
            final(self).lights == old(self).lights,
            final(self).camera == old(self).camera,
            final(self).background_color == old(self).background_color,
            final(self).textures == old(self).textures,
    {
        self.objects.push(object);
    }

    pub fn add_sphere(&mut self, sphere: Sphere)
        ensures
            final(self).objects@ == old(self).objects@.push(Intersectable::Sphere(sphere)),
            final(self).lights == old(self).lights,
            final(self).camera == old(self).camera,
            final(self).background_color == old(self).background_color,
            final(self).textures == old(self).textures,
    {
        self.objects.push(Intersectable::Sphere(sphere));
    }

    pub fn add_plane(&mut self, plane: Plane)
        ensures
            final(self).objects@ == old(self).objects@.push(Intersectable::Plane(plane)),
            final(self).lights == old(self).lights,
            final(self).camera == old(self).camera,
            final(self).background_color == old(self).background_color,
            final(self).textures == old(self).textures,
    {
        self.objects.push(Intersectable::Plane(plane));
    }

    pub fn add_cube(&mut self, cube: Cube)
        ensures
            final(self).objects@ == old(self).objects@.push(Intersectable::Cube(cube)),
            final(self).lights == old(self).lights,
            final(self).camera == old(self).camera,
            final(self).background_color == old(self).background_color,
            final(self).textures == old(self).textures,
    {
        self.objects.push(Intersectable::Cube(cube));
    }

    pub fn add_pyramid(&mut self, pyramid: Pyramid)
        ensures
            final(self).objects@ == old(self).objects@.push(Intersectable::Pyramid(pyramid)),
            final(self).lights == old(self).lights,
            final(self).camera == old(self).camera,
            final(self).background_color == old(self).background_color,
            final(self).textures == old(self).textures,
    {
        self.objects.push(Intersectable::Pyramid(pyramid));
    }

    pub fn add_light(&mut self, light: Light)
        ensures
            final(self).lights@ == old(self).lights@.push(light),
            final(self).objects == old(self).objects,
            final(self).camera == old(self).camera,
            final(self).background_color == old(self).background_color,
            final(self).textures == old(self).textures,
    {
        self.lights.push(light);
    }

    /// Adds a texture to the table and returns its id. Ids count up from 0
    /// in the order of the calls, and the ids given before stay as they are.
    pub fn add_texture(&mut self, texture: Texture) -> (id: usize)
        requires
            old(self).wf(),
            texture.wf(),
        ensures
            final(self).wf(),
            id == old(self).textures@.len(),
            final(self).textures@ == old(self).textures@.push(texture),
            final(self).objects == old(self).objects,
            final(self).lights == old(self).lights,
            final(self).camera == old(self).camera,
            final(self).background_color == old(self).background_color,
    {
        let id = self.textures.len();
        self.textures.push(texture);
        id
    }

    /// The distance at which `ray` meets each shape, in the order of the
    /// shapes.
    pub fn intersections<A: Arith>(&self, ray: &Ray, ops: &A) -> (hits: Vec<Option<Scalar>>)
        ensures
            hits@.len() == self.objects@.len(),
            forall|i: int|
                0 <= i < hits@.len() ==> ((#[trigger] hits@[i]) matches Some(t) ==> t.gt_spec(
                    self.objects@[i].floor_spec(),
                )),
            fixed(ops) ==> self.intersections_spec(ops, *ray, hits@),
    {
        let mut hits: Vec<Option<Scalar>> = Vec::new();
        let mut i: usize = 0;
        while i < self.objects.len()
            invariant
                i <= self.objects@.len(),
                hits@.len() == i,
                forall|j: int|
                    0 <= j < hits@.len() ==> ((#[trigger] hits@[j]) matches Some(t) ==> t.gt_spec(
                        self.objects@[j].floor_spec(),
                    )),
                fixed(ops) ==> forall|j: int|
                    0 <= j < hits@.len() ==> (#[trigger] self.objects@[j]).intersect_spec(
                        ops,
                        *ray,
                        hits@[j],
                    ),
            decreases self.objects@.len() - i,
        {
            let hit = self.objects[i].intersect(ray, ops);
            hits.push(hit);
            i += 1;
        }
        hits
    }

    /// The shape that `ray` meets first, with the distance. Every shape is
    /// tested; of several at the same distance the one added first wins. The
    /// distance is above that shape's floor and below infinity.
    pub fn find_closest_intersection<A: Arith>(&self, ray: &Ray, ops: &A) -> (r: Option<
        (Scalar, &Intersectable),
    >)
        ensures
            self.objects@.len() == 0 ==> r is None,
            r matches Some(found) ==> {
                &&& found.0.lt_spec(Scalar { bits: INFINITY_BITS })
                &&& found.0.gt_spec(found.1.floor_spec())
                &&& found.0.rank() > 0
                &&& exists|i: int| 0 <= i < self.objects@.len() && self.objects@[i] == *found.1
            },
            fixed(ops) ==> self.closest_spec(
                ops,
                *ray,
                match r {
                    Some(found) => Some((found.0, *found.1)),
                    None => None,
                },
            ),
    {
        let hits = self.intersections(ray, ops);
        match nearest(&hits) {
            Some((t, i)) => {
                assert(counts(hits@[i as int]));
                let object = &self.objects[i];
                proof {
                    if fixed(ops) {
                        assert(nearest_spec(hits@, Some((t, i))));
                        let picked = Some((t, *object));
                        assert(nearest_spec(hits@, Some((picked.unwrap().0, i))));
                        assert(self.picked_spec(hits@, picked));
                        assert(self.intersections_spec(ops, *ray, hits@));
                        assert(self.closest_spec(ops, *ray, Some((t, *object))));
                    }
                }
                Some((t, object))
            },
            None => {
                proof {
                    if fixed(ops) {
                        assert(self.picked_spec(hits@, None));
                        assert(self.intersections_spec(ops, *ray, hits@));
                        assert(self.closest_spec(ops, *ray, None));
                    }
                }
                None
            },
        }
    }
}

/// A shape's hit on a ray is one value: `intersect_spec` leaves one answer.
pub proof fn lemma_intersect_pins<A: Arith>(
    shape: Intersectable,
    ops: &A,
    ray: Ray,
    r1: Option<Scalar>,
    r2: Option<Scalar>,
)
    requires
        shape.intersect_spec(ops, ray, r1),
        shape.intersect_spec(ops, ray, r2),
    ensures
        r1 == r2,
{
    match shape {
        Intersectable::Pyramid(p) => {
            lemma_nearest_distance_pins(Pyramid::hits_spec(ops, p, ray), r1, r2);
        },
        _ => {},
    }
}

/// A shape's normal at a point is one vector: `normal_at_spec` leaves one
/// answer.
pub proof fn lemma_normal_pins<A: Arith>(
    shape: Intersectable,
    ops: &A,
    point: Point3,
    r1: Vec3,
    r2: Vec3,
)
    requires
        shape.normal_at_spec(ops, point, r1),
        shape.normal_at_spec(ops, point, r2),
    ensures
        r1 == r2,
{
    match shape {
        Intersectable::Cube(c) => {
            let f1 = choose|face: int|
                0 <= face < 6 && #[trigger] Cube::normal_face_spec(ops, c, point, face) && r1
                    == Cube::face_normal_spec(face);
            let f2 = choose|face: int|
                0 <= face < 6 && #[trigger] Cube::normal_face_spec(ops, c, point, face) && r2
                    == Cube::face_normal_spec(face);
            lemma_normal_face_pins(ops, c, point, f1, f2);
        },
        Intersectable::Pyramid(p) => {
            lemma_pyramid_normal_pins(ops, p, point, r1, r2);
        },
        _ => {},
    }
}

/// A shape's texture coordinates at a point are one value: `get_uv_spec`
/// leaves one answer.
pub proof fn lemma_uv_pins<A: Arith>(
    shape: Intersectable,
    ops: &A,
    point: Point3,
    r1: Option<(Scalar, Scalar, usize)>,
    r2: Option<(Scalar, Scalar, usize)>,
)
    requires
        shape.get_uv_spec(ops, point, r1),
        shape.get_uv_spec(ops, point, r2),
    ensures
        r1 == r2,
{
    match shape {
        Intersectable::Cube(c) => {
            lemma_cube_uv_pins(ops, c, point, r1, r2);
        },
        _ => {},
    }
}

/// The nearest hit of a ray in a scene is one value: `closest_spec` leaves
/// one answer.
pub proof fn lemma_closest_pins<A: Arith>(
    scene: Scene,
    ops: &A,
    ray: Ray,
    r1: Option<(Scalar, Intersectable)>,
    r2: Option<(Scalar, Intersectable)>,
)
    requires
        scene.closest_spec(ops, ray, r1),
        scene.closest_spec(ops, ray, r2),
    ensures
        r1 == r2,
{
    let h1 = choose|hits: Seq<Option<Scalar>>|
        scene.intersections_spec(ops, ray, hits) && #[trigger] scene.picked_spec(hits, r1);
    let h2 = choose|hits: Seq<Option<Scalar>>|
        scene.intersections_spec(ops, ray, hits) && #[trigger] scene.picked_spec(hits, r2);
    assert forall|i: int| 0 <= i < h1.len() implies h1[i] == h2[i] by {
        lemma_intersect_pins(scene.objects@[i], ops, ray, h1[i], h2[i]);
    }
    assert(h1 =~= h2);
    let first: Option<(Scalar, usize)> = match r1 {
        Some(found) => Some(
            (
                found.0,
                choose|k: usize|
                    #[trigger] nearest_spec(h1, Some((found.0, k))) && scene.objects@[k as int]
                        == found.1,
            ),
        ),
        None => None,
    };
    let second: Option<(Scalar, usize)> = match r2 {
        Some(found) => Some(
            (
                found.0,
                choose|k: usize|
                    #[trigger] nearest_spec(h1, Some((found.0, k))) && scene.objects@[k as int]
                        == found.1,
            ),
        ),
        None => None,
    };
    lemma_nearest_pins(h1, first, second);
}

} // verus!
