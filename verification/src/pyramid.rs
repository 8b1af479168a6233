//! Triangular pyramids: an apex over an equilateral base.

use vstd::prelude::*;
use crate::arith::{
    cosine_of, difference_of, fixed, product_of, quotient_of, sine_of, sum_of, Arith,
};
use crate::hit::{counts, lemma_nearest_pins, nearest, nearest_distance_spec, nearest_spec};
use crate::material::Material;
use crate::ray::Ray;
use crate::scalar::{
    Scalar, DEGENERACY_EPSILON_BITS, FOUR_BITS, HALF_BITS, INFINITY_BITS, NEG_ONE_BITS, ONE_BITS,
    PI_BITS, SURFACE_EPSILON_BITS, THREE_BITS, TWO_BITS, ZERO_BITS,
};
use crate::vector::{Point3, Vec3};

verus! {

/// 0.6: the base radius of a centred pyramid, in units of its height.
pub const BASE_RATIO_BITS: u32 = 0x3f19_999a;

/// The base lies in the plane through `base_center` across the y axis, its
/// corners at `base_radius` from the centre and a third of a turn apart.
#[derive(Clone, Copy, Debug)]
pub struct Pyramid {
    pub apex: Point3,
    pub base_center: Point3,
    pub height: Scalar,
    pub base_radius: Scalar,
    pub material: Material,
}

impl Pyramid {
    /// The distance at which a ray meets a triangle, given the numbers of
    /// the Moller-Trumbore method: the determinant `a`, the barycentric
    /// coordinates `u` and `v`, their sum `uv`, and the distance `t`.
    ///
    /// Nothing where `|a|` is below 1e-6 (the ray runs along the triangle's
    /// plane), where `u` is below 0 or above 1, where `v` is below 0, or where
    /// `uv` is above 1; else `t` if it is above 1e-6; else nothing.
    pub open spec fn triangle_hit_spec(a: Scalar, u: Scalar, v: Scalar, uv: Scalar, t: Scalar)
        -> Option<Scalar> {
        let zero = Scalar { bits: ZERO_BITS };
        let one = Scalar { bits: ONE_BITS };
        let tiny = Scalar { bits: DEGENERACY_EPSILON_BITS };
        if a.abs_spec().lt_spec(tiny) {
            None
        } else if u.lt_spec(zero) || u.gt_spec(one) {
            None
        } else if v.lt_spec(zero) || uv.gt_spec(one) {
            None
        } else if t.gt_spec(tiny) {
            Some(t)
        } else {
            None
        }
    }

    /// The pyramid of height `size` around `center`.
    pub open spec fn centered_spec<A: Arith>(
        ops: &A,
        center: Point3,
        size: Scalar,
        material: Material,
    ) -> Pyramid {
        let rise = product_of(ops, size, Scalar { bits: HALF_BITS });
        Pyramid {
            apex: Vec3 { x: center.x, y: sum_of(ops, center.y, rise), z: center.z },
            base_center: Vec3 { x: center.x, y: difference_of(ops, center.y, rise), z: center.z },
            height: size,
            base_radius: product_of(ops, size, Scalar { bits: BASE_RATIO_BITS }),
            material,
        }
    }

    /// The angle of base corner `i`: 0, `pi * 2 / 3` and `pi * 4 / 3`.
    pub open spec fn base_angle_spec<A: Arith>(ops: &A, i: int) -> Scalar {
        let pi = Scalar { bits: PI_BITS };
        let three = Scalar { bits: THREE_BITS };
        if i == 0 {
            Scalar { bits: ZERO_BITS }
        } else if i == 1 {
            quotient_of(ops, product_of(ops, pi, Scalar { bits: TWO_BITS }), three)
        } else {
            quotient_of(ops, product_of(ops, pi, Scalar { bits: FOUR_BITS }), three)
        }
    }

    /// Base corner `i`: the base radius from the base centre, at the corner's
    /// angle.
    pub open spec fn base_vertex_spec<A: Arith>(ops: &A, pyramid: Pyramid, i: int) -> Point3 {
        let angle = Pyramid::base_angle_spec(ops, i);
        Vec3 {
            x: sum_of(
                ops,
                pyramid.base_center.x,
                product_of(ops, pyramid.base_radius, cosine_of(ops, angle)),
            ),
            y: pyramid.base_center.y,
            z: sum_of(
                ops,
                pyramid.base_center.z,
                product_of(ops, pyramid.base_radius, sine_of(ops, angle)),
            ),
        }
    }

    /// The distance at which `ray` goes through the triangle `v0 v1 v2`, by
    /// the Moller-Trumbore method: with the edges `e1 = v1 - v0` and
    /// `e2 = v2 - v0`, `h = d x e2`, `a = e1 . h`, `f = 1 / a`, `s = o - v0`,
    /// `u = f (s . h)`, `q = s x e1`, `v = f (d . q)` and `t = f (e2 . q)`,
    /// taken as `triangle_hit_spec` says.
    pub open spec fn intersect_triangle_spec<A: Arith>(
        ops: &A,
        ray: Ray,
        v0: Point3,
        v1: Point3,
        v2: Point3,
    ) -> Option<Scalar> {
        let edge1 = Vec3::sub_spec(ops, v1, v0);
        let edge2 = Vec3::sub_spec(ops, v2, v0);
        let h = Vec3::cross_spec(ops, ray.direction, edge2);
        let a = Vec3::dot_spec(ops, edge1, h);
        let f = quotient_of(ops, Scalar { bits: ONE_BITS }, a);
        let s = Vec3::sub_spec(ops, ray.origin, v0);
        let u = product_of(ops, f, Vec3::dot_spec(ops, s, h));
        let q = Vec3::cross_spec(ops, s, edge1);
        let v = product_of(ops, f, Vec3::dot_spec(ops, ray.direction, q));
        let t = product_of(ops, f, Vec3::dot_spec(ops, edge2, q));
        Pyramid::triangle_hit_spec(a, u, v, sum_of(ops, u, v), t)
    }

    /// The hit on side `i`, the triangle of the apex and the base corners
    /// `i` and `i + 1`.
    pub open spec fn side_hit_spec<A: Arith>(ops: &A, pyramid: Pyramid, ray: Ray, i: int) -> Option<
        Scalar,
    > {
        Pyramid::intersect_triangle_spec(
            ops,
            ray,
            pyramid.apex,
            Pyramid::base_vertex_spec(ops, pyramid, i),
            Pyramid::base_vertex_spec(ops, pyramid, (i + 1) % 3),
        )
    }

    /// The hits on the three sides and on the base, in that order.
    pub open spec fn hits_spec<A: Arith>(ops: &A, pyramid: Pyramid, ray: Ray) -> Seq<Option<Scalar>> {
        seq![
            Pyramid::side_hit_spec(ops, pyramid, ray, 0),
            Pyramid::side_hit_spec(ops, pyramid, ray, 1),
            Pyramid::side_hit_spec(ops, pyramid, ray, 2),
            Pyramid::intersect_triangle_spec(
                ops,
                ray,
                Pyramid::base_vertex_spec(ops, pyramid, 0),
                Pyramid::base_vertex_spec(ops, pyramid, 1),
                Pyramid::base_vertex_spec(ops, pyramid, 2),
            ),
        ]
    }

    /// The normal of side `i`, at unit length and turned away from the
    /// middle of the pyramid, the point halfway between apex and base centre:
    /// the cross product of the edges from the apex, reversed where it points
    /// against the way from the middle to the side's centroid.
    pub open spec fn side_normal_spec<A: Arith>(ops: &A, pyramid: Pyramid, i: int) -> Vec3 {
        let half = Scalar { bits: HALF_BITS };
        let three = Scalar { bits: THREE_BITS };
        let v0 = pyramid.apex;
        let v1 = Pyramid::base_vertex_spec(ops, pyramid, i);
        let v2 = Pyramid::base_vertex_spec(ops, pyramid, (i + 1) % 3);
        let center = Vec3 {
            x: product_of(ops, sum_of(ops, pyramid.apex.x, pyramid.base_center.x), half),
            y: product_of(ops, sum_of(ops, pyramid.apex.y, pyramid.base_center.y), half),
            z: product_of(ops, sum_of(ops, pyramid.apex.z, pyramid.base_center.z), half),
        };
        let normal = Vec3::normalize_spec(
            ops,
            Vec3::cross_spec(ops, Vec3::sub_spec(ops, v1, v0), Vec3::sub_spec(ops, v2, v0)),
        );
        let face_center = Vec3 {
            x: quotient_of(ops, sum_of(ops, sum_of(ops, v0.x, v1.x), v2.x), three),
            y: quotient_of(ops, sum_of(ops, sum_of(ops, v0.y, v1.y), v2.y), three),
            z: quotient_of(ops, sum_of(ops, sum_of(ops, v0.z, v1.z), v2.z), three),
        };
        let outward = Vec3::sub_spec(ops, face_center, center);
        if Vec3::dot_spec(ops, normal, outward).lt_spec(Scalar { bits: ZERO_BITS }) {
            Vec3::mul_spec(ops, normal, Scalar { bits: NEG_ONE_BITS })
        } else {
            normal
        }
    }

    /// The distance of `point` from the plane of side `i`.
    pub open spec fn side_distance_spec<A: Arith>(
        ops: &A,
        pyramid: Pyramid,
        point: Point3,
        i: int,
    ) -> Scalar {
        Vec3::dot_spec(
            ops,
            Vec3::sub_spec(ops, point, pyramid.apex),
            Pyramid::side_normal_spec(ops, pyramid, i),
        ).abs_spec()
    }

    /// `r` is the normal at `point`: straight down where the point is nearer
    /// than 1e-4 to the base plane; else the normal of the nearest side, the
    /// first of several equally near, scaled to unit length once more.
    pub open spec fn normal_at_spec<A: Arith>(ops: &A, pyramid: Pyramid, point: Point3, r: Vec3) -> bool {
        let down = Vec3 {
            x: Scalar { bits: ZERO_BITS },
            y: Scalar { bits: NEG_ONE_BITS },
            z: Scalar { bits: ZERO_BITS },
        };
        let gap = difference_of(ops, point.y, pyramid.base_center.y).abs_spec();
        let distances = seq![
            Some(Pyramid::side_distance_spec(ops, pyramid, point, 0)),
            Some(Pyramid::side_distance_spec(ops, pyramid, point, 1)),
            Some(Pyramid::side_distance_spec(ops, pyramid, point, 2)),
        ];
        if gap.lt_spec(Scalar { bits: SURFACE_EPSILON_BITS }) {
            r == down
        } else {
            exists|pick: Option<(Scalar, usize)>|
                #[trigger] nearest_spec(distances, pick) && r == Vec3::normalize_spec(
                    ops,
                    match pick {
                        Some(side) => Pyramid::side_normal_spec(ops, pyramid, side.1 as int),
                        None => down,
                    },
                )
        }
    }

    pub fn new(
        apex: Point3,
        base_center: Point3,
        height: Scalar,
        base_radius: Scalar,
        material: Material,
    ) -> (r: Pyramid)
        ensures
            r.apex == apex,
            r.base_center == base_center,
            r.height == height,
            r.base_radius == base_radius,
            r.material == material,
    {
        Pyramid { apex, base_center, height, base_radius, material }
    }

    /// The pyramid of height `size` and base radius `0.6 * size` whose apex
    /// and base lie half the height above and below `center`.
    pub fn centered<A: Arith>(center: Point3, size: Scalar, material: Material, ops: &A) -> (r:
        Pyramid)
        ensures
            r.height == size,
            r.material == material,
            r.apex.x == center.x,
            r.apex.z == center.z,
            r.base_center.x == center.x,
            r.base_center.z == center.z,
            fixed(ops) ==> r == Pyramid::centered_spec(ops, center, size, material),
    {
        let height = size;
        let base_radius = ops.product(size, Scalar::from_bits(BASE_RATIO_BITS));
        let rise = ops.product(height, Scalar::from_bits(HALF_BITS));
        let apex = Vec3::new(center.x, ops.sum(center.y, rise), center.z);
        let base_center = Vec3::new(center.x, ops.difference(center.y, rise), center.z);
        Pyramid { apex, base_center, height, base_radius, material }
    }

    /// The base corner at `angle` radians round the centre. It lies at the
    /// height of the base centre.
    fn base_vertex<A: Arith>(&self, angle: Scalar, ops: &A) -> (r: Point3)
        ensures
            r.y == self.base_center.y,
            fixed(ops) ==> forall|i: int|
                angle == #[trigger] Pyramid::base_angle_spec(ops, i) ==> r
                    == Pyramid::base_vertex_spec(ops, *self, i),
    {
        Vec3::new(
            ops.sum(self.base_center.x, ops.product(self.base_radius, ops.cosine(angle))),
            self.base_center.y,
            ops.sum(self.base_center.z, ops.product(self.base_radius, ops.sine(angle))),
        )
    }

    /// The three corners of the base, at 0, a third and two thirds of a
    /// turn. All lie at the height of the base centre.
    pub fn get_base_vertices<A: Arith>(&self, ops: &A) -> (r: [Point3; 3])
        ensures
            forall|i: int| 0 <= i < 3 ==> (#[trigger] r@[i]).y == self.base_center.y,
            fixed(ops) ==> forall|i: int|
                0 <= i < 3 ==> #[trigger] r@[i] == Pyramid::base_vertex_spec(ops, *self, i),
    {
        let pi = Scalar::from_bits(PI_BITS);
        let three = Scalar::from_bits(THREE_BITS);
        let angle1 = Scalar::zero();
        let angle2 = ops.quotient(ops.product(pi, Scalar::from_bits(TWO_BITS)), three);
        let angle3 = ops.quotient(ops.product(pi, Scalar::from_bits(FOUR_BITS)), three);
        assert(fixed(ops) ==> angle1 == Pyramid::base_angle_spec(ops, 0));
        assert(fixed(ops) ==> angle2 == Pyramid::base_angle_spec(ops, 1));
        assert(fixed(ops) ==> angle3 == Pyramid::base_angle_spec(ops, 2));
        [
            self.base_vertex(angle1, ops),
            self.base_vertex(angle2, ops),
            self.base_vertex(angle3, ops),
        ]
    }

    pub fn triangle_hit(a: Scalar, u: Scalar, v: Scalar, uv: Scalar, t: Scalar) -> (r: Option<
        Scalar,
    >)
        ensures
            r == Pyramid::triangle_hit_spec(a, u, v, uv, t),
    {
        let zero = Scalar::zero();
        let one = Scalar::one();
        let tiny = Scalar::degeneracy_epsilon();
        if a.abs().lt(tiny) {
            None
        } else if u.lt(zero) || u.gt(one) {
            None
        } else if v.lt(zero) || uv.gt(one) {
            None
        } else if t.gt(tiny) {
            Some(t)
        } else {
            None
        }
    }

    /// The distance at which `ray` passes through the triangle `v0 v1 v2`. A
    /// distance that comes back is above 1e-6.
    pub fn intersect_triangle<A: Arith>(
        &self,
        ray: &Ray,
        v0: Point3,
        v1: Point3,
        v2: Point3,
        ops: &A,
    ) -> (r: Option<Scalar>)
        ensures
            r matches Some(t) ==> t.gt_spec(Scalar { bits: DEGENERACY_EPSILON_BITS }),
            fixed(ops) ==> r == Pyramid::intersect_triangle_spec(ops, *ray, v0, v1, v2),
    {
        let edge1 = v1.sub(v0, ops);
        let edge2 = v2.sub(v0, ops);
        let h = ray.direction.cross(&edge2, ops);
        let a = edge1.dot(&h, ops);
        let f = ops.quotient(Scalar::one(), a);
        let s = ray.origin.sub(v0, ops);
        let u = ops.product(f, s.dot(&h, ops));
        let q = s.cross(&edge1, ops);
        let v = ops.product(f, ray.direction.dot(&q, ops));
        let t = ops.product(f, edge2.dot(&q, ops));
        Pyramid::triangle_hit(a, u, v, ops.sum(u, v), t)
    }

    /// The nearest of the hits on the three sides and the base. A distance
    /// that comes back is above 1e-6 and below infinity.
    pub fn intersect<A: Arith>(&self, ray: &Ray, ops: &A) -> (r: Option<Scalar>)
        ensures
            r matches Some(t) ==> t.gt_spec(Scalar { bits: DEGENERACY_EPSILON_BITS }) && t.lt_spec(
                Scalar { bits: INFINITY_BITS },
            ),
            fixed(ops) ==> nearest_distance_spec(Pyramid::hits_spec(ops, *self, *ray), r),
    {
        let base = self.get_base_vertices(ops);
        let mut hits: Vec<Option<Scalar>> = Vec::new();
        let mut i: usize = 0;
        while i < 3
            invariant
                i <= 3,
                hits@.len() == i,
                forall|j: int|
                    0 <= j < hits@.len() ==> ((#[trigger] hits@[j]) matches Some(t) ==> t.gt_spec(
                        Scalar { bits: DEGENERACY_EPSILON_BITS },
                    )),
                fixed(ops) ==> forall|j: int|
                    0 <= j < 3 ==> #[trigger] base@[j] == Pyramid::base_vertex_spec(ops, *self, j),
                fixed(ops) ==> forall|j: int|
                    0 <= j < hits@.len() ==> #[trigger] hits@[j] == Pyramid::side_hit_spec(
                        ops,
                        *self,
                        *ray,
                        j,
                    ),
            decreases 3 - i,
        {
            let hit = self.intersect_triangle(ray, self.apex, base[i], base[(i + 1) % 3], ops);
            hits.push(hit);
            i += 1;
        }
        let hit = self.intersect_triangle(ray, base[0], base[1], base[2], ops);
        hits.push(hit);
        assert(fixed(ops) ==> hits@ =~= Pyramid::hits_spec(ops, *self, *ray));
        let found = nearest(&hits);
        match found {
            Some((t, k)) => {
                assert(counts(hits@[k as int]));
                assert(nearest_spec(hits@, Some((t, k))));
                Some(t)
            },
            None => None,
        }
    }

    /// Whether a point counts as lying on the base, given its distance
    /// `gap` from the base plane: it does below 1e-4.
    pub fn on_base(gap: Scalar) -> (r: bool)
        ensures
            r == gap.lt_spec(Scalar { bits: SURFACE_EPSILON_BITS }),
    {
        gap.lt(Scalar::surface_epsilon())
    }

    /// A side's normal, turned to point away from the middle of the pyramid:
    /// `reversed` where `facing`, the normal's component along the way from
    /// the middle to the side, is below zero; `normal` where it is not.
    pub fn turned_out(normal: Vec3, reversed: Vec3, facing: Scalar) -> (r: Vec3)
        ensures
            r == if facing.lt_spec(Scalar { bits: ZERO_BITS }) {
                reversed
            } else {
                normal
            },
    {
        if facing.lt(Scalar::zero()) {
            reversed
        } else {
            normal
        }
    }

    /// The outward normal at `point`: straight down on the base, else the
    /// normal of the side whose plane is nearest, the first of several
    /// equally near, turned to point away from the middle of the pyramid.
    pub fn normal_at<A: Arith>(&self, point: &Point3, ops: &A) -> (r: Vec3)
        ensures
            fixed(ops) ==> Pyramid::normal_at_spec(ops, *self, *point, r),
    {
        let base = self.get_base_vertices(ops);
        let half = Scalar::from_bits(HALF_BITS);
        let three = Scalar::from_bits(THREE_BITS);
        let down = Vec3::new(Scalar::zero(), Scalar::from_bits(NEG_ONE_BITS), Scalar::zero());
        let center = Vec3::new(
            ops.product(ops.sum(self.apex.x, self.base_center.x), half),
            ops.product(ops.sum(self.apex.y, self.base_center.y), half),
            ops.product(ops.sum(self.apex.z, self.base_center.z), half),
        );
        if Pyramid::on_base(ops.difference(point.y, self.base_center.y).abs()) {
            return down;
        }
        let mut normals: Vec<Vec3> = Vec::new();
        let mut distances: Vec<Option<Scalar>> = Vec::new();
        let mut i: usize = 0;
        while i < 3
            invariant
                i <= 3,
                normals@.len() == i,
                distances@.len() == i,
                fixed(ops) ==> forall|j: int|
                    0 <= j < 3 ==> #[trigger] base@[j] == Pyramid::base_vertex_spec(ops, *self, j),
                fixed(ops) ==> center == (Vec3 {
                    x: product_of(ops, sum_of(ops, self.apex.x, self.base_center.x), half),
                    y: product_of(ops, sum_of(ops, self.apex.y, self.base_center.y), half),
                    z: product_of(ops, sum_of(ops, self.apex.z, self.base_center.z), half),
                }),
                half.bits == HALF_BITS,
                three.bits == THREE_BITS,
                fixed(ops) ==> forall|j: int|
                    0 <= j < i ==> #[trigger] normals@[j] == Pyramid::side_normal_spec(ops, *self, j),
                fixed(ops) ==> forall|j: int|
                    0 <= j < i ==> #[trigger] distances@[j] == Some(
                        Pyramid::side_distance_spec(ops, *self, *point, j),
                    ),
            decreases 3 - i,
        {
            let v0 = self.apex;
            let v1 = base[i];
            let v2 = base[(i + 1) % 3];
            let edge1 = v1.sub(v0, ops);
            let edge2 = v2.sub(v0, ops);
            let normal = edge1.cross(&edge2, ops).normalize(ops);
            let face_center = Vec3::new(
                ops.quotient(ops.sum(ops.sum(v0.x, v1.x), v2.x), three),
                ops.quotient(ops.sum(ops.sum(v0.y, v1.y), v2.y), three),
                ops.quotient(ops.sum(ops.sum(v0.z, v1.z), v2.z), three),
            );
            let outward = face_center.sub(center, ops);
            let reversed = normal.mul(Scalar::from_bits(NEG_ONE_BITS), ops);
            let normal = Pyramid::turned_out(normal, reversed, normal.dot(&outward, ops));
            let to_point = point.sub(v0, ops);
            normals.push(normal);
            distances.push(Some(to_point.dot(&normal, ops).abs()));
            i += 1;
        }
        let pick = nearest(&distances);
        let closest_normal = match pick {
            Some((_, side)) => normals[side],
            None => down,
        };
        proof {
            if fixed(ops) {
                assert(distances@ =~= seq![
                    Some(Pyramid::side_distance_spec(ops, *self, *point, 0)),
                    Some(Pyramid::side_distance_spec(ops, *self, *point, 1)),
                    Some(Pyramid::side_distance_spec(ops, *self, *point, 2)),
                ]);
                assert(nearest_spec(distances@, pick));
            }
        }
        closest_normal.normalize(ops)
    }

    /// Pyramids are not textured: every point maps to (0, 0) on face 0.
    pub fn get_uv(&self, _point: &Point3) -> (r: Option<(Scalar, Scalar, usize)>)
        ensures
            r == Some((Scalar { bits: ZERO_BITS }, Scalar { bits: ZERO_BITS }, 0usize)),
    {
        Some((Scalar::zero(), Scalar::zero(), 0))
    }
}

/// The normal at a point of a pyramid is one vector: `normal_at_spec`
/// leaves one answer.
pub proof fn lemma_pyramid_normal_pins<A: Arith>(
    ops: &A,
    pyramid: Pyramid,
    point: Point3,
    r1: Vec3,
    r2: Vec3,
)
    requires
        Pyramid::normal_at_spec(ops, pyramid, point, r1),
        Pyramid::normal_at_spec(ops, pyramid, point, r2),
    ensures
        r1 == r2,
{
    let distances = seq![
        Some(Pyramid::side_distance_spec(ops, pyramid, point, 0)),
        Some(Pyramid::side_distance_spec(ops, pyramid, point, 1)),
        Some(Pyramid::side_distance_spec(ops, pyramid, point, 2)),
    ];
    assert forall|first: Option<(Scalar, usize)>, second: Option<(Scalar, usize)>|
        #[trigger] nearest_spec(distances, first) && #[trigger] nearest_spec(
            distances,
            second,
        ) implies first == second by {
        lemma_nearest_pins(distances, first, second);
    }
}

} // verus!
