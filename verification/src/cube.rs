//! Axis-aligned boxes.

use vstd::prelude::*;
use crate::arith::{difference_of, fixed, product_of, quotient_of, sum_of, Arith};
use crate::material::Material;
use crate::ray::Ray;
use crate::scalar::{
    Scalar, DEGENERACY_EPSILON_BITS, HALF_BITS, INFINITY_BITS, NEG_INFINITY_BITS, NEG_ONE_BITS,
    ONE_BITS, SURFACE_EPSILON_BITS, ZERO_BITS,
};
use crate::vector::{Point3, Vec3};

verus! {

/// The box between the corners `min` and `max`. Its faces are numbered
/// 0 = low x, 1 = high x, 2 = low y, 3 = high y, 4 = low z, 5 = high z.
#[derive(Clone, Copy, Debug)]
pub struct Cube {
    pub min: Point3,
    pub max: Point3,
    pub material: Material,
}

/// The component of `v` along axis 0 (x), 1 (y) or any other number (z).
pub open spec fn axis_spec(v: Vec3, i: int) -> Scalar {
    if i == 0 {
        v.x
    } else if i == 1 {
        v.y
    } else {
        v.z
    }
}

pub fn axis(v: &Vec3, i: usize) -> (r: Scalar)
    ensures
        r == axis_spec(*v, i as int),
{
    if i == 0 {
        v.x
    } else if i == 1 {
        v.y
    } else {
        v.z
    }
}

/// `i` is the first place at which `values` is below `limit`.
pub open spec fn first_below_at(values: Seq<Scalar>, limit: Scalar, i: int) -> bool {
    &&& 0 <= i < values.len()
    &&& values[i].lt_spec(limit)
    &&& forall|j: int| 0 <= j < i ==> !(#[trigger] values[j]).lt_spec(limit)
}

/// What `first_below` returns: the first place at which `values` is below
/// `limit`, or nothing where it is so at no place.
pub open spec fn first_below_spec(values: Seq<Scalar>, limit: Scalar, r: Option<usize>) -> bool {
    match r {
        Some(i) => first_below_at(values, limit, i as int),
        None => forall|j: int| 0 <= j < values.len() ==> !(#[trigger] values[j]).lt_spec(limit),
    }
}

pub fn first_below(values: &[Scalar; 6], limit: Scalar) -> (r: Option<usize>)
    ensures
        first_below_spec(values@, limit, r),
{
    let mut i: usize = 0;
    while i < 6
        invariant
            i <= 6,
            values@.len() == 6,
            forall|j: int| 0 <= j < i ==> !(#[trigger] values@[j]).lt_spec(limit),
        decreases 6 - i,
    {
        if values[i].lt(limit) {
            return Some(i);
        }
        i += 1;
    }
    None
}

impl Cube {
    /// One step of the slab test. `t_min` and `t_max` bound the stretch of
    /// the ray that lies inside the slabs seen so far. For the next axis,
    /// `dir` and `start` are the ray's direction and origin along it, `lo`
    /// and `hi` the box's bounds, and `t0`, `t1` the distances at which the
    /// ray meets the two bounds.
    ///
    /// Where `|dir|` is above 1e-6 the stretch shrinks to its overlap with
    /// `[t0, t1]` (taken in order), and the ray misses if nothing is left.
    /// Otherwise the ray runs along the slab: it misses if `start` is outside
    /// `[lo, hi]`, and the stretch stays as it is if not.
    pub open spec fn narrow_spec(
        t_min: Scalar,
        t_max: Scalar,
        dir: Scalar,
        start: Scalar,
        lo: Scalar,
        hi: Scalar,
        t0: Scalar,
        t1: Scalar,
    ) -> Option<(Scalar, Scalar)> {
        if dir.abs_spec().gt_spec(Scalar { bits: DEGENERACY_EPSILON_BITS }) {
            let near = if t0.gt_spec(t1) {
                t1
            } else {
                t0
            };
            let far = if t0.gt_spec(t1) {
                t0
            } else {
                t1
            };
            let entry = t_min.max_spec(near);
            let exit = t_max.min_spec(far);
            if entry.gt_spec(exit) {
                None
            } else {
                Some((entry, exit))
            }
        } else if start.lt_spec(lo) || start.gt_spec(hi) {
            None
        } else {
            Some((t_min, t_max))
        }
    }

    /// The hit distance once all three slabs are through: the entry `t_min`
    /// if it is above 1e-4; else the exit `t_max` if that is (the ray starts
    /// inside); else nothing.
    pub open spec fn emerge_spec(t_min: Scalar, t_max: Scalar) -> Option<Scalar> {
        if t_min.gt_spec(Scalar { bits: SURFACE_EPSILON_BITS }) {
            Some(t_min)
        } else if t_max.gt_spec(Scalar { bits: SURFACE_EPSILON_BITS }) {
            Some(t_max)
        } else {
            None
        }
    }

    /// The outward normal of face `face`; numbers above 5 count as 5.
    pub open spec fn face_normal_spec(face: int) -> Vec3 {
        let zero = Scalar { bits: ZERO_BITS };
        let plus = Scalar { bits: ONE_BITS };
        let minus = Scalar { bits: NEG_ONE_BITS };
        if face == 0 {
            Vec3 { x: minus, y: zero, z: zero }
        } else if face == 1 {
            Vec3 { x: plus, y: zero, z: zero }
        } else if face == 2 {
            Vec3 { x: zero, y: minus, z: zero }
        } else if face == 3 {
            Vec3 { x: zero, y: plus, z: zero }
        } else if face == 4 {
            Vec3 { x: zero, y: zero, z: minus }
        } else {
            Vec3 { x: zero, y: zero, z: plus }
        }
    }

    /// One component is 1 or -1 and the other two are zero.
    pub open spec fn axis_unit(v: Vec3) -> bool {
        let ones = (if v.x.magnitude() == ONE_BITS { 1int } else { 0int })
            + (if v.y.magnitude() == ONE_BITS { 1int } else { 0int })
            + (if v.z.magnitude() == ONE_BITS { 1int } else { 0int });
        let zeros = (if v.x.magnitude() == 0 { 1int } else { 0int })
            + (if v.y.magnitude() == 0 { 1int } else { 0int })
            + (if v.z.magnitude() == 0 { 1int } else { 0int });
        ones == 1 && zeros == 2
    }

    /// The slab step along axis `i`, with the distances to the two bounds
    /// worked out: `t0 = (lo - start) / dir` and `t1 = (hi - start) / dir`.
    pub open spec fn axis_step_spec<A: Arith>(
        ops: &A,
        cube: Cube,
        ray: Ray,
        i: int,
        stretch: (Scalar, Scalar),
    ) -> Option<(Scalar, Scalar)> {
        let start = axis_spec(ray.origin, i);
        let dir = axis_spec(ray.direction, i);
        let lo = axis_spec(cube.min, i);
        let hi = axis_spec(cube.max, i);
        let t0 = quotient_of(ops, difference_of(ops, lo, start), dir);
        let t1 = quotient_of(ops, difference_of(ops, hi, start), dir);
        Cube::narrow_spec(stretch.0, stretch.1, dir, start, lo, hi, t0, t1)
    }

    /// The stretch of the ray that is left after the first `n` axes, from
    /// the whole line; nothing once a step has found a miss.
    pub open spec fn stretch_after<A: Arith>(ops: &A, cube: Cube, ray: Ray, n: nat) -> Option<
        (Scalar, Scalar),
    >
        decreases n,
    {
        if n == 0 {
            Some((Scalar { bits: NEG_INFINITY_BITS }, Scalar { bits: INFINITY_BITS }))
        } else {
            match Cube::stretch_after(ops, cube, ray, (n - 1) as nat) {
                Some(stretch) => Cube::axis_step_spec(ops, cube, ray, n - 1, stretch),
                None => None,
            }
        }
    }

    /// The distance at which `ray` meets the box: what `emerge_spec` takes of
    /// the stretch that the three slab steps leave.
    pub open spec fn intersect_spec<A: Arith>(ops: &A, cube: Cube, ray: Ray) -> Option<Scalar> {
        match Cube::stretch_after(ops, cube, ray, 3) {
            Some(stretch) => Cube::emerge_spec(stretch.0, stretch.1),
            None => None,
        }
    }

    /// The distances of `point` from the planes of the six faces, in the
    /// order of the faces.
    pub open spec fn face_gaps_spec<A: Arith>(ops: &A, cube: Cube, point: Point3) -> Seq<Scalar> {
        seq![
            difference_of(ops, point.x, cube.min.x).abs_spec(),
            difference_of(ops, point.x, cube.max.x).abs_spec(),
            difference_of(ops, point.y, cube.min.y).abs_spec(),
            difference_of(ops, point.y, cube.max.y).abs_spec(),
            difference_of(ops, point.z, cube.min.z).abs_spec(),
            difference_of(ops, point.z, cube.max.z).abs_spec(),
        ]
    }

    /// For each face, the size of what its gap is above the least of the six
    /// gaps.
    pub open spec fn excess_spec<A: Arith>(ops: &A, gaps: Seq<Scalar>) -> Seq<Scalar> {
        let least = gaps[0].min_spec(gaps[1]).min_spec(gaps[2]).min_spec(gaps[3]).min_spec(
            gaps[4],
        ).min_spec(gaps[5]);
        seq![
            difference_of(ops, least, gaps[0]).abs_spec(),
            difference_of(ops, least, gaps[1]).abs_spec(),
            difference_of(ops, least, gaps[2]).abs_spec(),
            difference_of(ops, least, gaps[3]).abs_spec(),
            difference_of(ops, least, gaps[4]).abs_spec(),
            difference_of(ops, least, gaps[5]).abs_spec(),
        ]
    }

    /// `face` is the face that the normal at `point` is taken from: the first
    /// whose gap is less than 1e-6 above the least gap, and face 5 where
    /// there is none.
    pub open spec fn normal_face_spec<A: Arith>(ops: &A, cube: Cube, point: Point3, face: int) -> bool {
        let excess = Cube::excess_spec(ops, Cube::face_gaps_spec(ops, cube, point));
        let tiny = Scalar { bits: DEGENERACY_EPSILON_BITS };
        first_below_at(excess, tiny, face) || (face == 5 && first_below_spec(excess, tiny, None))
    }

    /// What `get_uv` returns: the first face whose gap is below 1e-4, with
    /// the coordinates that `face_coordinates_spec` gives for the fractions
    /// `(point - min) / (max - min)`; nothing where no gap is below 1e-4.
    pub open spec fn get_uv_spec<A: Arith>(
        ops: &A,
        cube: Cube,
        point: Point3,
        r: Option<(Scalar, Scalar, usize)>,
    ) -> bool {
        let one = Scalar { bits: ONE_BITS };
        let size = Vec3::sub_spec(ops, cube.max, cube.min);
        let across = Vec3::sub_spec(ops, point, cube.min);
        let fx = quotient_of(ops, across.x, size.x);
        let fy = quotient_of(ops, across.y, size.y);
        let fz = quotient_of(ops, across.z, size.z);
        let rx = difference_of(ops, one, fx);
        let rz = difference_of(ops, one, fz);
        let gaps = Cube::face_gaps_spec(ops, cube, point);
        let limit = Scalar { bits: SURFACE_EPSILON_BITS };
        match r {
            Some(uv) => first_below_at(gaps, limit, uv.2 as int) && (uv.0, uv.1)
                == Cube::face_coordinates_spec(uv.2 as int, fx, fy, fz, rx, rz),
            None => first_below_spec(gaps, limit, None),
        }
    }

    /// The corners of the cube of edge `size` around `center`.
    pub open spec fn centered_spec<A: Arith>(
        ops: &A,
        center: Point3,
        size: Scalar,
        material: Material,
    ) -> Cube {
        let half = product_of(ops, size, Scalar { bits: HALF_BITS });
        Cube {
            min: Vec3 {
                x: difference_of(ops, center.x, half),
                y: difference_of(ops, center.y, half),
                z: difference_of(ops, center.z, half),
            },
            max: Vec3 {
                x: sum_of(ops, center.x, half),
                y: sum_of(ops, center.y, half),
                z: sum_of(ops, center.z, half),
            },
            material,
        }
    }

    pub fn new(min: Point3, max: Point3, material: Material) -> (r: Cube)
        ensures
            r.min == min,
            r.max == max,
            r.material == material,
    {
        Cube { min, max, material }
    }

    /// The cube of edge `size` around `center`.
    pub fn centered<A: Arith>(center: Point3, size: Scalar, material: Material, ops: &A) -> (r:
        Cube)
        ensures
            r.material == material,
            fixed(ops) ==> r == Cube::centered_spec(ops, center, size, material),
    {
        let half = ops.product(size, Scalar::from_bits(HALF_BITS));
        Cube {
            min: Vec3::new(
                ops.difference(center.x, half),
                ops.difference(center.y, half),
                ops.difference(center.z, half),
            ),
            max: Vec3::new(ops.sum(center.x, half), ops.sum(center.y, half), ops.sum(center.z, half)),
            material,
        }
    }

    pub fn narrow(
        t_min: Scalar,
        t_max: Scalar,
        dir: Scalar,
        start: Scalar,
        lo: Scalar,
        hi: Scalar,
        t0: Scalar,
        t1: Scalar,
    ) -> (r: Option<(Scalar, Scalar)>)
        ensures
            r == Cube::narrow_spec(t_min, t_max, dir, start, lo, hi, t0, t1),
    {
        if dir.abs().gt(Scalar::degeneracy_epsilon()) {
            let (near, far) = if t0.gt(t1) {
                (t1, t0)
            } else {
                (t0, t1)
            };
            let entry = t_min.max(near);
            let exit = t_max.min(far);
            if entry.gt(exit) {
                None
            } else {
                Some((entry, exit))
            }
        } else if start.lt(lo) || start.gt(hi) {
            None
        } else {
            Some((t_min, t_max))
        }
    }

    pub fn emerge(t_min: Scalar, t_max: Scalar) -> (r: Option<Scalar>)
        ensures
            r == Cube::emerge_spec(t_min, t_max),
    {
        if t_min.gt(Scalar::surface_epsilon()) {
            Some(t_min)
        } else if t_max.gt(Scalar::surface_epsilon()) {
            Some(t_max)
        } else {
            None
        }
    }

    /// The slab test: the stretch of the ray inside the box is narrowed axis
    /// by axis, from the whole line. A distance that comes back is above
    /// 1e-4.
    pub fn intersect<A: Arith>(&self, ray: &Ray, ops: &A) -> (r: Option<Scalar>)
        ensures
            r matches Some(t) ==> t.gt_spec(Scalar { bits: SURFACE_EPSILON_BITS }),
            fixed(ops) ==> r == Cube::intersect_spec(ops, *self, *ray),
    {
        let mut t_min = Scalar::neg_infinity();
        let mut t_max = Scalar::infinity();
        let mut i: usize = 0;
        while i < 3
            invariant
                i <= 3,
                fixed(ops) ==> Cube::stretch_after(ops, *self, *ray, i as nat) == Some(
                    (t_min, t_max),
                ),
            decreases 3 - i,
        {
            proof {
                reveal_with_fuel(Cube::stretch_after, 4);
            }
            let start = axis(&ray.origin, i);
            let dir = axis(&ray.direction, i);
            let lo = axis(&self.min, i);
            let hi = axis(&self.max, i);
            let t0 = ops.quotient(ops.difference(lo, start), dir);
            let t1 = ops.quotient(ops.difference(hi, start), dir);
            match Cube::narrow(t_min, t_max, dir, start, lo, hi, t0, t1) {
                Some((entry, exit)) => {
                    t_min = entry;
                    t_max = exit;
                },
                None => {
                    return None;
                },
            }
            i += 1;
        }
        Cube::emerge(t_min, t_max)
    }

    /// The distances of `point` from the six face planes, in the order of
    /// the faces.
    pub fn face_gaps<A: Arith>(&self, point: &Point3, ops: &A) -> (r: [Scalar; 6])
        ensures
            fixed(ops) ==> r@ == Cube::face_gaps_spec(ops, *self, *point),
    {
        let r = [
            ops.difference(point.x, self.min.x).abs(),
            ops.difference(point.x, self.max.x).abs(),
            ops.difference(point.y, self.min.y).abs(),
            ops.difference(point.y, self.max.y).abs(),
            ops.difference(point.z, self.min.z).abs(),
            ops.difference(point.z, self.max.z).abs(),
        ];
        assert(fixed(ops) ==> r@ =~= Cube::face_gaps_spec(ops, *self, *point));
        r
    }

    pub fn face_normal(face: usize) -> (r: Vec3)
        ensures
            r == Cube::face_normal_spec(face as int),
            Cube::axis_unit(r),
    {
        let zero = Scalar::zero();
        let plus = Scalar::one();
        let minus = Scalar::from_bits(NEG_ONE_BITS);
        if face == 0 {
            Vec3 { x: minus, y: zero, z: zero }
        } else if face == 1 {
            Vec3 { x: plus, y: zero, z: zero }
        } else if face == 2 {
            Vec3 { x: zero, y: minus, z: zero }
        } else if face == 3 {
            Vec3 { x: zero, y: plus, z: zero }
        } else if face == 4 {
            Vec3 { x: zero, y: zero, z: minus }
        } else {
            Vec3 { x: zero, y: zero, z: plus }
        }
    }

    /// The face that `normal_at` settles on, given for each face how far its
    /// distance from the point is above the least of the six: the first face
    /// for which that is below 1e-6, and face 5 where there is none.
    pub fn nearest_face(excess: &[Scalar; 6]) -> (r: usize)
        ensures
            r < 6,
            first_below_at(excess@, Scalar { bits: DEGENERACY_EPSILON_BITS }, r as int) || (r == 5
                && first_below_spec(excess@, Scalar { bits: DEGENERACY_EPSILON_BITS }, None)),
    {
        match first_below(excess, Scalar::degeneracy_epsilon()) {
            Some(i) => i,
            None => 5,
        }
    }

    /// The outward normal of the face nearest to `point`: always one of the
    /// six axis directions, at unit length.
    pub fn normal_at<A: Arith>(&self, point: &Point3, ops: &A) -> (r: Vec3)
        ensures
            exists|face: int| 0 <= face < 6 && r == Cube::face_normal_spec(face),
            Cube::axis_unit(r),
            fixed(ops) ==> exists|face: int|
                0 <= face < 6 && Cube::normal_face_spec(ops, *self, *point, face) && r
                    == Cube::face_normal_spec(face),
    {
        let gaps = self.face_gaps(point, ops);
        let least = gaps[0].min(gaps[1]).min(gaps[2]).min(gaps[3]).min(gaps[4]).min(gaps[5]);
        let excess = [
            ops.difference(least, gaps[0]).abs(),
            ops.difference(least, gaps[1]).abs(),
            ops.difference(least, gaps[2]).abs(),
            ops.difference(least, gaps[3]).abs(),
            ops.difference(least, gaps[4]).abs(),
            ops.difference(least, gaps[5]).abs(),
        ];
        assert(fixed(ops) ==> excess@ =~= Cube::excess_spec(ops, gaps@));
        let face = Cube::nearest_face(&excess);
        assert(fixed(ops) ==> Cube::normal_face_spec(ops, *self, *point, face as int));
        Cube::face_normal(face)
    }

    /// The texture coordinates on face `face` of a point that lies at the
    /// fractions `fx`, `fy`, `fz` of the box's size from its low corner;
    /// `rx` and `rz` are what `fx` and `fz` lack to 1:
    /// `(fz, fy)` on face 0, `(rz, fy)` on 1, `(fx, rz)` on 2, `(fx, fz)` on
    /// 3, `(fx, fy)` on 4 and `(rx, fy)` on 5 and above.
    pub open spec fn face_coordinates_spec(
        face: int,
        fx: Scalar,
        fy: Scalar,
        fz: Scalar,
        rx: Scalar,
        rz: Scalar,
    ) -> (Scalar, Scalar) {
        if face == 0 {
            (fz, fy)
        } else if face == 1 {
            (rz, fy)
        } else if face == 2 {
            (fx, rz)
        } else if face == 3 {
            (fx, fz)
        } else if face == 4 {
            (fx, fy)
        } else {
            (rx, fy)
        }
    }

    pub fn face_coordinates(
        face: usize,
        fx: Scalar,
        fy: Scalar,
        fz: Scalar,
        rx: Scalar,
        rz: Scalar,
    ) -> (r: (Scalar, Scalar))
        ensures
            r == Cube::face_coordinates_spec(face as int, fx, fy, fz, rx, rz),
    {
        if face == 0 {
            (fz, fy)
        } else if face == 1 {
            (rz, fy)
        } else if face == 2 {
            (fx, rz)
        } else if face == 3 {
            (fx, fz)
        } else if face == 4 {
            (fx, fy)
        } else {
            (rx, fy)
        }
    }

    /// Texture coordinates on the face that `point` lies on: the first face
    /// whose plane is nearer to it than 1e-4, with the position across that
    /// face in units of the box's size. Nothing where the point lies on no
    /// face.
    pub fn get_uv<A: Arith>(&self, point: &Point3, ops: &A) -> (r: Option<(Scalar, Scalar, usize)>)
        ensures
            r matches Some(uv) ==> uv.2 < 6,
            fixed(ops) ==> Cube::get_uv_spec(ops, *self, *point, r),
    {
        let gaps = self.face_gaps(point, ops);
        let one = Scalar::one();
        let size = self.max.sub(self.min, ops);
        let across = point.sub(self.min, ops);
        let fx = ops.quotient(across.x, size.x);
        let fy = ops.quotient(across.y, size.y);
        let fz = ops.quotient(across.z, size.z);
        let rx = ops.difference(one, fx);
        let rz = ops.difference(one, fz);
        match first_below(&gaps, Scalar::surface_epsilon()) {
            Some(face) => {
                let (u, v) = Cube::face_coordinates(face, fx, fy, fz, rx, rz);
                Some((u, v, face))
            },
            None => None,
        }
    }
}

/// `first_below_spec` leaves one answer.
pub proof fn lemma_first_below_pins(
    values: Seq<Scalar>,
    limit: Scalar,
    r1: Option<usize>,
    r2: Option<usize>,
)
    requires
        first_below_spec(values, limit, r1),
        first_below_spec(values, limit, r2),
    ensures
        r1 == r2,
{
    if r1 is Some && r2 is Some {
        let i = r1.unwrap() as int;
        let k = r2.unwrap() as int;
        if i < k {
            assert(values[i].lt_spec(limit));
        } else if k < i {
            assert(values[k].lt_spec(limit));
        }
    } else if r1 is Some {
        assert(values[r1.unwrap() as int].lt_spec(limit));
    } else if r2 is Some {
        assert(values[r2.unwrap() as int].lt_spec(limit));
    }
}

/// The texture coordinates of a point on a cube are one value:
/// `get_uv_spec` leaves one answer.
pub proof fn lemma_cube_uv_pins<A: Arith>(
    ops: &A,
    cube: Cube,
    point: Point3,
    r1: Option<(Scalar, Scalar, usize)>,
    r2: Option<(Scalar, Scalar, usize)>,
)
    requires
        Cube::get_uv_spec(ops, cube, point, r1),
        Cube::get_uv_spec(ops, cube, point, r2),
    ensures
        r1 == r2,
{
    let gaps = Cube::face_gaps_spec(ops, cube, point);
    let limit = Scalar { bits: SURFACE_EPSILON_BITS };
    let f1: Option<usize> = match r1 {
        Some(uv) => Some(uv.2),
        None => None,
    };
    let f2: Option<usize> = match r2 {
        Some(uv) => Some(uv.2),
        None => None,
    };
    lemma_first_below_pins(gaps, limit, f1, f2);
}

/// The face that a cube's normal is taken from is one face.
pub proof fn lemma_normal_face_pins<A: Arith>(
    ops: &A,
    cube: Cube,
    point: Point3,
    f1: int,
    f2: int,
)
    requires
        0 <= f1 < 6,
        0 <= f2 < 6,
        Cube::normal_face_spec(ops, cube, point, f1),
        Cube::normal_face_spec(ops, cube, point, f2),
    ensures
        f1 == f2,
{
    let excess = Cube::excess_spec(ops, Cube::face_gaps_spec(ops, cube, point));
    let tiny = Scalar { bits: DEGENERACY_EPSILON_BITS };
    let r1: Option<usize> = if first_below_at(excess, tiny, f1) {
        Some(f1 as usize)
    } else {
        None
    };
    let r2: Option<usize> = if first_below_at(excess, tiny, f2) {
        Some(f2 as usize)
    } else {
        None
    };
    lemma_first_below_pins(excess, tiny, r1, r2);
}

/// A slab step never widens the stretch: where the entry and the exit are
/// numbers before the step, afterwards the entry is no lower, the exit no
/// higher, and the entry does not lie beyond the exit if it did not before.
pub proof fn lemma_narrow_shrinks(
    t_min: Scalar,
    t_max: Scalar,
    dir: Scalar,
    start: Scalar,
    lo: Scalar,
    hi: Scalar,
    t0: Scalar,
    t1: Scalar,
)
    requires
        !t_min.nan(),
        !t_max.nan(),
        t_min.rank() <= t_max.rank(),
    ensures
        Cube::narrow_spec(t_min, t_max, dir, start, lo, hi, t0, t1) matches Some(stretch) ==> {
            &&& !stretch.0.nan()
            &&& !stretch.1.nan()
            &&& t_min.rank() <= stretch.0.rank() <= stretch.1.rank() <= t_max.rank()
        },
{
}

} // verus!
