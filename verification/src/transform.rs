//! Affine transforms and their validated inverses.
//!
//! An [`Affine`] maps a point `p` to `m * p + t` for a 3x3 linear
//! part `m` and a translation `t`. An [`InvertibleTransform`] pairs
//! a transform with its precomputed inverse; the factory
//! [`InvertibleTransform::try_new`] computes the inverse by the
//! adjugate method and then checks, at scene-build time, that both
//! compositions are the identity within [`MAT_EPS`] millionths.
//! A matrix that fails the check (in particular a singular one) is
//! rejected with a [`NonInvertibleTransformError`] before any
//! tracing begins.

use vstd::prelude::*;
use crate::fx::{fdiv, fmul, lemma_fmul_bound, lemma_fmul_const, Fx, FACTOR_LIMIT, SCALE};
use crate::tuple::{pt_vec, pt_within, vec_within, Point3d, Vec3d};

verus! {

/// Largest entry magnitude (in millionths) of a transform and of
/// its stored inverse.
pub const MAT_LIMIT: i128 = 100_000_000;

/// Largest coordinate magnitude (in millionths) of a world-space
/// point or vector handed to a transform.
pub const WORLD_LIMIT: i128 = 1_000_000_000;

/// Bound on a component of `m * v` for entries within [`MAT_LIMIT`]
/// and components within [`WORLD_LIMIT`].
pub const LINEAR_LIMIT: i128 = 300_000_000_000;

/// Bound on a coordinate of `m * p + t` under the same limits.
pub const APPLIED_LIMIT: i128 = 400_000_000_000;

/// Bound on a coordinate of `m * p + t` when the point itself is
/// only within [`APPLIED_LIMIT`] (one more transform layer).
pub const WIDE_APPLIED_LIMIT: i128 = 200_000_000_000_000;

/// Bound on an entry of the composition of two transforms within
/// [`MAT_LIMIT`].
pub const COMPOSE_LIMIT: i128 = 31_000_000_000;

/// Tolerance (in millionths) of the identity check a validated
/// inverse must pass.
pub const MAT_EPS: i128 = 100;

/// The matrix handed to the transform factory failed the inverse
/// validation (it is singular or too distorted to invert here).
#[derive(Clone, Copy, Debug, PartialEq, Eq, Structural)]
pub struct NonInvertibleTransformError;

/// A 3x3 linear map, row by row.
#[derive(Clone, Copy, Debug, PartialEq, Eq, Structural)]
pub struct Mat3 {
    pub m00: Fx, pub m01: Fx, pub m02: Fx,
    pub m10: Fx, pub m11: Fx, pub m12: Fx,
    pub m20: Fx, pub m21: Fx, pub m22: Fx,
}

/// An affine map `p -> m * p + t`.
#[derive(Clone, Copy, Debug, PartialEq, Eq, Structural)]
pub struct Affine {
    pub m: Mat3,
    pub t: Vec3d,
}

/// All nine entries are within `b` millionths.
pub open spec fn mat_within(m: Mat3, b: int) -> bool {
    &&& -b <= m.m00.v() <= b && -b <= m.m01.v() <= b && -b <= m.m02.v() <= b
    &&& -b <= m.m10.v() <= b && -b <= m.m11.v() <= b && -b <= m.m12.v() <= b
    &&& -b <= m.m20.v() <= b && -b <= m.m21.v() <= b && -b <= m.m22.v() <= b
}

/// Entries and translation are within `b` millionths.
pub open spec fn affine_within(a: Affine, b: int) -> bool {
    mat_within(a.m, b) && vec_within(a.t, b)
}

/// Row `x` of `m` dotted with `v`, in fixed point.
pub open spec fn mv_x(m: Mat3, v: Vec3d) -> int {
    fmul(m.m00.v(), v.x.v()) + fmul(m.m01.v(), v.y.v()) + fmul(m.m02.v(), v.z.v())
}

pub open spec fn mv_y(m: Mat3, v: Vec3d) -> int {
    fmul(m.m10.v(), v.x.v()) + fmul(m.m11.v(), v.y.v()) + fmul(m.m12.v(), v.z.v())
}

pub open spec fn mv_z(m: Mat3, v: Vec3d) -> int {
    fmul(m.m20.v(), v.x.v()) + fmul(m.m21.v(), v.y.v()) + fmul(m.m22.v(), v.z.v())
}

/// The product `m * v`.
pub open spec fn mat_vec_val(m: Mat3, v: Vec3d) -> Vec3d {
    Vec3d {
        x: Fx { bits: mv_x(m, v) as i128 },
        y: Fx { bits: mv_y(m, v) as i128 },
        z: Fx { bits: mv_z(m, v) as i128 },
    }
}

/// Column `x` of `m` dotted with `v`, in fixed point.
pub open spec fn mtv_x(m: Mat3, v: Vec3d) -> int {
    fmul(m.m00.v(), v.x.v()) + fmul(m.m10.v(), v.y.v()) + fmul(m.m20.v(), v.z.v())
}

pub open spec fn mtv_y(m: Mat3, v: Vec3d) -> int {
    fmul(m.m01.v(), v.x.v()) + fmul(m.m11.v(), v.y.v()) + fmul(m.m21.v(), v.z.v())
}

pub open spec fn mtv_z(m: Mat3, v: Vec3d) -> int {
    fmul(m.m02.v(), v.x.v()) + fmul(m.m12.v(), v.y.v()) + fmul(m.m22.v(), v.z.v())
}

/// The product `transpose(m) * v` (used to carry normals).
pub open spec fn mat_tr_vec_val(m: Mat3, v: Vec3d) -> Vec3d {
    Vec3d {
        x: Fx { bits: mtv_x(m, v) as i128 },
        y: Fx { bits: mtv_y(m, v) as i128 },
        z: Fx { bits: mtv_z(m, v) as i128 },
    }
}

/// The matrix product `a * b`.
pub open spec fn mat_mul_val(a: Mat3, b: Mat3) -> Mat3 {
    Mat3 {
        m00: Fx { bits: (fmul(a.m00.v(), b.m00.v()) + fmul(a.m01.v(), b.m10.v()) + fmul(a.m02.v(), b.m20.v())) as i128 },
        m01: Fx { bits: (fmul(a.m00.v(), b.m01.v()) + fmul(a.m01.v(), b.m11.v()) + fmul(a.m02.v(), b.m21.v())) as i128 },
        m02: Fx { bits: (fmul(a.m00.v(), b.m02.v()) + fmul(a.m01.v(), b.m12.v()) + fmul(a.m02.v(), b.m22.v())) as i128 },
        m10: Fx { bits: (fmul(a.m10.v(), b.m00.v()) + fmul(a.m11.v(), b.m10.v()) + fmul(a.m12.v(), b.m20.v())) as i128 },
        m11: Fx { bits: (fmul(a.m10.v(), b.m01.v()) + fmul(a.m11.v(), b.m11.v()) + fmul(a.m12.v(), b.m21.v())) as i128 },
        m12: Fx { bits: (fmul(a.m10.v(), b.m02.v()) + fmul(a.m11.v(), b.m12.v()) + fmul(a.m12.v(), b.m22.v())) as i128 },
        m20: Fx { bits: (fmul(a.m20.v(), b.m00.v()) + fmul(a.m21.v(), b.m10.v()) + fmul(a.m22.v(), b.m20.v())) as i128 },
        m21: Fx { bits: (fmul(a.m20.v(), b.m01.v()) + fmul(a.m21.v(), b.m11.v()) + fmul(a.m22.v(), b.m21.v())) as i128 },
        m22: Fx { bits: (fmul(a.m20.v(), b.m02.v()) + fmul(a.m21.v(), b.m12.v()) + fmul(a.m22.v(), b.m22.v())) as i128 },
    }
}

/// The point `a.m * p + a.t`.
pub open spec fn aff_pt_val(a: Affine, p: Point3d) -> Point3d {
    Point3d {
        x: Fx { bits: (mv_x(a.m, pt_vec(p)) + a.t.x.v()) as i128 },
        y: Fx { bits: (mv_y(a.m, pt_vec(p)) + a.t.y.v()) as i128 },
        z: Fx { bits: (mv_z(a.m, pt_vec(p)) + a.t.z.v()) as i128 },
    }
}

/// The affine composition `a after b`: first apply `b`, then `a`.
pub open spec fn compose_val(a: Affine, b: Affine) -> Affine {
    Affine {
        m: mat_mul_val(a.m, b.m),
        t: Vec3d {
            x: Fx { bits: (mv_x(a.m, b.t) + a.t.x.v()) as i128 },
            y: Fx { bits: (mv_y(a.m, b.t) + a.t.y.v()) as i128 },
            z: Fx { bits: (mv_z(a.m, b.t) + a.t.z.v()) as i128 },
        },
    }
}

/// The affine map is the identity within [`MAT_EPS`] millionths.
pub open spec fn approx_id(a: Affine) -> bool {
    &&& -MAT_EPS <= a.m.m00.v() - SCALE <= MAT_EPS
    &&& -MAT_EPS <= a.m.m11.v() - SCALE <= MAT_EPS
    &&& -MAT_EPS <= a.m.m22.v() - SCALE <= MAT_EPS
    &&& -MAT_EPS <= a.m.m01.v() <= MAT_EPS && -MAT_EPS <= a.m.m02.v() <= MAT_EPS
    &&& -MAT_EPS <= a.m.m10.v() <= MAT_EPS && -MAT_EPS <= a.m.m12.v() <= MAT_EPS
    &&& -MAT_EPS <= a.m.m20.v() <= MAT_EPS && -MAT_EPS <= a.m.m21.v() <= MAT_EPS
    &&& -MAT_EPS <= a.t.x.v() <= MAT_EPS && -MAT_EPS <= a.t.y.v() <= MAT_EPS
    &&& -MAT_EPS <= a.t.z.v() <= MAT_EPS
}

/// Three fixed-point products summed, with a bound carried through.
fn dot3(a: Fx, b: Fx, c: Fx, x: Fx, y: Fx, z: Fx, row_b: Ghost<int>, col_b: Ghost<int>) -> (r: Fx)
    requires
        0 <= row_b@ <= FACTOR_LIMIT,
        0 <= col_b@ <= FACTOR_LIMIT,
        -row_b@ <= a.v() <= row_b@ && -row_b@ <= b.v() <= row_b@ && -row_b@ <= c.v() <= row_b@,
        -col_b@ <= x.v() <= col_b@ && -col_b@ <= y.v() <= col_b@ && -col_b@ <= z.v() <= col_b@,
    ensures
        r.v() == fmul(a.v(), x.v()) + fmul(b.v(), y.v()) + fmul(c.v(), z.v()),
        -(3 * ((row_b@ * col_b@) / (SCALE as int))) <= r.v()
            <= 3 * ((row_b@ * col_b@) / (SCALE as int)),
{
    proof {
        lemma_fmul_bound(a.v(), x.v(), row_b@, col_b@);
        lemma_fmul_bound(b.v(), y.v(), row_b@, col_b@);
        lemma_fmul_bound(c.v(), z.v(), row_b@, col_b@);
        assert(row_b@ * col_b@ <= FACTOR_LIMIT * FACTOR_LIMIT) by (nonlinear_arith)
            requires
                0 <= row_b@ <= FACTOR_LIMIT,
                0 <= col_b@ <= FACTOR_LIMIT,
        ;
        crate::fx::lemma_tdiv_bound(row_b@ * col_b@, SCALE as int, FACTOR_LIMIT * FACTOR_LIMIT);
    }
    a.mul(x).add(b.mul(y)).add(c.mul(z))
}

/// A 2x2 determinant `p*q - r*s` of transform entries.
fn det2(p: Fx, q: Fx, r: Fx, s: Fx) -> (d: Fx)
    requires
        -MAT_LIMIT <= p.v() <= MAT_LIMIT && -MAT_LIMIT <= q.v() <= MAT_LIMIT,
        -MAT_LIMIT <= r.v() <= MAT_LIMIT && -MAT_LIMIT <= s.v() <= MAT_LIMIT,
    ensures
        d.v() == fmul(p.v(), q.v()) - fmul(r.v(), s.v()),
        -20_000_000_000 <= d.v() <= 20_000_000_000,
{
    proof {
        lemma_fmul_bound(p.v(), q.v(), MAT_LIMIT as int, MAT_LIMIT as int);
        lemma_fmul_bound(r.v(), s.v(), MAT_LIMIT as int, MAT_LIMIT as int);
    }
    p.mul(q).sub(r.mul(s))
}

impl Mat3 {
    /// The identity matrix.
    pub fn identity() -> (r: Mat3)
        ensures
            r == id_mat(),
    {
        let one = Fx { bits: SCALE };
        let zero = Fx { bits: 0 };
        Mat3 {
            m00: one, m01: zero, m02: zero,
            m10: zero, m11: one, m12: zero,
            m20: zero, m21: zero, m22: one,
        }
    }

    /// The product `self * v`.
    pub fn apply(&self, v: &Vec3d) -> (r: Vec3d)
        requires
            mat_within(*self, MAT_LIMIT as int),
            vec_within(*v, WORLD_LIMIT as int),
        ensures
            r == mat_vec_val(*self, *v),
            vec_within(r, LINEAR_LIMIT as int),
            -(LINEAR_LIMIT as int) <= mv_x(*self, *v) <= LINEAR_LIMIT as int,
            -(LINEAR_LIMIT as int) <= mv_y(*self, *v) <= LINEAR_LIMIT as int,
            -(LINEAR_LIMIT as int) <= mv_z(*self, *v) <= LINEAR_LIMIT as int,
    {
        let x = dot3(self.m00, self.m01, self.m02, v.x, v.y, v.z,
            Ghost(MAT_LIMIT as int), Ghost(WORLD_LIMIT as int));
        let y = dot3(self.m10, self.m11, self.m12, v.x, v.y, v.z,
            Ghost(MAT_LIMIT as int), Ghost(WORLD_LIMIT as int));
        let z = dot3(self.m20, self.m21, self.m22, v.x, v.y, v.z,
            Ghost(MAT_LIMIT as int), Ghost(WORLD_LIMIT as int));
        Vec3d { x, y, z }
    }

    /// The product `transpose(self) * v`.
    pub fn tr_apply(&self, v: &Vec3d) -> (r: Vec3d)
        requires
            mat_within(*self, MAT_LIMIT as int),
            vec_within(*v, WORLD_LIMIT as int),
        ensures
            r == mat_tr_vec_val(*self, *v),
            vec_within(r, LINEAR_LIMIT as int),
            -(LINEAR_LIMIT as int) <= mtv_x(*self, *v) <= LINEAR_LIMIT as int,
            -(LINEAR_LIMIT as int) <= mtv_y(*self, *v) <= LINEAR_LIMIT as int,
            -(LINEAR_LIMIT as int) <= mtv_z(*self, *v) <= LINEAR_LIMIT as int,
    {
        let x = dot3(self.m00, self.m10, self.m20, v.x, v.y, v.z,
            Ghost(MAT_LIMIT as int), Ghost(WORLD_LIMIT as int));
        let y = dot3(self.m01, self.m11, self.m21, v.x, v.y, v.z,
            Ghost(MAT_LIMIT as int), Ghost(WORLD_LIMIT as int));
        let z = dot3(self.m02, self.m12, self.m22, v.x, v.y, v.z,
            Ghost(MAT_LIMIT as int), Ghost(WORLD_LIMIT as int));
        Vec3d { x, y, z }
    }

    /// The matrix product `self * o`.
    pub fn mul(&self, o: &Mat3) -> (r: Mat3)
        requires
            mat_within(*self, MAT_LIMIT as int),
            mat_within(*o, MAT_LIMIT as int),
        ensures
            r == mat_mul_val(*self, *o),
            mat_within(r, COMPOSE_LIMIT as int),
    {
        let gb: Ghost<int> = Ghost(MAT_LIMIT as int);
        Mat3 {
            m00: dot3(self.m00, self.m01, self.m02, o.m00, o.m10, o.m20, gb, gb),
            m01: dot3(self.m00, self.m01, self.m02, o.m01, o.m11, o.m21, gb, gb),
            m02: dot3(self.m00, self.m01, self.m02, o.m02, o.m12, o.m22, gb, gb),
            m10: dot3(self.m10, self.m11, self.m12, o.m00, o.m10, o.m20, gb, gb),
            m11: dot3(self.m10, self.m11, self.m12, o.m01, o.m11, o.m21, gb, gb),
            m12: dot3(self.m10, self.m11, self.m12, o.m02, o.m12, o.m22, gb, gb),
            m20: dot3(self.m20, self.m21, self.m22, o.m00, o.m10, o.m20, gb, gb),
            m21: dot3(self.m20, self.m21, self.m22, o.m01, o.m11, o.m21, gb, gb),
            m22: dot3(self.m20, self.m21, self.m22, o.m02, o.m12, o.m22, gb, gb),
        }
    }
}

/// The identity matrix, as a value.
pub open spec fn id_mat() -> Mat3 {
    Mat3 {
        m00: Fx { bits: SCALE }, m01: Fx { bits: 0 }, m02: Fx { bits: 0 },
        m10: Fx { bits: 0 }, m11: Fx { bits: SCALE }, m12: Fx { bits: 0 },
        m20: Fx { bits: 0 }, m21: Fx { bits: 0 }, m22: Fx { bits: SCALE },
    }
}

/// The identity affine map, as a value.
pub open spec fn id_affine() -> Affine {
    Affine { m: id_mat(), t: Vec3d { x: Fx { bits: 0 }, y: Fx { bits: 0 }, z: Fx { bits: 0 } } }
}

impl Affine {
    /// The identity map.
    pub fn identity() -> (r: Affine)
        ensures
            r == id_affine(),
    {
        Affine {
            m: Mat3::identity(),
            t: Vec3d { x: Fx { bits: 0 }, y: Fx { bits: 0 }, z: Fx { bits: 0 } },
        }
    }

    /// The image `self.m * p + self.t` of a point.
    pub fn apply_pt(&self, p: &Point3d) -> (r: Point3d)
        requires
            affine_within(*self, MAT_LIMIT as int),
            pt_within(*p, WORLD_LIMIT as int),
        ensures
            r == aff_pt_val(*self, *p),
            pt_within(r, APPLIED_LIMIT as int),
    {
        let lv = self.m.apply(&p.as_vec());
        Point3d { x: lv.x.add(self.t.x), y: lv.y.add(self.t.y), z: lv.z.add(self.t.z) }
    }

    /// As `apply_pt`, for a point that is itself the image of a
    /// world point under one transform (a local-space point).
    pub fn apply_pt_wide(&self, p: &Point3d) -> (r: Point3d)
        requires
            affine_within(*self, MAT_LIMIT as int),
            pt_within(*p, APPLIED_LIMIT as int),
        ensures
            r == aff_pt_val(*self, *p),
            pt_within(r, WIDE_APPLIED_LIMIT as int),
    {
        let pv = p.as_vec();
        let x = dot3(self.m.m00, self.m.m01, self.m.m02, pv.x, pv.y, pv.z,
            Ghost(MAT_LIMIT as int), Ghost(APPLIED_LIMIT as int));
        let y = dot3(self.m.m10, self.m.m11, self.m.m12, pv.x, pv.y, pv.z,
            Ghost(MAT_LIMIT as int), Ghost(APPLIED_LIMIT as int));
        let z = dot3(self.m.m20, self.m.m21, self.m.m22, pv.x, pv.y, pv.z,
            Ghost(MAT_LIMIT as int), Ghost(APPLIED_LIMIT as int));
        Point3d { x: x.add(self.t.x), y: y.add(self.t.y), z: z.add(self.t.z) }
    }

    /// The image `self.m * v` of a vector (translation does not
    /// act on directions).
    pub fn apply_vec(&self, v: &Vec3d) -> (r: Vec3d)
        requires
            affine_within(*self, MAT_LIMIT as int),
            vec_within(*v, WORLD_LIMIT as int),
        ensures
            r == mat_vec_val(self.m, *v),
            vec_within(r, LINEAR_LIMIT as int),
    {
        self.m.apply(v)
    }

    /// `apply_vec` of the ray's direction and `apply_pt` of its
    /// origin: the ray carried into this map's target frame.
    pub fn apply_ray(&self, r: &crate::ray::Ray) -> (out: crate::ray::Ray)
        requires
            affine_within(*self, MAT_LIMIT as int),
            pt_within(r.origin, WORLD_LIMIT as int),
            vec_within(r.direction, WORLD_LIMIT as int),
        ensures
            out.origin == aff_pt_val(*self, r.origin),
            out.direction == mat_vec_val(self.m, r.direction),
            pt_within(out.origin, APPLIED_LIMIT as int),
            vec_within(out.direction, LINEAR_LIMIT as int),
    {
        crate::ray::Ray { origin: self.apply_pt(&r.origin), direction: self.apply_vec(&r.direction) }
    }

    /// The image `transpose(self.m) * v`, for carrying normals.
    pub fn tr_apply_vec(&self, v: &Vec3d) -> (r: Vec3d)
        requires
            affine_within(*self, MAT_LIMIT as int),
            vec_within(*v, WORLD_LIMIT as int),
        ensures
            r == mat_tr_vec_val(self.m, *v),
            vec_within(r, LINEAR_LIMIT as int),
    {
        self.m.tr_apply(v)
    }

    /// The composition `self after o`.
    pub fn compose(&self, o: &Affine) -> (r: Affine)
        requires
            affine_within(*self, MAT_LIMIT as int),
            affine_within(*o, MAT_LIMIT as int),
        ensures
            r == compose_val(*self, *o),
            affine_within(r, APPLIED_LIMIT as int),
    {
        let m = self.m.mul(&o.m);
        let tv = self.m.apply(&o.t);
        Affine {
            m,
            t: Vec3d {
                x: tv.x.add(self.t.x),
                y: tv.y.add(self.t.y),
                z: tv.z.add(self.t.z),
            },
        }
    }
}

/// A translation by `(x, y, z)`.
pub fn translation(x: Fx, y: Fx, z: Fx) -> (r: Affine)
    ensures
        r == (Affine { m: id_mat(), t: Vec3d { x, y, z } }),
{
    Affine { m: Mat3::identity(), t: Vec3d { x, y, z } }
}

/// A scaling by `(x, y, z)` along the axes.
pub fn scaling(x: Fx, y: Fx, z: Fx) -> (r: Affine)
    ensures
        r.t.x.v() == 0 && r.t.y.v() == 0 && r.t.z.v() == 0,
        r.m.m00 == x && r.m.m11 == y && r.m.m22 == z,
        r.m.m01.v() == 0 && r.m.m02.v() == 0 && r.m.m10.v() == 0,
        r.m.m12.v() == 0 && r.m.m20.v() == 0 && r.m.m21.v() == 0,
{
    let zero = Fx { bits: 0 };
    Affine {
        m: Mat3 {
            m00: x, m01: zero, m02: zero,
            m10: zero, m11: y, m12: zero,
            m20: zero, m21: zero, m22: z,
        },
        t: Vec3d { x: zero, y: zero, z: zero },
    }
}

/// Adjugate entries of a 3x3 matrix, in fixed point.
pub open spec fn adj00(m: Mat3) -> int { fmul(m.m11.v(), m.m22.v()) - fmul(m.m12.v(), m.m21.v()) }
pub open spec fn adj01(m: Mat3) -> int { fmul(m.m02.v(), m.m21.v()) - fmul(m.m01.v(), m.m22.v()) }
pub open spec fn adj02(m: Mat3) -> int { fmul(m.m01.v(), m.m12.v()) - fmul(m.m02.v(), m.m11.v()) }
pub open spec fn adj10(m: Mat3) -> int { fmul(m.m12.v(), m.m20.v()) - fmul(m.m10.v(), m.m22.v()) }
pub open spec fn adj11(m: Mat3) -> int { fmul(m.m00.v(), m.m22.v()) - fmul(m.m02.v(), m.m20.v()) }
pub open spec fn adj12(m: Mat3) -> int { fmul(m.m02.v(), m.m10.v()) - fmul(m.m00.v(), m.m12.v()) }
pub open spec fn adj20(m: Mat3) -> int { fmul(m.m10.v(), m.m21.v()) - fmul(m.m11.v(), m.m20.v()) }
pub open spec fn adj21(m: Mat3) -> int { fmul(m.m01.v(), m.m20.v()) - fmul(m.m00.v(), m.m21.v()) }
pub open spec fn adj22(m: Mat3) -> int { fmul(m.m00.v(), m.m11.v()) - fmul(m.m01.v(), m.m10.v()) }

/// The determinant, expanded along the first row.
pub open spec fn det_val(m: Mat3) -> int {
    fmul(m.m00.v(), adj00(m)) + fmul(m.m01.v(), adj10(m)) + fmul(m.m02.v(), adj20(m))
}

/// The candidate inverse matrix: the adjugate divided by the
/// determinant, entry by entry.
pub open spec fn inv_mat_cand(m: Mat3) -> Mat3 {
    Mat3 {
        m00: Fx { bits: fdiv(adj00(m), det_val(m)) as i128 },
        m01: Fx { bits: fdiv(adj01(m), det_val(m)) as i128 },
        m02: Fx { bits: fdiv(adj02(m), det_val(m)) as i128 },
        m10: Fx { bits: fdiv(adj10(m), det_val(m)) as i128 },
        m11: Fx { bits: fdiv(adj11(m), det_val(m)) as i128 },
        m12: Fx { bits: fdiv(adj12(m), det_val(m)) as i128 },
        m20: Fx { bits: fdiv(adj20(m), det_val(m)) as i128 },
        m21: Fx { bits: fdiv(adj21(m), det_val(m)) as i128 },
        m22: Fx { bits: fdiv(adj22(m), det_val(m)) as i128 },
    }
}

/// The candidate inverse affine map: the inverse linear part, and
/// the translation it sends back to zero.
pub open spec fn inv_cand(a: Affine) -> Affine {
    let im = inv_mat_cand(a.m);
    Affine {
        m: im,
        t: Vec3d {
            x: Fx { bits: (-mv_x(im, a.t)) as i128 },
            y: Fx { bits: (-mv_y(im, a.t)) as i128 },
            z: Fx { bits: (-mv_z(im, a.t)) as i128 },
        },
    }
}

/// The factory accepts `a`: everything is in range, the determinant
/// is nonzero, and the candidate inverse passes the two-sided
/// identity check.
pub open spec fn inv_ok(a: Affine) -> bool {
    &&& affine_within(a, MAT_LIMIT as int)
    &&& det_val(a.m) != 0
    &&& affine_within(inv_cand(a), MAT_LIMIT as int)
    &&& approx_id(compose_val(a, inv_cand(a)))
    &&& approx_id(compose_val(inv_cand(a), a))
}

/// An affine transform paired with its checked inverse.
#[derive(Clone, Copy, Debug)]
pub struct InvertibleTransform {
    fwd: Affine,
    inv: Affine,
}

impl InvertibleTransform {
    /// The forward map.
    pub closed spec fn fwd(self) -> Affine {
        self.fwd
    }

    /// The stored inverse map.
    pub closed spec fn inv(self) -> Affine {
        self.inv
    }

    /// Both maps are in range and compose to the identity within
    /// [`MAT_EPS`], in both orders.
    pub open spec fn wf(self) -> bool {
        &&& affine_within(self.fwd(), MAT_LIMIT as int)
        &&& affine_within(self.inv(), MAT_LIMIT as int)
        &&& approx_id(compose_val(self.fwd(), self.inv()))
        &&& approx_id(compose_val(self.inv(), self.fwd()))
    }

    /// The forward map, for applying the transform.
    pub fn matrix(&self) -> (r: &Affine)
        ensures
            *r == self.fwd(),
    {
        &self.fwd
    }

    /// The precomputed inverse, for mapping back; computed once at
    /// construction.
    pub fn inverse(&self) -> (r: &Affine)
        ensures
            *r == self.inv(),
    {
        &self.inv
    }

    /// The identity transform.
    pub fn identity() -> (r: InvertibleTransform)
        ensures
            r.wf(),
            r.fwd() == id_affine(),
            r.inv() == id_affine(),
    {
        proof {
            lemma_fmul_const(SCALE as int);
            lemma_fmul_const(0);
        }
        InvertibleTransform { fwd: Affine::identity(), inv: Affine::identity() }
    }

    /// Validated factory: computes the inverse by the adjugate
    /// method and accepts the pair only if both compositions are
    /// the identity within [`MAT_EPS`].
    pub fn try_new(a: Affine) -> (r: Result<InvertibleTransform, NonInvertibleTransformError>)
        ensures
            r is Ok <==> inv_ok(a),
            r matches Ok(t) ==> t.fwd() == a && t.inv() == inv_cand(a) && t.wf(),
    {
        if !affine_within_check(&a, MAT_LIMIT) {
            return Err(NonInvertibleTransformError);
        }
        let c00 = det2(a.m.m11, a.m.m22, a.m.m12, a.m.m21);
        let c01 = det2(a.m.m02, a.m.m21, a.m.m01, a.m.m22);
        let c02 = det2(a.m.m01, a.m.m12, a.m.m02, a.m.m11);
        let c10 = det2(a.m.m12, a.m.m20, a.m.m10, a.m.m22);
        let c11 = det2(a.m.m00, a.m.m22, a.m.m02, a.m.m20);
        let c12 = det2(a.m.m02, a.m.m10, a.m.m00, a.m.m12);
        let c20 = det2(a.m.m10, a.m.m21, a.m.m11, a.m.m20);
        let c21 = det2(a.m.m01, a.m.m20, a.m.m00, a.m.m21);
        let c22 = det2(a.m.m00, a.m.m11, a.m.m01, a.m.m10);
        let det = dot3(a.m.m00, a.m.m01, a.m.m02, c00, c10, c20,
            Ghost(MAT_LIMIT as int), Ghost(20_000_000_000int));
        if det.bits == 0 {
            return Err(NonInvertibleTransformError);
        }
        let im = Mat3 {
            m00: c00.div(det), m01: c01.div(det), m02: c02.div(det),
            m10: c10.div(det), m11: c11.div(det), m12: c12.div(det),
            m20: c20.div(det), m21: c21.div(det), m22: c22.div(det),
        };
        proof {
            assert(im == inv_mat_cand(a.m));
        }
        if !mat_within_check(&im, MAT_LIMIT) {
            return Err(NonInvertibleTransformError);
        }
        let nt = im.apply(&a.t).neg();
        let ia = Affine { m: im, t: nt };
        proof {
            assert(ia == inv_cand(a));
        }
        if !(-MAT_LIMIT <= nt.x.bits && nt.x.bits <= MAT_LIMIT
            && -MAT_LIMIT <= nt.y.bits && nt.y.bits <= MAT_LIMIT
            && -MAT_LIMIT <= nt.z.bits && nt.z.bits <= MAT_LIMIT)
        {
            return Err(NonInvertibleTransformError);
        }
        let fwd_inv = a.compose(&ia);
        let inv_fwd = ia.compose(&a);
        if !approx_id_check(&fwd_inv) || !approx_id_check(&inv_fwd) {
            return Err(NonInvertibleTransformError);
        }
        Ok(InvertibleTransform { fwd: a, inv: ia })
    }
}

/// Law: a validated transform composed with its stored inverse is
/// the identity within [`MAT_EPS`], in both orders.
pub proof fn lemma_inverse_round_trip(t: InvertibleTransform)
    requires
        t.wf(),
    ensures
        approx_id(compose_val(t.fwd(), t.inv())),
        approx_id(compose_val(t.inv(), t.fwd())),
{
}

/// Runtime range check matching [`mat_within`].
fn mat_within_check(m: &Mat3, b: i128) -> (r: bool)
    requires
        0 <= b,
    ensures
        r == mat_within(*m, b as int),
{
    -b <= m.m00.bits && m.m00.bits <= b && -b <= m.m01.bits && m.m01.bits <= b
        && -b <= m.m02.bits && m.m02.bits <= b && -b <= m.m10.bits && m.m10.bits <= b
        && -b <= m.m11.bits && m.m11.bits <= b && -b <= m.m12.bits && m.m12.bits <= b
        && -b <= m.m20.bits && m.m20.bits <= b && -b <= m.m21.bits && m.m21.bits <= b
        && -b <= m.m22.bits && m.m22.bits <= b
}

/// Runtime range check matching [`affine_within`].
fn affine_within_check(a: &Affine, b: i128) -> (r: bool)
    requires
        0 <= b,
    ensures
        r == affine_within(*a, b as int),
{
    mat_within_check(&a.m, b) && -b <= a.t.x.bits && a.t.x.bits <= b
        && -b <= a.t.y.bits && a.t.y.bits <= b && -b <= a.t.z.bits && a.t.z.bits <= b
}

/// Runtime identity check matching [`approx_id`].
fn approx_id_check(a: &Affine) -> (r: bool)
    requires
        affine_within(*a, APPLIED_LIMIT as int),
    ensures
        r == approx_id(*a),
{
    -MAT_EPS <= a.m.m00.bits - SCALE && a.m.m00.bits - SCALE <= MAT_EPS
        && -MAT_EPS <= a.m.m11.bits - SCALE && a.m.m11.bits - SCALE <= MAT_EPS
        && -MAT_EPS <= a.m.m22.bits - SCALE && a.m.m22.bits - SCALE <= MAT_EPS
        && -MAT_EPS <= a.m.m01.bits && a.m.m01.bits <= MAT_EPS
        && -MAT_EPS <= a.m.m02.bits && a.m.m02.bits <= MAT_EPS
        && -MAT_EPS <= a.m.m10.bits && a.m.m10.bits <= MAT_EPS
        && -MAT_EPS <= a.m.m12.bits && a.m.m12.bits <= MAT_EPS
        && -MAT_EPS <= a.m.m20.bits && a.m.m20.bits <= MAT_EPS
        && -MAT_EPS <= a.m.m21.bits && a.m.m21.bits <= MAT_EPS
        && -MAT_EPS <= a.t.x.bits && a.t.x.bits <= MAT_EPS
        && -MAT_EPS <= a.t.y.bits && a.t.y.bits <= MAT_EPS
        && -MAT_EPS <= a.t.z.bits && a.t.z.bits <= MAT_EPS
}

} // verus!
