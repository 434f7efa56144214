//! Points and vectors in three dimensions.
//!
//! A point and a vector are kept apart: subtracting two points gives
//! a vector, adding a vector to a point gives a point, and only
//! vectors have dot products. Every operation states its exact
//! fixed-point result.

use vstd::prelude::*;
use crate::fx::{fmul, lemma_fmul_bound, Fx, FACTOR_LIMIT, SCALE};

verus! {

/// A location in space.
#[derive(Clone, Copy, Debug, PartialEq, Eq, Structural)]
pub struct Point3d {
    pub x: Fx,
    pub y: Fx,
    pub z: Fx,
}

/// A displacement in space.
#[derive(Clone, Copy, Debug, PartialEq, Eq, Structural)]
pub struct Vec3d {
    pub x: Fx,
    pub y: Fx,
    pub z: Fx,
}

/// All three components of a vector are within `m` units.
pub open spec fn vec_within(v: Vec3d, m: int) -> bool {
    &&& -m <= v.x.v() <= m
    &&& -m <= v.y.v() <= m
    &&& -m <= v.z.v() <= m
}

/// All three coordinates of a point are within `m` units.
pub open spec fn pt_within(p: Point3d, m: int) -> bool {
    &&& -m <= p.x.v() <= m
    &&& -m <= p.y.v() <= m
    &&& -m <= p.z.v() <= m
}

/// The point read as a displacement from the origin.
pub open spec fn pt_vec(p: Point3d) -> Vec3d {
    Vec3d { x: p.x, y: p.y, z: p.z }
}

/// The componentwise negation of a vector.
pub open spec fn vec_neg_val(v: Vec3d) -> Vec3d {
    Vec3d {
        x: Fx { bits: (-v.x.v()) as i128 },
        y: Fx { bits: (-v.y.v()) as i128 },
        z: Fx { bits: (-v.z.v()) as i128 },
    }
}

/// The fixed-point dot product of two vectors.
pub open spec fn dot_val(a: Vec3d, b: Vec3d) -> int {
    fmul(a.x.v(), b.x.v()) + fmul(a.y.v(), b.y.v()) + fmul(a.z.v(), b.z.v())
}

/// Bounded components give a bounded dot product.
pub proof fn lemma_dot_bound(a: Vec3d, b: Vec3d, am: int, bm: int)
    requires
        vec_within(a, am),
        vec_within(b, bm),
    ensures
        -3 * ((am * bm) / (SCALE as int)) <= dot_val(a, b) <= 3 * ((am * bm) / (SCALE as int)),
{
    lemma_fmul_bound(a.x.v(), b.x.v(), am, bm);
    lemma_fmul_bound(a.y.v(), b.y.v(), am, bm);
    lemma_fmul_bound(a.z.v(), b.z.v(), am, bm);
}

impl Point3d {
    pub fn new(x: Fx, y: Fx, z: Fx) -> (r: Point3d)
        ensures
            r == (Point3d { x, y, z }),
    {
        Point3d { x, y, z }
    }

    pub fn x(&self) -> (r: Fx)
        ensures
            r == self.x,
    {
        self.x
    }

    pub fn y(&self) -> (r: Fx)
        ensures
            r == self.y,
    {
        self.y
    }

    pub fn z(&self) -> (r: Fx)
        ensures
            r == self.z,
    {
        self.z
    }

    /// Exact difference of two points: the displacement from `o` to
    /// `self`.
    pub fn sub(&self, o: &Point3d) -> (r: Vec3d)
        requires
            i128::MIN <= self.x.v() - o.x.v() <= i128::MAX,
            i128::MIN <= self.y.v() - o.y.v() <= i128::MAX,
            i128::MIN <= self.z.v() - o.z.v() <= i128::MAX,
        ensures
            r.x.v() == self.x.v() - o.x.v(),
            r.y.v() == self.y.v() - o.y.v(),
            r.z.v() == self.z.v() - o.z.v(),
    {
        Vec3d { x: self.x.sub(o.x), y: self.y.sub(o.y), z: self.z.sub(o.z) }
    }

    /// Exact translation of a point by a vector.
    pub fn add_vec(&self, v: &Vec3d) -> (r: Point3d)
        requires
            i128::MIN <= self.x.v() + v.x.v() <= i128::MAX,
            i128::MIN <= self.y.v() + v.y.v() <= i128::MAX,
            i128::MIN <= self.z.v() + v.z.v() <= i128::MAX,
        ensures
            r.x.v() == self.x.v() + v.x.v(),
            r.y.v() == self.y.v() + v.y.v(),
            r.z.v() == self.z.v() + v.z.v(),
    {
        Point3d { x: self.x.add(v.x), y: self.y.add(v.y), z: self.z.add(v.z) }
    }

    /// The point as a displacement from the origin.
    pub fn as_vec(&self) -> (r: Vec3d)
        ensures
            r == pt_vec(*self),
    {
        Vec3d { x: self.x, y: self.y, z: self.z }
    }
}

impl Vec3d {
    pub fn new(x: Fx, y: Fx, z: Fx) -> (r: Vec3d)
        ensures
            r == (Vec3d { x, y, z }),
    {
        Vec3d { x, y, z }
    }

    pub fn x(&self) -> (r: Fx)
        ensures
            r == self.x,
    {
        self.x
    }

    pub fn y(&self) -> (r: Fx)
        ensures
            r == self.y,
    {
        self.y
    }

    pub fn z(&self) -> (r: Fx)
        ensures
            r == self.z,
    {
        self.z
    }

    /// Exact vector sum.
    pub fn add(&self, o: &Vec3d) -> (r: Vec3d)
        requires
            i128::MIN <= self.x.v() + o.x.v() <= i128::MAX,
            i128::MIN <= self.y.v() + o.y.v() <= i128::MAX,
            i128::MIN <= self.z.v() + o.z.v() <= i128::MAX,
        ensures
            r.x.v() == self.x.v() + o.x.v(),
            r.y.v() == self.y.v() + o.y.v(),
            r.z.v() == self.z.v() + o.z.v(),
    {
        Vec3d { x: self.x.add(o.x), y: self.y.add(o.y), z: self.z.add(o.z) }
    }

    /// Exact vector difference.
    pub fn sub(&self, o: &Vec3d) -> (r: Vec3d)
        requires
            i128::MIN <= self.x.v() - o.x.v() <= i128::MAX,
            i128::MIN <= self.y.v() - o.y.v() <= i128::MAX,
            i128::MIN <= self.z.v() - o.z.v() <= i128::MAX,
        ensures
            r.x.v() == self.x.v() - o.x.v(),
            r.y.v() == self.y.v() - o.y.v(),
            r.z.v() == self.z.v() - o.z.v(),
    {
        Vec3d { x: self.x.sub(o.x), y: self.y.sub(o.y), z: self.z.sub(o.z) }
    }

    /// Exact negation.
    pub fn neg(&self) -> (r: Vec3d)
        requires
            self.x.v() != i128::MIN,
            self.y.v() != i128::MIN,
            self.z.v() != i128::MIN,
        ensures
            r.x.v() == -self.x.v(),
            r.y.v() == -self.y.v(),
            r.z.v() == -self.z.v(),
    {
        Vec3d { x: self.x.neg(), y: self.y.neg(), z: self.z.neg() }
    }

    /// Componentwise scaling by a scalar, truncating.
    pub fn scale(&self, s: Fx) -> (r: Vec3d)
        requires
            vec_within(*self, FACTOR_LIMIT as int),
            -FACTOR_LIMIT <= s.v() <= FACTOR_LIMIT,
        ensures
            r.x.v() == fmul(self.x.v(), s.v()),
            r.y.v() == fmul(self.y.v(), s.v()),
            r.z.v() == fmul(self.z.v(), s.v()),
    {
        Vec3d { x: self.x.mul(s), y: self.y.mul(s), z: self.z.mul(s) }
    }

    /// Dot product, each term truncating.
    pub fn dot(&self, o: &Vec3d) -> (r: Fx)
        requires
            vec_within(*self, FACTOR_LIMIT as int),
            vec_within(*o, FACTOR_LIMIT as int),
        ensures
            r.v() == dot_val(*self, *o),
    {
        proof {
            lemma_dot_bound(*self, *o, FACTOR_LIMIT as int, FACTOR_LIMIT as int);
            lemma_fmul_bound(self.x.v(), o.x.v(), FACTOR_LIMIT as int, FACTOR_LIMIT as int);
            lemma_fmul_bound(self.y.v(), o.y.v(), FACTOR_LIMIT as int, FACTOR_LIMIT as int);
            lemma_fmul_bound(self.z.v(), o.z.v(), FACTOR_LIMIT as int, FACTOR_LIMIT as int);
        }
        self.x.mul(o.x).add(self.y.mul(o.y)).add(self.z.mul(o.z))
    }
}

} // verus!
