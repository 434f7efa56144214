//! Unit vectors.
//!
//! A [`NormalizedVec3d`] wraps a vector whose squared length is 1
//! within [`UNIT_EPS`] millionths. It is only produced by the
//! validated factory [`NormalizedVec3d::try_from`], which rejects a
//! near-zero input (normalization is undefined there) and any input
//! whose rescaled candidate fails the unit-length check, with a
//! [`DegenerateVectorError`].

use vstd::prelude::*;
use crate::fx::{fdiv, fmul, lemma_fmul_bound, sqrt_val, Fx, DIVIDEND_LIMIT, FACTOR_LIMIT, SCALE};
use crate::tuple::{dot_val, lemma_dot_bound, vec_within, Vec3d};

verus! {

/// Tolerance (in millionths) on the squared length of a unit vector.
pub const UNIT_EPS: i128 = 1_000;

/// Largest component magnitude a unit vector may have (2.0).
pub const COMP_LIMIT: i128 = 2_000_000;

/// Largest component magnitude accepted by the normalizing factory.
pub const NORM_LIMIT: i128 = 5_000_000_000_000_000_000;

/// Largest component magnitude accepted by [`reflect`].
pub const REFLECT_LIMIT: i128 = 1_000_000_000_000_000_000;

/// Normalizing a near-zero (or otherwise degenerate) vector was
/// asked for.
#[derive(Clone, Copy, Debug, PartialEq, Eq, Structural)]
pub struct DegenerateVectorError;

/// The squared length of a vector, in millionths.
pub open spec fn sq_len(v: Vec3d) -> int {
    dot_val(v, v)
}

/// The length of a vector, in millionths (rounded down).
pub open spec fn norm_len(v: Vec3d) -> int {
    sqrt_val((sq_len(v) * SCALE) as nat) as int
}

/// The candidate unit vector: each component divided by the length.
pub open spec fn norm_cand(v: Vec3d) -> Vec3d {
    Vec3d {
        x: Fx { bits: fdiv(v.x.v(), norm_len(v)) as i128 },
        y: Fx { bits: fdiv(v.y.v(), norm_len(v)) as i128 },
        z: Fx { bits: fdiv(v.z.v(), norm_len(v)) as i128 },
    }
}

/// A vector counts as a unit vector when its components are small
/// and its squared length is 1 within [`UNIT_EPS`].
pub open spec fn unit_wf(v: Vec3d) -> bool {
    &&& vec_within(v, COMP_LIMIT as int)
    &&& -UNIT_EPS <= sq_len(v) - SCALE <= UNIT_EPS
}

/// Normalization succeeds: the input is not near zero and the
/// candidate passes the unit-length check.
pub open spec fn norm_ok(v: Vec3d) -> bool {
    &&& sq_len(v) > 0
    &&& norm_len(v) > 0
    &&& unit_wf(norm_cand(v))
}

/// A vector of length 1 (within tolerance), only ever built by the
/// validated factory.
#[derive(Clone, Copy, Debug, PartialEq, Eq, Structural)]
pub struct NormalizedVec3d {
    v: Vec3d,
}

impl NormalizedVec3d {
    /// The wrapped vector.
    pub closed spec fn v3(self) -> Vec3d {
        self.v
    }

    /// Every value of this type built by its factory satisfies the
    /// unit invariant.
    pub open spec fn wf(self) -> bool {
        unit_wf(self.v3())
    }

    /// Validated factory: rescales `v` to unit length, or reports
    /// the input as degenerate.
    pub fn try_from(v: Vec3d) -> (r: Result<NormalizedVec3d, DegenerateVectorError>)
        requires
            vec_within(v, NORM_LIMIT as int),
        ensures
            r is Ok <==> norm_ok(v),
            r is Ok ==> r->Ok_0.v3() == norm_cand(v) && r->Ok_0.wf(),
    {
        let d = v.dot(&v);
        proof {
            lemma_dot_bound(v, v, NORM_LIMIT as int, NORM_LIMIT as int);
        }
        if d.bits <= 0 {
            return Err(DegenerateVectorError);
        }
        let l = d.sqrt();
        if l.bits <= 0 {
            return Err(DegenerateVectorError);
        }
        let c = Vec3d { x: v.x.div(l), y: v.y.div(l), z: v.z.div(l) };
        let within = -COMP_LIMIT <= c.x.bits && c.x.bits <= COMP_LIMIT
            && -COMP_LIMIT <= c.y.bits && c.y.bits <= COMP_LIMIT
            && -COMP_LIMIT <= c.z.bits && c.z.bits <= COMP_LIMIT;
        if !within {
            return Err(DegenerateVectorError);
        }
        let dd = c.dot(&c);
        proof {
            assert(c == norm_cand(v));
            lemma_dot_bound(c, c, COMP_LIMIT as int, COMP_LIMIT as int);
        }
        if -UNIT_EPS <= dd.bits - SCALE && dd.bits - SCALE <= UNIT_EPS {
            Ok(NormalizedVec3d { v: c })
        } else {
            Err(DegenerateVectorError)
        }
    }

    /// Validated factory from components.
    pub fn new(x: Fx, y: Fx, z: Fx) -> (r: Result<NormalizedVec3d, DegenerateVectorError>)
        requires
            -NORM_LIMIT <= x.v() <= NORM_LIMIT,
            -NORM_LIMIT <= y.v() <= NORM_LIMIT,
            -NORM_LIMIT <= z.v() <= NORM_LIMIT,
        ensures
            r is Ok <==> norm_ok(Vec3d { x, y, z }),
            r is Ok ==> r->Ok_0.v3() == norm_cand(Vec3d { x, y, z }) && r->Ok_0.wf(),
    {
        NormalizedVec3d::try_from(Vec3d { x, y, z })
    }

    /// The wrapped vector, for callers that need plain components.
    pub fn as_vec(&self) -> (r: Vec3d)
        ensures
            r == self.v3(),
    {
        self.v
    }

    /// Negation: an exactly opposite unit vector.
    pub fn neg(&self) -> (r: NormalizedVec3d)
        requires
            self.wf(),
        ensures
            r.wf(),
            r.v3().x.v() == -self.v3().x.v(),
            r.v3().y.v() == -self.v3().y.v(),
            r.v3().z.v() == -self.v3().z.v(),
    {
        let n = self.v.neg();
        proof {
            lemma_dot_neg(self.v, n);
        }
        NormalizedVec3d { v: n }
    }

    /// Dot product of two unit vectors.
    pub fn dot(&self, o: &NormalizedVec3d) -> (r: Fx)
        requires
            self.wf(),
            o.wf(),
        ensures
            r.v() == dot_val(self.v3(), o.v3()),
    {
        self.v.dot(&o.v)
    }
}

/// Negating every component leaves the squared length unchanged.
proof fn lemma_dot_neg(a: Vec3d, n: Vec3d)
    requires
        n.x.v() == -a.x.v(),
        n.y.v() == -a.y.v(),
        n.z.v() == -a.z.v(),
    ensures
        dot_val(n, n) == dot_val(a, a),
{
    assert(n.x.v() * n.x.v() == a.x.v() * a.x.v()) by (nonlinear_arith)
        requires n.x.v() == -a.x.v();
    assert(n.y.v() * n.y.v() == a.y.v() * a.y.v()) by (nonlinear_arith)
        requires n.y.v() == -a.y.v();
    assert(n.z.v() * n.z.v() == a.z.v() * a.z.v()) by (nonlinear_arith)
        requires n.z.v() == -a.z.v();
}

/// Reflection of a vector about a unit normal:
/// `v - n * (2 * dot(v, n))`. The result is a plain vector; it is
/// not revalidated.
pub fn reflect(v: &Vec3d, n: &NormalizedVec3d) -> (r: Vec3d)
    requires
        n.wf(),
        vec_within(*v, REFLECT_LIMIT as int),
    ensures
        r == reflect_val(*v, n.v3()),
{
    let nv = n.as_vec();
    let d = v.dot(&nv);
    proof {
        lemma_dot_bound(*v, n.v3(), REFLECT_LIMIT as int, COMP_LIMIT as int);
    }
    let d2 = d.add(d);
    let scaled = nv.scale(d2);
    proof {
        let dm = 2 * (3 * ((REFLECT_LIMIT as int * COMP_LIMIT as int) / (SCALE as int)));
        lemma_fmul_bound(nv.x.v(), d2.v(), COMP_LIMIT as int, dm);
        lemma_fmul_bound(nv.y.v(), d2.v(), COMP_LIMIT as int, dm);
        lemma_fmul_bound(nv.z.v(), d2.v(), COMP_LIMIT as int, dm);
    }
    v.sub(&scaled)
}

/// The exact fixed-point reflection formula.
pub open spec fn reflect_val(v: Vec3d, n: Vec3d) -> Vec3d {
    let d2 = 2 * dot_val(v, n);
    Vec3d {
        x: Fx { bits: (v.x.v() - fmul(n.x.v(), d2)) as i128 },
        y: Fx { bits: (v.y.v() - fmul(n.y.v(), d2)) as i128 },
        z: Fx { bits: (v.z.v() - fmul(n.z.v(), d2)) as i128 },
    }
}

} // verus!
