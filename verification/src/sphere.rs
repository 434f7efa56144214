//! The canonical unit sphere, centered at the local origin.

use vstd::prelude::*;
use crate::fx::{
    fdiv, fmul, lemma_fmul_bound, lemma_sqrt_val_le, lemma_tdiv_le, sqrt_val, Fx, SCALE,
};
use crate::ray::Ray;
use crate::tuple::{dot_val, lemma_dot_bound, pt_vec, pt_within, vec_within};

verus! {

/// Largest coordinate magnitude (in millionths) a local-space ray
/// may have: the quadratic below then stays within `i128`.
pub const LOCAL_LIMIT: i128 = 1_000_000_000_000;

/// Quadratic coefficient `a = D . D` of the unit-sphere equation.
pub open spec fn sphere_a(r: Ray) -> int {
    dot_val(r.direction, r.direction)
}

/// Quadratic coefficient `b = 2 (D . O)`, `O` the origin relative
/// to the center.
pub open spec fn sphere_b(r: Ray) -> int {
    2 * dot_val(r.direction, pt_vec(r.origin))
}

/// Quadratic coefficient `c = O . O - 1`.
pub open spec fn sphere_c(r: Ray) -> int {
    dot_val(pt_vec(r.origin), pt_vec(r.origin)) - SCALE
}

/// The discriminant `b^2 - 4 a c`, in fixed point.
pub open spec fn sphere_disc(r: Ray) -> int {
    fmul(sphere_b(r), sphere_b(r)) - 4 * fmul(sphere_a(r), sphere_c(r))
}

/// The smaller root `(-b - sqrt(disc)) / (2 a)`.
pub open spec fn sphere_root_lo(r: Ray) -> int {
    fdiv(-sphere_b(r) - sqrt_val((sphere_disc(r) * SCALE) as nat), 2 * sphere_a(r))
}

/// The larger root `(-b + sqrt(disc)) / (2 a)`.
pub open spec fn sphere_root_hi(r: Ray) -> int {
    fdiv(-sphere_b(r) + sqrt_val((sphere_disc(r) * SCALE) as nat), 2 * sphere_a(r))
}

/// Law: a tangent ray — one whose discriminant is exactly zero —
/// has one repeated root: both reported roots coincide.
pub proof fn lemma_tangent_repeated_root(r: Ray)
    requires
        sphere_disc(r) == 0,
    ensures
        sphere_root_lo(r) == sphere_root_hi(r),
{
    assert(sqrt_val(0) == 0);
}

/// The unit sphere.
pub struct Sphere();

impl Sphere {
    pub fn new() -> (r: Sphere) {
        Sphere()
    }

    /// Both roots of the ray/sphere equation, ascending; `None`
    /// exactly when the discriminant is negative (the ray misses).
    pub fn intersect(&self, r: &Ray) -> (res: Option<(Fx, Fx)>)
        requires
            pt_within(r.origin, LOCAL_LIMIT as int),
            vec_within(r.direction, LOCAL_LIMIT as int),
            sphere_a(*r) > 0,
        ensures
            res is Some <==> sphere_disc(*r) >= 0,
            res matches Some(p) ==> p.0.v() == sphere_root_lo(*r),
            res matches Some(p) ==> p.1.v() == sphere_root_hi(*r),
            res matches Some(p) ==> p.0.v() <= p.1.v(),
    {
        proof {
            lemma_dot_bound(r.direction, r.direction, LOCAL_LIMIT as int, LOCAL_LIMIT as int);
            lemma_dot_bound(r.direction, pt_vec(r.origin), LOCAL_LIMIT as int, LOCAL_LIMIT as int);
            lemma_dot_bound(pt_vec(r.origin), pt_vec(r.origin), LOCAL_LIMIT as int, LOCAL_LIMIT as int);
        }
        let oc = r.origin.as_vec();
        let a = r.direction.dot(&r.direction);
        let half = r.direction.dot(&oc);
        let b = half.add(half);
        let c = oc.dot(&oc).sub(Fx::one());
        proof {
            lemma_fmul_bound(b.v(), b.v(), 6_000_000_000_000_000_000int, 6_000_000_000_000_000_000int);
            lemma_fmul_bound(a.v(), c.v(), 3_000_000_000_000_000_000int, 3_000_001_000_000_000_000int);
        }
        let bb = b.mul(b);
        let ac = a.mul(c);
        let ac2 = ac.add(ac);
        let ac4 = ac2.add(ac2);
        let disc = bb.sub(ac4);
        if disc.bits < 0 {
            None
        } else {
            proof {
                lemma_sqrt_val_le(
                    (disc.v() * SCALE) as nat,
                    9_000_000_000_000_000_000nat,
                );
                assert(9_000_000_000_000_000_000nat * 9_000_000_000_000_000_000nat
                    > 80_000_000_000_000_000_000_000_000_000_000_000_000int) by (nonlinear_arith);
            }
            let s = disc.sqrt();
            let nb = b.neg();
            let two_a = a.add(a);
            let lo_num = nb.sub(s);
            let hi_num = nb.add(s);
            let t1 = lo_num.div(two_a);
            let t2 = hi_num.div(two_a);
            proof {
                lemma_tdiv_le(lo_num.v() * SCALE, hi_num.v() * SCALE, two_a.v());
            }
            Some((t1, t2))
        }
    }
}

} // verus!
