//! A self-contained sphere tracer: one primitive, hit within a
//! parameter interval.
//!
//! This is the simpler renderer shape: a sphere whose center may
//! drift between two points over a unit of time, asked for the
//! nearest root inside a caller-given interval. The record carries
//! the hit point, the parameter, and the surface normal oriented
//! against the ray, with which side was struck.

use vstd::prelude::*;
use crate::fx::{fdiv, fmul, lemma_fmul_bound, lemma_sqrt_val_le, sqrt_val, Fx, SCALE};
use crate::ray::{position_val, Ray};
use crate::tuple::{dot_val, lemma_dot_bound, pt_within, vec_within, Point3d, Vec3d};

verus! {

/// Largest coordinate magnitude (in millionths) of rays and
/// centers this tracer accepts.
pub const HIT_COORD_LIMIT: i128 = 100_000_000_000;

/// Largest radius (in millionths) this tracer accepts.
pub const RADIUS_LIMIT: i128 = 1_000_000_000;

/// Largest interval endpoint magnitude (in millionths) this tracer
/// accepts.
pub const HIT_T_LIMIT: i128 = 1_000_000_000_000;

/// Smallest radius (in millionths) this tracer accepts.
pub const MIN_RADIUS: i128 = 10_000;

/// A closed parameter interval.
#[derive(Clone, Copy, Debug, PartialEq, Eq, Structural)]
pub struct Interval {
    pub min: Fx,
    pub max: Fx,
}

impl Interval {
    /// Every parameter from zero up to the tracer's range.
    pub fn nonnegative() -> (r: Interval)
        ensures
            r.min.v() == 0,
            r.max.v() == HIT_T_LIMIT,
    {
        Interval { min: Fx { bits: 0 }, max: Fx { bits: HIT_T_LIMIT } }
    }

    /// Whether `t` lies in the interval, endpoints included.
    pub fn contains(&self, t: Fx) -> (r: bool)
        ensures
            r == (self.min.v() <= t.v() <= self.max.v()),
    {
        self.min.bits <= t.bits && t.bits <= self.max.bits
    }
}

/// Where a sphere's center is: fixed, or drifting from the first
/// point (time 0) to the second (time 1).
pub enum Center {
    Stationary(Point3d),
    Moving(Point3d, Point3d),
}

/// Which side of the surface the ray struck.
#[derive(Clone, Copy, Debug, PartialEq, Eq, Structural)]
pub enum Face {
    Front,
    Back,
}

/// What a hit yields: the point, the normal oriented against the
/// ray, the parameter, and the side struck.
#[derive(Clone, Copy, Debug)]
pub struct HitRecord {
    pub p: Point3d,
    pub normal: Vec3d,
    pub t: Fx,
    pub face: Face,
}

/// A sphere with a (possibly moving) center, a radius, and a
/// material of the caller's choosing.
pub struct Sphere<M> {
    pub center: Center,
    pub radius: Fx,
    pub material: M,
}

/// The center at a moment: a linear interpolation for a moving
/// one.
pub open spec fn center_val(c: Center, time: int) -> Point3d {
    match c {
        Center::Stationary(p) => p,
        Center::Moving(p1, p2) => Point3d {
            x: Fx { bits: (p1.x.v() + fmul(p2.x.v() - p1.x.v(), time)) as i128 },
            y: Fx { bits: (p1.y.v() + fmul(p2.y.v() - p1.y.v(), time)) as i128 },
            z: Fx { bits: (p1.z.v() + fmul(p2.z.v() - p1.z.v(), time)) as i128 },
        },
    }
}

/// The displacement from the center to the ray origin.
pub open spec fn oc_val(r: Ray, ctr: Point3d) -> Vec3d {
    Vec3d {
        x: Fx { bits: (r.origin.x.v() - ctr.x.v()) as i128 },
        y: Fx { bits: (r.origin.y.v() - ctr.y.v()) as i128 },
        z: Fx { bits: (r.origin.z.v() - ctr.z.v()) as i128 },
    }
}

/// The discriminant of the half-b quadratic
/// `half_b^2 - a * (|oc|^2 - radius^2)`.
pub open spec fn hit_disc(r: Ray, ctr: Point3d, radius: int) -> int {
    let oc = oc_val(r, ctr);
    let a = dot_val(r.direction, r.direction);
    let half_b = dot_val(oc, r.direction);
    let c = dot_val(oc, oc) - fmul(radius, radius);
    fmul(half_b, half_b) - fmul(a, c)
}

/// The nearer root of the quadratic.
pub open spec fn hit_root_lo(r: Ray, ctr: Point3d, radius: int) -> int {
    let oc = oc_val(r, ctr);
    let half_b = dot_val(oc, r.direction);
    fdiv(-half_b - sqrt_val((hit_disc(r, ctr, radius) * SCALE) as nat), dot_val(r.direction, r.direction))
}

/// The farther root of the quadratic.
pub open spec fn hit_root_hi(r: Ray, ctr: Point3d, radius: int) -> int {
    let oc = oc_val(r, ctr);
    let half_b = dot_val(oc, r.direction);
    fdiv(-half_b + sqrt_val((hit_disc(r, ctr, radius) * SCALE) as nat), dot_val(r.direction, r.direction))
}

/// The root the tracer reports: the nearer one if the interval
/// holds it, else the farther one if the interval holds that, else
/// none; none at all when the ray misses.
pub open spec fn chosen_root(r: Ray, ctr: Point3d, radius: int, itv: Interval) -> Option<int> {
    if hit_disc(r, ctr, radius) < 0 {
        Option::None
    } else {
        let lo = hit_root_lo(r, ctr, radius);
        let hi = hit_root_hi(r, ctr, radius);
        if itv.min.v() <= lo <= itv.max.v() {
            Option::Some(lo)
        } else if itv.min.v() <= hi <= itv.max.v() {
            Option::Some(hi)
        } else {
            Option::None
        }
    }
}

/// The outward normal at a point of the sphere: the offset from
/// the center, divided by the radius.
pub open spec fn outward_val(p: Point3d, ctr: Point3d, radius: int) -> Vec3d {
    Vec3d {
        x: Fx { bits: fdiv(p.x.v() - ctr.x.v(), radius) as i128 },
        y: Fx { bits: fdiv(p.y.v() - ctr.y.v(), radius) as i128 },
        z: Fx { bits: fdiv(p.z.v() - ctr.z.v(), radius) as i128 },
    }
}

impl<M> Sphere<M> {
    /// The center at `time`.
    pub fn center(&self, time: Fx) -> (r: Point3d)
        requires
            center_within(self.center, HIT_COORD_LIMIT as int),
            0 <= time.v() <= SCALE,
        ensures
            r == center_val(self.center, time.v()),
            pt_within(r, 3 * HIT_COORD_LIMIT as int),
    {
        match &self.center {
            Center::Stationary(p) => *p,
            Center::Moving(p1, p2) => {
                proof {
                    lemma_fmul_bound(p2.x.v() - p1.x.v(), time.v(), 2 * HIT_COORD_LIMIT as int, SCALE as int);
                    lemma_fmul_bound(p2.y.v() - p1.y.v(), time.v(), 2 * HIT_COORD_LIMIT as int, SCALE as int);
                    lemma_fmul_bound(p2.z.v() - p1.z.v(), time.v(), 2 * HIT_COORD_LIMIT as int, SCALE as int);
                }
                let d = p2.sub(p1);
                p1.add_vec(&d.scale(time))
            },
        }
    }

    /// The nearest root within `ray_t`, with the material and the
    /// derived hit record; `None` when the ray misses the sphere
    /// or both roots fall outside the interval.
    pub fn hit(&self, r: &Ray, ray_t: &Interval, time: Fx) -> (res: Option<(&M, HitRecord)>)
        requires
            pt_within(r.origin, HIT_COORD_LIMIT as int),
            vec_within(r.direction, HIT_COORD_LIMIT as int),
            center_within(self.center, HIT_COORD_LIMIT as int),
            0 <= time.v() <= SCALE,
            MIN_RADIUS <= self.radius.v() <= RADIUS_LIMIT,
            -HIT_T_LIMIT <= ray_t.min.v() <= HIT_T_LIMIT,
            -HIT_T_LIMIT <= ray_t.max.v() <= HIT_T_LIMIT,
            dot_val(r.direction, r.direction) > 0,
        ensures
            res is Some <==> chosen_root(
                *r, center_val(self.center, time.v()), self.radius.v(), *ray_t,
            ) is Some,
            res matches Some(pr) ==> {
                let ctr = center_val(self.center, time.v());
                let t = chosen_root(*r, ctr, self.radius.v(), *ray_t)->0;
                let p = position_val(*r, t);
                let outward = outward_val(p, ctr, self.radius.v());
                &&& *pr.0 == self.material
                &&& pr.1.t.v() == t
                &&& pr.1.p == p
                &&& pr.1.face == (if dot_val(r.direction, outward) <= 0 { Face::Front } else { Face::Back })
                &&& pr.1.normal == (if dot_val(r.direction, outward) <= 0 {
                    outward
                } else {
                    crate::tuple::vec_neg_val(outward)
                })
            },
    {
        let ctr = self.center(time);
        let oc = r.origin.sub(&ctr);
        proof {
            lemma_dot_bound(r.direction, r.direction, HIT_COORD_LIMIT as int, HIT_COORD_LIMIT as int);
            lemma_dot_bound(oc, r.direction, 4 * HIT_COORD_LIMIT as int, HIT_COORD_LIMIT as int);
            lemma_dot_bound(oc, oc, 4 * HIT_COORD_LIMIT as int, 4 * HIT_COORD_LIMIT as int);
            lemma_fmul_bound(self.radius.v(), self.radius.v(), RADIUS_LIMIT as int, RADIUS_LIMIT as int);
        }
        let a = r.direction.dot(&r.direction);
        let half_b = oc.dot(&r.direction);
        let c = oc.dot(&oc).sub(self.radius.mul(self.radius));
        proof {
            lemma_fmul_bound(half_b.v(), half_b.v(), 120_000_000_000_000_000int, 120_000_000_000_000_000int);
            lemma_fmul_bound(a.v(), c.v(), 30_000_000_000_000_000int, 500_000_000_000_000_000int);
        }
        let disc = half_b.mul(half_b).sub(a.mul(c));
        if disc.bits < 0 {
            return Option::None;
        }
        proof {
            lemma_sqrt_val_le((disc.v() * SCALE) as nat, 2_000_000_000_000_000_000nat);
            assert(2_000_000_000_000_000_000nat * 2_000_000_000_000_000_000nat
                > 3_000_000_000_000_000_000_000_000_000_000_000_000int) by (nonlinear_arith);
        }
        let s = disc.sqrt();
        let nhb = half_b.neg();
        let r_l = nhb.sub(s).div(a);
        let r_u = nhb.add(s).div(a);
        let root = if ray_t.contains(r_l) {
            Option::Some(r_l)
        } else if ray_t.contains(r_u) {
            Option::Some(r_u)
        } else {
            Option::None
        };
        match root {
            Option::None => Option::None,
            Option::Some(t) => {
                let p = r.position(t);
                proof {
                    lemma_fmul_bound(r.direction.x.v(), t.v(), HIT_COORD_LIMIT as int, HIT_T_LIMIT as int);
                    lemma_fmul_bound(r.direction.y.v(), t.v(), HIT_COORD_LIMIT as int, HIT_T_LIMIT as int);
                    lemma_fmul_bound(r.direction.z.v(), t.v(), HIT_COORD_LIMIT as int, HIT_T_LIMIT as int);
                }
                let pc = p.sub(&ctr);
                let outward = Vec3d {
                    x: pc.x.div(self.radius),
                    y: pc.y.div(self.radius),
                    z: pc.z.div(self.radius),
                };
                proof {
                    let m_scaled = 110_000_000_000_000_000_000_000int;
                    crate::fx::lemma_tdiv_bound(pc.x.v() * SCALE, self.radius.v(), m_scaled);
                    crate::fx::lemma_tdiv_bound(pc.y.v() * SCALE, self.radius.v(), m_scaled);
                    crate::fx::lemma_tdiv_bound(pc.z.v() * SCALE, self.radius.v(), m_scaled);
                    vstd::arithmetic::div_mod::lemma_div_is_ordered_by_denominator(
                        m_scaled, MIN_RADIUS as int, self.radius.v());
                    lemma_dot_bound(
                        r.direction,
                        outward,
                        HIT_COORD_LIMIT as int,
                        11_000_000_000_000_000_000int,
                    );
                }
                let d = r.direction.dot(&outward);
                let (normal, face) = if d.bits <= 0 {
                    (outward, Face::Front)
                } else {
                    (outward.neg(), Face::Back)
                };
                Option::Some((&self.material, HitRecord { p, normal, t, face }))
            },
        }
    }
}

/// Both center points are within `m` millionths on every axis.
pub open spec fn center_within(c: Center, m: int) -> bool {
    match c {
        Center::Stationary(p) => pt_within(p, m),
        Center::Moving(p1, p2) => pt_within(p1, m) && pt_within(p2, m),
    }
}

} // verus!
