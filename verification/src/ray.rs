//! Rays: an origin point and a direction vector.

use vstd::prelude::*;
use crate::fx::{fmul, lemma_fmul_bound, Fx, DIVIDEND_LIMIT, FACTOR_LIMIT};
use crate::tuple::{pt_within, vec_within, Point3d, Vec3d};

verus! {

/// A half-line cast through the scene, parameterized by `t`.
#[derive(Clone, Copy, Debug, PartialEq, Eq, Structural)]
pub struct Ray {
    pub origin: Point3d,
    pub direction: Vec3d,
}

/// The point `origin + t * direction`, with each scaled component
/// truncating.
pub open spec fn position_val(r: Ray, t: int) -> Point3d {
    Point3d {
        x: Fx { bits: (r.origin.x.v() + fmul(r.direction.x.v(), t)) as i128 },
        y: Fx { bits: (r.origin.y.v() + fmul(r.direction.y.v(), t)) as i128 },
        z: Fx { bits: (r.origin.z.v() + fmul(r.direction.z.v(), t)) as i128 },
    }
}

impl Ray {
    pub fn new(origin: Point3d, direction: Vec3d) -> (r: Ray)
        ensures
            r == (Ray { origin, direction }),
    {
        Ray { origin, direction }
    }

    pub fn origin(&self) -> (r: Point3d)
        ensures
            r == self.origin,
    {
        self.origin
    }

    pub fn direction(&self) -> (r: Vec3d)
        ensures
            r == self.direction,
    {
        self.direction
    }

    /// The point reached after traveling `t` along the ray.
    pub fn position(&self, t: Fx) -> (r: Point3d)
        requires
            pt_within(self.origin, DIVIDEND_LIMIT as int),
            vec_within(self.direction, FACTOR_LIMIT as int),
            -FACTOR_LIMIT <= t.v() <= FACTOR_LIMIT,
        ensures
            r == position_val(*self, t.v()),
    {
        proof {
            lemma_fmul_bound(self.direction.x.v(), t.v(), FACTOR_LIMIT as int, FACTOR_LIMIT as int);
            lemma_fmul_bound(self.direction.y.v(), t.v(), FACTOR_LIMIT as int, FACTOR_LIMIT as int);
            lemma_fmul_bound(self.direction.z.v(), t.v(), FACTOR_LIMIT as int, FACTOR_LIMIT as int);
        }
        self.origin.add_vec(&self.direction.scale(t))
    }
}

} // verus!
