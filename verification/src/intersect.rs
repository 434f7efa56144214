//! Intersection records, hit selection, and the per-hit shading
//! inputs.

use vstd::prelude::*;
use crate::fx::{fmul, lemma_fmul_bound, Fx, CMP_EPS, DIVIDEND_LIMIT, FACTOR_LIMIT};
use crate::object::{mat_of, normal_val, obj_wf, Object};
use crate::ray::{position_val, Ray};
use crate::transform::WORLD_LIMIT;
use crate::tuple::{dot_val, pt_within, vec_neg_val, vec_within, Point3d, Vec3d};
use crate::vector::{norm_cand, norm_ok, DegenerateVectorError, NormalizedVec3d, NORM_LIMIT};

verus! {

/// How far (in millionths) a hit point is nudged along the
/// oriented normal to form `over_point`, so that a shadow query
/// started there does not immediately re-hit the same surface.
pub const SHADOW_BIAS: i128 = 10;

/// One hit of a ray on an object: the ray parameter and the object
/// whose frame resolves its shading.
#[derive(Clone, Copy, Debug)]
pub struct Intersection<'a> {
    pub t: Fx,
    pub object: &'a Object,
}

/// The point nudged along the (oriented) normal by
/// [`SHADOW_BIAS`].
pub open spec fn over_val(p: Point3d, n: Vec3d) -> Point3d {
    Point3d {
        x: Fx { bits: (p.x.v() + fmul(n.x.v(), SHADOW_BIAS as int)) as i128 },
        y: Fx { bits: (p.y.v() + fmul(n.y.v(), SHADOW_BIAS as int)) as i128 },
        z: Fx { bits: (p.z.v() + fmul(n.z.v(), SHADOW_BIAS as int)) as i128 },
    }
}

/// The shading inputs derived once per hit: the world point, the
/// eye vector (back toward the ray origin), the normal re-oriented
/// to face the eye, whether the ray started inside the object, and
/// the shadow-biased `over_point`.
#[derive(Clone, Copy, Debug)]
pub struct Precomputation<'a> {
    pub t: Fx,
    pub object: &'a Object,
    pub point: Point3d,
    pub eye_v: NormalizedVec3d,
    pub normal_v: NormalizedVec3d,
    pub inside: bool,
    pub over_point: Point3d,
}

impl<'a> Intersection<'a> {
    pub fn new(t: Fx, object: &'a Object) -> (r: Intersection<'a>)
        ensures
            r.t == t,
            r.object == object,
    {
        Intersection { t, object }
    }

    pub fn t(&self) -> (r: Fx)
        ensures
            r == self.t,
    {
        self.t
    }

    pub fn object(&self) -> (r: &'a Object)
        ensures
            r == self.object,
    {
        self.object
    }

    /// Derive the shading inputs for this hit of `ray`. Fails only
    /// when the hit point leaves the library's coordinate range or
    /// a normalization fails (a pathological transform).
    pub fn prepare_computations(&self, ray: &Ray) -> (r: Result<
        Precomputation<'a>,
        DegenerateVectorError,
    >)
        requires
            obj_wf(*self.object),
            pt_within(ray.origin, DIVIDEND_LIMIT as int),
            vec_within(ray.direction, NORM_LIMIT as int),
            -FACTOR_LIMIT <= self.t.v() <= FACTOR_LIMIT,
        ensures
            r is Ok <==> (pt_within(position_val(*ray, self.t.v()), WORLD_LIMIT as int)
                && norm_ok(vec_neg_val(ray.direction))
                && normal_val(*self.object, position_val(*ray, self.t.v())) is Some),
            r matches Ok(c) ==> c.t == self.t && c.object == self.object,
            r matches Ok(c) ==> c.point == position_val(*ray, self.t.v()),
            r matches Ok(c) ==> c.eye_v.v3() == norm_cand(vec_neg_val(ray.direction)),
            r matches Ok(c) ==> (c.inside <==> dot_val(
                normal_val(*self.object, position_val(*ray, self.t.v()))->0,
                norm_cand(vec_neg_val(ray.direction)),
            ) < 0),
            r matches Ok(c) ==> c.normal_v.v3() == (if dot_val(
                normal_val(*self.object, position_val(*ray, self.t.v()))->0,
                norm_cand(vec_neg_val(ray.direction)),
            ) < 0 {
                vec_neg_val(normal_val(*self.object, position_val(*ray, self.t.v()))->0)
            } else {
                normal_val(*self.object, position_val(*ray, self.t.v()))->0
            }),
            r matches Ok(c) ==> c.over_point == over_val(c.point, c.normal_v.v3()),
            r matches Ok(c) ==> c.eye_v.wf() && c.normal_v.wf(),
    {
        let point = ray.position(self.t);
        let in_range = -WORLD_LIMIT <= point.x.bits && point.x.bits <= WORLD_LIMIT
            && -WORLD_LIMIT <= point.y.bits && point.y.bits <= WORLD_LIMIT
            && -WORLD_LIMIT <= point.z.bits && point.z.bits <= WORLD_LIMIT;
        if !in_range {
            return Err(DegenerateVectorError);
        }
        let eye_v = match NormalizedVec3d::try_from(ray.direction.neg()) {
            Ok(n) => n,
            Err(e) => {
                return Err(e);
            },
        };
        let nv = match self.object.normal_at(&point) {
            Ok(n) => n,
            Err(e) => {
                return Err(e);
            },
        };
        let nde = nv.dot(&eye_v);
        let (normal_v, inside) = if nde.bits < 0 {
            (nv.neg(), true)
        } else {
            (nv, false)
        };
        let nvec = normal_v.as_vec();
        proof {
            lemma_fmul_bound(nvec.x.v(), SHADOW_BIAS as int, crate::vector::COMP_LIMIT as int, SHADOW_BIAS as int);
            lemma_fmul_bound(nvec.y.v(), SHADOW_BIAS as int, crate::vector::COMP_LIMIT as int, SHADOW_BIAS as int);
            lemma_fmul_bound(nvec.z.v(), SHADOW_BIAS as int, crate::vector::COMP_LIMIT as int, SHADOW_BIAS as int);
        }
        let over_point = point.add_vec(&nvec.scale(Fx { bits: SHADOW_BIAS }));
        Ok(Precomputation {
            t: self.t,
            object: self.object,
            point,
            eye_v,
            normal_v,
            inside,
            over_point,
        })
    }
}

impl<'a> PartialEq for Intersection<'a> {
    /// Tolerant parameter equality plus object identity (the
    /// material's stable identifier).
    fn eq(&self, o: &Intersection<'a>) -> (r: bool) {
        let close = match self.t.bits.checked_sub(o.t.bits) {
            Option::Some(d) => -CMP_EPS <= d && d <= CMP_EPS,
            Option::None => false,
        };
        close && self.object.material().id == o.object.material().id
    }
}

impl<'a> vstd::std_specs::cmp::PartialEqSpecImpl for Intersection<'a> {
    open spec fn obeys_eq_spec() -> bool {
        true
    }

    open spec fn eq_spec(&self, o: &Intersection<'a>) -> bool {
        &&& -CMP_EPS <= self.t.v() - o.t.v() <= CMP_EPS
        &&& mat_of(*self.object).id == mat_of(*o.object).id
    }
}

/// The hit among a list of intersections: the first one with the
/// least non-negative `t`; none when every `t` is negative.
pub fn hit<'a, 'b>(intersections: &'a [Intersection<'b>]) -> (r: Option<&'a Intersection<'b>>)
    ensures
        r is Some <==> exists|i: int|
            0 <= i < intersections@.len() && intersections@[i].t.v() >= 0,
        r matches Some(x) ==> exists|i: int|
            0 <= i < intersections@.len() && *x == intersections@[i],
        r matches Some(x) ==> (*x).t.v() >= 0,
        r matches Some(x) ==> forall|j: int|
            0 <= j < intersections@.len() && intersections@[j].t.v() >= 0
                ==> (*x).t.v() <= intersections@[j].t.v(),
        r matches Some(x) ==> exists|i: int| {
            &&& 0 <= i < intersections@.len()
            &&& *x == intersections@[i]
            &&& forall|j: int| 0 <= j < i && intersections@[j].t.v() >= 0
                ==> intersections@[j].t.v() > intersections@[i].t.v()
        },
{
    let mut best: Option<usize> = Option::None;
    let mut i: usize = 0;
    while i < intersections.len()
        invariant
            0 <= i <= intersections@.len(),
            best is Some ==> {
                let k = best->0 as int;
                &&& 0 <= k < i as int
                &&& intersections@[k].t.v() >= 0
                &&& forall|j: int| 0 <= j < i as int && intersections@[j].t.v() >= 0
                    ==> intersections@[k].t.v() <= intersections@[j].t.v()
                &&& forall|j: int| 0 <= j < k && intersections@[j].t.v() >= 0
                    ==> intersections@[j].t.v() > intersections@[k].t.v()
            },
            best is None ==> forall|j: int| 0 <= j < i as int ==> intersections@[j].t.v() < 0,
        decreases intersections@.len() - i,
    {
        let c = intersections[i];
        if c.t.bits >= 0 {
            match best {
                Option::None => {
                    best = Option::Some(i);
                },
                Option::Some(k) => {
                    if c.t.bits < intersections[k].t.bits {
                        best = Option::Some(i);
                    }
                },
            }
        }
        i = i + 1;
    }
    match best {
        Option::Some(k) => Option::Some(&intersections[k]),
        Option::None => Option::None,
    }
}

} // verus!
