//! The scene-object protocol: primitives and decorators.
//!
//! The object set is closed, so the protocol is a tagged union:
//! three canonical primitives (sphere, plane, cube) that own a
//! material and, where it matters, a transform, and the two
//! structural decorators ([`Bounded`](crate::bounded::Bounded) and
//! [`Transformed`](crate::transformed::Transformed)), which wrap an
//! arbitrary child object and compose freely, with themselves and
//! with each other.
//!
//! World-space behavior is derived, never stored: `intersect` maps
//! the ray into object space with the inverse transform and reads
//! the canonical shape there; `normal_at` maps the local normal
//! back through the transpose of the inverse and re-normalizes;
//! `color_at` resolves the surface in object space.

use vstd::prelude::*;
use crate::bounded::{
    bounds_within, slab_hi, slab_hit, slab_lo, Bounds, ExtFx, ExtPoint3d, BOUNDS_LIMIT,
};
use crate::color::Color;
use crate::fx::{fdiv, iabs, Fx, SCALE};
use crate::intersect::Intersection;
use crate::material::{surface_color_val, surface_wf, Material, Surface};
use crate::ray::Ray;
use crate::sphere::{sphere_disc, sphere_root_hi, sphere_root_lo, Sphere as UnitSphere};
use crate::transform::{
    aff_pt_val, mat_tr_vec_val, mat_vec_val, InvertibleTransform, APPLIED_LIMIT, WORLD_LIMIT,
};
use crate::tuple::{dot_val, pt_vec, pt_within, vec_within, Point3d, Vec3d};
use crate::vector::{norm_cand, norm_ok, DegenerateVectorError, NormalizedVec3d};

verus! {

/// A unit sphere placed by a transform, shaded by a material.
#[derive(Debug)]
pub struct Sphere {
    pub material: Material,
    pub transform: InvertibleTransform,
}

impl Sphere {
    /// The untransformed unit sphere with the default material, as
    /// a scene object.
    pub fn unit() -> (r: Object)
        ensures
            r matches Object::Sphere(s) && s.transform.wf() && s.material.id == 0
                && surface_wf(s.material.surface)
                && s.transform.fwd() == crate::transform::id_affine()
                && s.transform.inv() == crate::transform::id_affine(),
    {
        Object::Sphere(Sphere {
            material: Material::with_id(0),
            transform: InvertibleTransform::identity(),
        })
    }
}

/// The plane through the local origin with normal `(0, 1, 0)`.
#[derive(Debug)]
pub struct Plane {
    pub material: Material,
}

/// The axis-aligned cube spanning `[-1, 1]` on each axis, placed
/// by a transform.
#[derive(Debug)]
pub struct Cube {
    pub transform: InvertibleTransform,
    pub material: Material,
}

/// A shape in the scene: a primitive, or a decorated child.
#[derive(Debug)]
pub enum Object {
    Sphere(Sphere),
    Plane(Plane),
    Cube(Cube),
    Bounded(crate::bounded::Bounded),
    Transformed(crate::transformed::Transformed),
}

/// The material an object is shaded with: decorators delegate to
/// their child.
pub open spec fn mat_of(o: Object) -> Material
    decreases o,
{
    match o {
        Object::Sphere(s) => s.material,
        Object::Plane(p) => p.material,
        Object::Cube(c) => c.material,
        Object::Bounded(b) => mat_of(*b.child),
        Object::Transformed(t) => mat_of(*t.child),
    }
}

/// Every transform in the object tree was validated, every
/// pattern's transform too, and stored bounds agree with the
/// child.
pub open spec fn obj_wf(o: Object) -> bool
    decreases o,
{
    match o {
        Object::Sphere(s) => s.transform.wf() && surface_wf(s.material.surface),
        Object::Plane(p) => surface_wf(p.material.surface),
        Object::Cube(c) => c.transform.wf() && surface_wf(c.material.surface),
        Object::Bounded(b) => obj_wf(*b.child) && b.bounds == bounds_val(*b.child)
            && bounds_within(b.bounds, BOUNDS_LIMIT as int),
        Object::Transformed(t) => t.transform.wf() && obj_wf(*t.child),
    }
}

/// The box `[-1, 1]` on every axis.
pub open spec fn unit_box() -> Bounds {
    Bounds {
        minimum: ExtPoint3d {
            x: ExtFx::Finite(Fx { bits: (-SCALE) as i128 }),
            y: ExtFx::Finite(Fx { bits: (-SCALE) as i128 }),
            z: ExtFx::Finite(Fx { bits: (-SCALE) as i128 }),
        },
        maximum: ExtPoint3d {
            x: ExtFx::Finite(Fx { bits: SCALE }),
            y: ExtFx::Finite(Fx { bits: SCALE }),
            z: ExtFx::Finite(Fx { bits: SCALE }),
        },
    }
}

/// The plane's box: unbounded in x and z, a generous finite slab
/// in y so that aggregation along y stays finite.
pub open spec fn plane_box() -> Bounds {
    Bounds {
        minimum: ExtPoint3d {
            x: ExtFx::NegInf,
            y: ExtFx::Finite(Fx { bits: (-100_000_000_000_000) as i128 }),
            z: ExtFx::NegInf,
        },
        maximum: ExtPoint3d {
            x: ExtFx::PosInf,
            y: ExtFx::Finite(Fx { bits: 100_000_000_000_000 }),
            z: ExtFx::PosInf,
        },
    }
}

/// The object-space bounds of a shape. A transformed child's
/// axis-aligned box is not preserved under rotation or shear, so
/// the transformed decorator conservatively reports unbounded
/// bounds: a rejection test over them never wrongly rejects.
pub open spec fn bounds_val(o: Object) -> Bounds
    decreases o,
{
    match o {
        Object::Sphere(_) => unit_box(),
        Object::Plane(_) => plane_box(),
        Object::Cube(_) => unit_box(),
        Object::Bounded(b) => b.bounds,
        Object::Transformed(_) => Bounds {
            minimum: ExtPoint3d { x: ExtFx::NegInf, y: ExtFx::NegInf, z: ExtFx::NegInf },
            maximum: ExtPoint3d { x: ExtFx::PosInf, y: ExtFx::PosInf, z: ExtFx::PosInf },
        },
    }
}

/// A ray carried into an object's local frame by the transform's
/// inverse.
pub open spec fn local_ray_val(tr: InvertibleTransform, r: Ray) -> Ray {
    Ray {
        origin: aff_pt_val(tr.inv(), r.origin),
        direction: mat_vec_val(tr.inv().m, r.direction),
    }
}

/// The parameters and tagged objects of every hit of a ray on a
/// shape, nearest-local first as each primitive reports them.
pub open spec fn intersections_val(o: Object, r: Ray) -> Seq<(int, Object)>
    decreases o,
{
    match o {
        Object::Sphere(s) => {
            let lr = local_ray_val(s.transform, r);
            if dot_val(lr.direction, lr.direction) <= 0 {
                Seq::empty()
            } else if sphere_disc(lr) < 0 {
                Seq::empty()
            } else {
                seq![(sphere_root_lo(lr), o), (sphere_root_hi(lr), o)]
            }
        },
        Object::Plane(_) => {
            if r.direction.y.v() == 0 {
                Seq::empty()
            } else {
                seq![(fdiv(-r.origin.y.v(), r.direction.y.v()), o)]
            }
        },
        Object::Cube(c) => {
            let lr = local_ray_val(c.transform, r);
            let lo = slab_lo(unit_box(), lr);
            let hi = slab_hi(unit_box(), lr);
            if crate::bounded::ext_le(lo, hi) {
                match (lo, hi) {
                    (ExtFx::Finite(a), ExtFx::Finite(b)) => seq![(a.v(), o), (b.v(), o)],
                    _ => Seq::empty(),
                }
            } else {
                Seq::empty()
            }
        },
        Object::Bounded(b) => {
            if slab_hit(b.bounds, r) {
                intersections_val(*b.child, r)
            } else {
                Seq::empty()
            }
        },
        Object::Transformed(t) => {
            let lr = local_ray_val(t.transform, r);
            if !(pt_within(lr.origin, WORLD_LIMIT as int)
                && vec_within(lr.direction, WORLD_LIMIT as int)) {
                Seq::empty()
            } else {
                intersections_val(*t.child, lr).map(|i: int, pr: (int, Object)| (pr.0, o))
            }
        },
    }
}

/// The unit y vector, the plane's constant local normal.
pub open spec fn y_unit_vec() -> Vec3d {
    Vec3d { x: Fx { bits: 0 }, y: Fx { bits: SCALE }, z: Fx { bits: 0 } }
}

/// The cube's local normal direction: the axis of the largest
/// coordinate magnitude (ties resolved x, then y, then z), keeping
/// that coordinate's sign.
pub open spec fn cube_local_normal(lp: Point3d) -> Vec3d {
    let ax = iabs(lp.x.v());
    let ay = iabs(lp.y.v());
    let az = iabs(lp.z.v());
    let m1 = if ax >= ay { ax } else { ay };
    let mc = if m1 >= az { m1 } else { az };
    if mc == ax {
        Vec3d { x: lp.x, y: Fx { bits: 0 }, z: Fx { bits: 0 } }
    } else if mc == ay {
        Vec3d { x: Fx { bits: 0 }, y: lp.y, z: Fx { bits: 0 } }
    } else {
        Vec3d { x: Fx { bits: 0 }, y: Fx { bits: 0 }, z: lp.z }
    }
}

/// A local normal direction carried back to world space through
/// the transpose of the inverse transform (correct under
/// non-uniform scaling), then re-normalized. `None` when either
/// normalization fails.
pub open spec fn mapped_normal_val(tr: InvertibleTransform, ln0: Vec3d) -> Option<Vec3d> {
    if !norm_ok(ln0) {
        Option::None
    } else {
        let wn = mat_tr_vec_val(tr.inv().m, norm_cand(ln0));
        if norm_ok(wn) {
            Option::Some(norm_cand(wn))
        } else {
            Option::None
        }
    }
}

/// The world-space surface normal of a shape at a world point;
/// `None` when a pathological transform makes a normalization or a
/// range check fail.
pub open spec fn normal_val(o: Object, p: Point3d) -> Option<Vec3d>
    decreases o,
{
    match o {
        Object::Sphere(s) => {
            let lp = aff_pt_val(s.transform.inv(), p);
            mapped_normal_val(s.transform, pt_vec(lp))
        },
        Object::Plane(_) => Option::Some(norm_cand(y_unit_vec())),
        Object::Cube(c) => {
            let lp = aff_pt_val(c.transform.inv(), p);
            mapped_normal_val(c.transform, cube_local_normal(lp))
        },
        Object::Bounded(b) => normal_val(*b.child, p),
        Object::Transformed(t) => {
            let lp = aff_pt_val(t.transform.inv(), p);
            if !pt_within(lp, WORLD_LIMIT as int) {
                Option::None
            } else {
                match normal_val(*t.child, lp) {
                    Option::None => Option::None,
                    Option::Some(ln) => {
                        let wn = mat_tr_vec_val(t.transform.inv().m, ln);
                        if norm_ok(wn) {
                            Option::Some(norm_cand(wn))
                        } else {
                            Option::None
                        }
                    },
                }
            }
        },
    }
}

/// The shaded color of a shape at a world point: the point is
/// resolved into the frame the surface lives in, and the surface
/// (pattern or flat color) is sampled there.
pub open spec fn color_val(o: Object, p: Point3d) -> Color
    decreases o,
{
    match o {
        Object::Sphere(s) => surface_color_val(s.material.surface, aff_pt_val(s.transform.inv(), p)),
        Object::Plane(pl) => surface_color_val(pl.material.surface, p),
        Object::Cube(c) => surface_color_val(c.material.surface, aff_pt_val(c.transform.inv(), p)),
        Object::Bounded(b) => color_val(*b.child, p),
        Object::Transformed(t) => surface_color_val(
            mat_of(*t.child).surface,
            aff_pt_val(t.transform.inv(), p),
        ),
    }
}

/// Law: a ray parallel to the plane — its direction has no y
/// component — yields no intersections, whatever its origin
/// height, the coplanar case included.
pub proof fn lemma_plane_parallel_misses(p: Plane, r: Ray)
    requires
        r.direction.y.v() == 0,
    ensures
        intersections_val(Object::Plane(p), r).len() == 0,
{
}

/// A well-formed object's material has a usable surface.
pub proof fn lemma_mat_surface_wf(o: Object)
    requires
        obj_wf(o),
    ensures
        surface_wf(mat_of(o).surface),
    decreases o,
{
    match o {
        Object::Bounded(b) => lemma_mat_surface_wf(*b.child),
        Object::Transformed(t) => lemma_mat_surface_wf(*t.child),
        _ => {},
    }
}

impl Object {
    /// The material this object is shaded with; decorators answer
    /// with their child's.
    pub fn material(&self) -> (r: &Material)
        ensures
            *r == mat_of(*self),
        decreases *self,
    {
        match self {
            Object::Sphere(s) => &s.material,
            Object::Plane(p) => &p.material,
            Object::Cube(c) => &c.material,
            Object::Bounded(b) => b.child.material(),
            Object::Transformed(t) => t.child.material(),
        }
    }

    /// The object-space bounds of this shape.
    pub fn bounds(&self) -> (r: Bounds)
        requires
            obj_wf(*self),
        ensures
            r == bounds_val(*self),
            bounds_within(r, BOUNDS_LIMIT as int),
        decreases *self,
    {
        match self {
            Object::Sphere(_) | Object::Cube(_) => {
                let one = Fx { bits: SCALE };
                let neg = Fx { bits: -SCALE };
                Bounds {
                    minimum: ExtPoint3d {
                        x: ExtFx::Finite(neg),
                        y: ExtFx::Finite(neg),
                        z: ExtFx::Finite(neg),
                    },
                    maximum: ExtPoint3d {
                        x: ExtFx::Finite(one),
                        y: ExtFx::Finite(one),
                        z: ExtFx::Finite(one),
                    },
                }
            },
            Object::Plane(_) => Bounds {
                minimum: ExtPoint3d {
                    x: ExtFx::NegInf,
                    y: ExtFx::Finite(Fx { bits: -100_000_000_000_000 }),
                    z: ExtFx::NegInf,
                },
                maximum: ExtPoint3d {
                    x: ExtFx::PosInf,
                    y: ExtFx::Finite(Fx { bits: 100_000_000_000_000 }),
                    z: ExtFx::PosInf,
                },
            },
            Object::Bounded(b) => b.bounds,
            Object::Transformed(_) => Bounds {
                minimum: ExtPoint3d { x: ExtFx::NegInf, y: ExtFx::NegInf, z: ExtFx::NegInf },
                maximum: ExtPoint3d { x: ExtFx::PosInf, y: ExtFx::PosInf, z: ExtFx::PosInf },
            },
        }
    }

    /// All hits of a world ray on this shape, each tagged with the
    /// object whose frame resolves its shading.
    #[verifier::rlimit(100)]
    pub fn intersect<'a>(&'a self, ray: &Ray) -> (r: Vec<Intersection<'a>>)
        requires
            obj_wf(*self),
            pt_within(ray.origin, WORLD_LIMIT as int),
            vec_within(ray.direction, WORLD_LIMIT as int),
        ensures
            r@.len() == intersections_val(*self, *ray).len(),
            forall|i: int| 0 <= i < r@.len() ==> r@[i].t.v() == intersections_val(*self, *ray)[i].0,
            forall|i: int| 0 <= i < r@.len() ==> *r@[i].object == intersections_val(*self, *ray)[i].1,
        decreases *self,
    {
        match self {
            Object::Sphere(s) => {
                let lr = s.transform.inverse().apply_ray(ray);
                let a = lr.direction.dot(&lr.direction);
                if a.bits <= 0 {
                    Vec::new()
                } else {
                    match UnitSphere::new().intersect(&lr) {
                        Option::Some(roots) => {
                            let mut v: Vec<Intersection<'a>> = Vec::new();
                            v.push(Intersection { t: roots.0, object: self });
                            v.push(Intersection { t: roots.1, object: self });
                            v
                        },
                        Option::None => Vec::new(),
                    }
                }
            },
            Object::Plane(_) => {
                if ray.direction.y.bits == 0 {
                    Vec::new()
                } else {
                    let t = ray.origin.y.neg().div(ray.direction.y);
                    let mut v: Vec<Intersection<'a>> = Vec::new();
                    v.push(Intersection { t, object: self });
                    v
                }
            },
            Object::Cube(c) => {
                let lr = c.transform.inverse().apply_ray(ray);
                let ub = unit_box_exec();
                let (lo, hi) = crate::bounded::slab_interval(&ub, &lr);
                if lo.le(hi) {
                    match (lo, hi) {
                        (ExtFx::Finite(a), ExtFx::Finite(b)) => {
                            let mut v: Vec<Intersection<'a>> = Vec::new();
                            v.push(Intersection { t: a, object: self });
                            v.push(Intersection { t: b, object: self });
                            v
                        },
                        _ => Vec::new(),
                    }
                } else {
                    Vec::new()
                }
            },
            Object::Bounded(b) => {
                if b.test(ray) {
                    b.child.intersect(ray)
                } else {
                    Vec::new()
                }
            },
            Object::Transformed(t) => {
                let lr = t.transform.inverse().apply_ray(ray);
                let in_range = -WORLD_LIMIT <= lr.origin.x.bits && lr.origin.x.bits <= WORLD_LIMIT
                    && -WORLD_LIMIT <= lr.origin.y.bits && lr.origin.y.bits <= WORLD_LIMIT
                    && -WORLD_LIMIT <= lr.origin.z.bits && lr.origin.z.bits <= WORLD_LIMIT
                    && -WORLD_LIMIT <= lr.direction.x.bits && lr.direction.x.bits <= WORLD_LIMIT
                    && -WORLD_LIMIT <= lr.direction.y.bits && lr.direction.y.bits <= WORLD_LIMIT
                    && -WORLD_LIMIT <= lr.direction.z.bits && lr.direction.z.bits <= WORLD_LIMIT;
                if !in_range {
                    Vec::new()
                } else {
                    let xs = t.child.intersect(&lr);
                    let ghost cv = intersections_val(*t.child, lr);
                    let mut out: Vec<Intersection<'a>> = Vec::new();
                    let mut i: usize = 0;
                    while i < xs.len()
                        invariant
                            0 <= i <= xs@.len(),
                            xs@.len() == cv.len(),
                            forall|j: int| 0 <= j < xs@.len() ==> xs@[j].t.v() == cv[j].0,
                            out@.len() == i,
                            forall|j: int| 0 <= j < i ==> out@[j].t == xs@[j].t,
                            forall|j: int| 0 <= j < i ==> out@[j].object == self,
                        decreases xs@.len() - i,
                    {
                        let x = xs[i];
                        out.push(Intersection { t: x.t, object: self });
                        i = i + 1;
                    }
                    out
                }
            },
        }
    }

    /// The world-space surface normal at a world point, derived
    /// from the local normal and the transform chain. Fails with a
    /// [`DegenerateVectorError`] only when the transform is
    /// pathological (a normalization or range check fails).
    pub fn normal_at(&self, point: &Point3d) -> (r: Result<NormalizedVec3d, DegenerateVectorError>)
        requires
            obj_wf(*self),
            pt_within(*point, WORLD_LIMIT as int),
        ensures
            r is Ok <==> normal_val(*self, *point) is Some,
            r matches Ok(n) ==> normal_val(*self, *point) == Option::Some(n.v3()),
            r matches Ok(n) ==> n.wf(),
        decreases *self,
    {
        match self {
            Object::Sphere(s) => {
                let lp = s.transform.inverse().apply_pt(point);
                map_local_normal(&s.transform, lp.as_vec())
            },
            Object::Plane(_) => {
                proof {
                    lemma_y_unit_norm_ok();
                }
                match NormalizedVec3d::new(Fx { bits: 0 }, Fx { bits: SCALE }, Fx { bits: 0 }) {
                    Ok(n) => Ok(n),
                    Err(e) => {
                        proof {
                            assert(false);
                        }
                        Err(e)
                    },
                }
            },
            Object::Cube(c) => {
                let lp = c.transform.inverse().apply_pt(point);
                let ax = lp.x.abs();
                let ay = lp.y.abs();
                let az = lp.z.abs();
                let mc = ax.max(ay).max(az);
                let zero = Fx { bits: 0 };
                let ln0 = if mc.bits == ax.bits {
                    Vec3d { x: lp.x, y: zero, z: zero }
                } else if mc.bits == ay.bits {
                    Vec3d { x: zero, y: lp.y, z: zero }
                } else {
                    Vec3d { x: zero, y: zero, z: lp.z }
                };
                map_local_normal(&c.transform, ln0)
            },
            Object::Bounded(b) => b.child.normal_at(point),
            Object::Transformed(t) => {
                let lp = t.transform.inverse().apply_pt(point);
                let in_range = -WORLD_LIMIT <= lp.x.bits && lp.x.bits <= WORLD_LIMIT
                    && -WORLD_LIMIT <= lp.y.bits && lp.y.bits <= WORLD_LIMIT
                    && -WORLD_LIMIT <= lp.z.bits && lp.z.bits <= WORLD_LIMIT;
                if !in_range {
                    Err(DegenerateVectorError)
                } else {
                    match t.child.normal_at(&lp) {
                        Err(e) => Err(e),
                        Ok(ln) => {
                            let wn = t.transform.inverse().tr_apply_vec(&ln.as_vec());
                            NormalizedVec3d::try_from(wn)
                        },
                    }
                }
            },
        }
    }

    /// The shaded color at a world point, resolved through this
    /// object's transform chain and its material's surface.
    pub fn color_at(&self, point: &Point3d) -> (r: Color)
        requires
            obj_wf(*self),
            pt_within(*point, WORLD_LIMIT as int),
        ensures
            r == color_val(*self, *point),
        decreases *self,
    {
        match self {
            Object::Sphere(s) => {
                let lp = s.transform.inverse().apply_pt(point);
                s.material.surface.color_at(&lp)
            },
            Object::Plane(p) => p.material.surface.color_at(point),
            Object::Cube(c) => {
                let lp = c.transform.inverse().apply_pt(point);
                c.material.surface.color_at(&lp)
            },
            Object::Bounded(b) => b.child.color_at(point),
            Object::Transformed(t) => {
                let lp = t.transform.inverse().apply_pt(point);
                proof {
                    lemma_mat_surface_wf(*t.child);
                }
                t.child.material().surface.color_at(&lp)
            },
        }
    }
}

/// The cube/sphere box, built at runtime.
fn unit_box_exec() -> (r: Bounds)
    ensures
        r == unit_box(),
{
    let one = Fx { bits: SCALE };
    let neg = Fx { bits: -SCALE };
    Bounds {
        minimum: ExtPoint3d { x: ExtFx::Finite(neg), y: ExtFx::Finite(neg), z: ExtFx::Finite(neg) },
        maximum: ExtPoint3d { x: ExtFx::Finite(one), y: ExtFx::Finite(one), z: ExtFx::Finite(one) },
    }
}

/// Normalize a local normal direction, carry it to world space
/// through the transpose of the inverse, and re-normalize.
fn map_local_normal(tr: &InvertibleTransform, ln0: Vec3d) -> (r: Result<NormalizedVec3d, DegenerateVectorError>)
    requires
        tr.wf(),
        vec_within(ln0, APPLIED_LIMIT as int),
    ensures
        r is Ok <==> mapped_normal_val(*tr, ln0) is Some,
        r matches Ok(n) ==> mapped_normal_val(*tr, ln0) == Option::Some(n.v3()),
        r matches Ok(n) ==> n.wf(),
{
    match NormalizedVec3d::try_from(ln0) {
        Err(e) => Err(e),
        Ok(ln) => {
            let wn = tr.inverse().tr_apply_vec(&ln.as_vec());
            NormalizedVec3d::try_from(wn)
        },
    }
}

/// The plane's constant local normal is a valid unit vector.
proof fn lemma_y_unit_norm_ok()
    ensures
        norm_ok(y_unit_vec()),
        norm_cand(y_unit_vec()) == y_unit_vec(),
{
    let v = y_unit_vec();
    crate::fx::lemma_fmul_const(SCALE as int);
    crate::fx::lemma_fmul_const(0);
    assert(crate::vector::sq_len(v) == SCALE);
    assert((SCALE as nat) * (SCALE as nat) <= ((SCALE * SCALE) as nat)) by (nonlinear_arith);
    assert(((SCALE * SCALE) as nat) < ((SCALE as nat) + 1) * ((SCALE as nat) + 1)) by (nonlinear_arith);
    crate::fx::lemma_sqrt_val_unique((SCALE * SCALE) as nat, SCALE as nat);
    assert(crate::vector::norm_len(v) == SCALE);
    crate::fx::lemma_tdiv_mag(0, SCALE as int);
    vstd::arithmetic::div_mod::lemma_div_multiples_vanish(SCALE as int, SCALE as int);
    assert(fdiv(0, SCALE as int) == 0);
    assert(fdiv(SCALE as int, SCALE as int) == SCALE);
    assert(norm_cand(v) == v);
}

} // verus!
