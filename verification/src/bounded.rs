//! Axis-aligned bounds and the bounding-volume rejection wrapper.
//!
//! Bound corners carry extended coordinates ([`ExtFx`]): a finite
//! fixed-point value or one of the two infinities, so a box can be
//! unbounded along any axis (the default bounds are unbounded on
//! all of them). The slab test below mirrors, case by case, what
//! IEEE division by zero gives the floating-point formulation: an
//! axis the ray travels along constrains nothing when the origin
//! lies between the slabs, and rules the hit out otherwise.

use vstd::prelude::*;
use crate::fx::{fdiv, Fx};
use crate::ray::Ray;
use crate::tuple::{pt_within, vec_within, Point3d};

verus! {

/// Largest finite magnitude (in millionths) a bound corner or a
/// ray coordinate may have in the slab test.
pub const BOUNDS_LIMIT: i128 = 1_000_000_000_000_000_000_000_000_000_000;

/// A fixed-point value extended with the two infinities.
#[derive(Clone, Copy, Debug, PartialEq, Eq, Structural)]
pub enum ExtFx {
    NegInf,
    Finite(Fx),
    PosInf,
}

/// Extended order: `NegInf <= Finite(_) <= PosInf`.
pub open spec fn ext_le(a: ExtFx, b: ExtFx) -> bool {
    match a {
        ExtFx::NegInf => true,
        ExtFx::PosInf => b is PosInf,
        ExtFx::Finite(x) => match b {
            ExtFx::NegInf => false,
            ExtFx::PosInf => true,
            ExtFx::Finite(y) => x.v() <= y.v(),
        },
    }
}

/// The smaller of two extended values (the left one on ties).
pub open spec fn ext_min(a: ExtFx, b: ExtFx) -> ExtFx {
    if ext_le(a, b) {
        a
    } else {
        b
    }
}

/// The larger of two extended values (the left one on ties).
pub open spec fn ext_max(a: ExtFx, b: ExtFx) -> ExtFx {
    if ext_le(b, a) {
        a
    } else {
        b
    }
}

/// An extended value shifted down by a finite one.
pub open spec fn ext_sub_val(a: ExtFx, o: int) -> ExtFx {
    match a {
        ExtFx::NegInf => ExtFx::NegInf,
        ExtFx::PosInf => ExtFx::PosInf,
        ExtFx::Finite(x) => ExtFx::Finite(Fx { bits: (x.v() - o) as i128 }),
    }
}

/// An extended value divided by a nonzero finite one; an infinity
/// keeps or flips its sign with the divisor.
pub open spec fn ext_div_val(a: ExtFx, d: int) -> ExtFx {
    match a {
        ExtFx::NegInf => if d > 0 {
            ExtFx::NegInf
        } else {
            ExtFx::PosInf
        },
        ExtFx::PosInf => if d > 0 {
            ExtFx::PosInf
        } else {
            ExtFx::NegInf
        },
        ExtFx::Finite(x) => ExtFx::Finite(Fx { bits: fdiv(x.v(), d) as i128 }),
    }
}

/// The extended value is finite and within `m`, or infinite.
pub open spec fn ext_within(e: ExtFx, m: int) -> bool {
    match e {
        ExtFx::Finite(x) => -m <= x.v() <= m,
        _ => true,
    }
}

impl ExtFx {
    /// Extended comparison.
    pub fn le(self, o: ExtFx) -> (r: bool)
        ensures
            r == ext_le(self, o),
    {
        match self {
            ExtFx::NegInf => true,
            ExtFx::PosInf => matches!(o, ExtFx::PosInf),
            ExtFx::Finite(x) => match o {
                ExtFx::NegInf => false,
                ExtFx::PosInf => true,
                ExtFx::Finite(y) => x.bits <= y.bits,
            },
        }
    }

    /// The smaller value.
    pub fn min(self, o: ExtFx) -> (r: ExtFx)
        ensures
            r == ext_min(self, o),
    {
        if self.le(o) {
            self
        } else {
            o
        }
    }

    /// The larger value.
    pub fn max(self, o: ExtFx) -> (r: ExtFx)
        ensures
            r == ext_max(self, o),
    {
        if o.le(self) {
            self
        } else {
            o
        }
    }

    /// Shift down by a finite value.
    pub fn sub_fin(self, o: Fx) -> (r: ExtFx)
        requires
            ext_within(self, BOUNDS_LIMIT as int),
            -BOUNDS_LIMIT <= o.v() <= BOUNDS_LIMIT,
        ensures
            r == ext_sub_val(self, o.v()),
    {
        match self {
            ExtFx::NegInf => ExtFx::NegInf,
            ExtFx::PosInf => ExtFx::PosInf,
            ExtFx::Finite(x) => ExtFx::Finite(x.sub(o)),
        }
    }

    /// Divide by a nonzero finite value.
    pub fn div_fin(self, d: Fx) -> (r: ExtFx)
        requires
            d.v() != 0,
            d.v() != i128::MIN,
            ext_within(self, 2 * BOUNDS_LIMIT as int),
        ensures
            r == ext_div_val(self, d.v()),
    {
        match self {
            ExtFx::NegInf => if d.bits > 0 {
                ExtFx::NegInf
            } else {
                ExtFx::PosInf
            },
            ExtFx::PosInf => if d.bits > 0 {
                ExtFx::PosInf
            } else {
                ExtFx::NegInf
            },
            ExtFx::Finite(x) => ExtFx::Finite(x.div(d)),
        }
    }
}

/// A corner of a bounding box: one extended coordinate per axis.
#[derive(Clone, Copy, Debug, PartialEq, Eq, Structural)]
pub struct ExtPoint3d {
    pub x: ExtFx,
    pub y: ExtFx,
    pub z: ExtFx,
}

impl ExtPoint3d {
    /// The corner at a finite point.
    pub fn from_point(p: &Point3d) -> (r: ExtPoint3d)
        ensures
            r == (ExtPoint3d {
                x: ExtFx::Finite(p.x),
                y: ExtFx::Finite(p.y),
                z: ExtFx::Finite(p.z),
            }),
    {
        ExtPoint3d { x: ExtFx::Finite(p.x), y: ExtFx::Finite(p.y), z: ExtFx::Finite(p.z) }
    }
}

/// An axis-aligned box given by its minimum and maximum corners.
#[derive(Clone, Copy, Debug, PartialEq, Eq, Structural)]
pub struct Bounds {
    pub minimum: ExtPoint3d,
    pub maximum: ExtPoint3d,
}

/// The corner with all coordinates zero.
pub open spec fn zero_corner() -> ExtPoint3d {
    ExtPoint3d {
        x: ExtFx::Finite(Fx { bits: 0 }),
        y: ExtFx::Finite(Fx { bits: 0 }),
        z: ExtFx::Finite(Fx { bits: 0 }),
    }
}

/// The eight corners of a box, minimum-first, z varying fastest.
pub open spec fn enumerate_val(b: Bounds) -> Seq<ExtPoint3d> {
    seq![
        ExtPoint3d { x: b.minimum.x, y: b.minimum.y, z: b.minimum.z },
        ExtPoint3d { x: b.minimum.x, y: b.minimum.y, z: b.maximum.z },
        ExtPoint3d { x: b.minimum.x, y: b.maximum.y, z: b.minimum.z },
        ExtPoint3d { x: b.minimum.x, y: b.maximum.y, z: b.maximum.z },
        ExtPoint3d { x: b.maximum.x, y: b.minimum.y, z: b.minimum.z },
        ExtPoint3d { x: b.maximum.x, y: b.minimum.y, z: b.maximum.z },
        ExtPoint3d { x: b.maximum.x, y: b.maximum.y, z: b.minimum.z },
        ExtPoint3d { x: b.maximum.x, y: b.maximum.y, z: b.maximum.z },
    ]
}

/// `m` is the least x coordinate among the points.
pub open spec fn min_x_of(s: Seq<Point3d>, m: Fx) -> bool {
    &&& forall|i: int| 0 <= i < s.len() ==> m.v() <= s[i].x.v()
    &&& exists|i: int| 0 <= i < s.len() && m == s[i].x
}

pub open spec fn min_y_of(s: Seq<Point3d>, m: Fx) -> bool {
    &&& forall|i: int| 0 <= i < s.len() ==> m.v() <= s[i].y.v()
    &&& exists|i: int| 0 <= i < s.len() && m == s[i].y
}

pub open spec fn min_z_of(s: Seq<Point3d>, m: Fx) -> bool {
    &&& forall|i: int| 0 <= i < s.len() ==> m.v() <= s[i].z.v()
    &&& exists|i: int| 0 <= i < s.len() && m == s[i].z
}

/// `m` is the greatest x coordinate among the points.
pub open spec fn max_x_of(s: Seq<Point3d>, m: Fx) -> bool {
    &&& forall|i: int| 0 <= i < s.len() ==> s[i].x.v() <= m.v()
    &&& exists|i: int| 0 <= i < s.len() && m == s[i].x
}

pub open spec fn max_y_of(s: Seq<Point3d>, m: Fx) -> bool {
    &&& forall|i: int| 0 <= i < s.len() ==> s[i].y.v() <= m.v()
    &&& exists|i: int| 0 <= i < s.len() && m == s[i].y
}

pub open spec fn max_z_of(s: Seq<Point3d>, m: Fx) -> bool {
    &&& forall|i: int| 0 <= i < s.len() ==> s[i].z.v() <= m.v()
    &&& exists|i: int| 0 <= i < s.len() && m == s[i].z
}

/// The box is the componentwise min/max fold of the points.
pub open spec fn hull_of(s: Seq<Point3d>, b: Bounds) -> bool {
    &&& b.minimum.x matches ExtFx::Finite(f) && min_x_of(s, f)
    &&& b.minimum.y matches ExtFx::Finite(f) && min_y_of(s, f)
    &&& b.minimum.z matches ExtFx::Finite(f) && min_z_of(s, f)
    &&& b.maximum.x matches ExtFx::Finite(f) && max_x_of(s, f)
    &&& b.maximum.y matches ExtFx::Finite(f) && max_y_of(s, f)
    &&& b.maximum.z matches ExtFx::Finite(f) && max_z_of(s, f)
}

impl Bounds {
    /// All eight corners of the box, in a fixed order.
    pub fn enumerate(&self) -> (r: Vec<ExtPoint3d>)
        ensures
            r@ == enumerate_val(*self),
    {
        let v = vec![
            ExtPoint3d { x: self.minimum.x, y: self.minimum.y, z: self.minimum.z },
            ExtPoint3d { x: self.minimum.x, y: self.minimum.y, z: self.maximum.z },
            ExtPoint3d { x: self.minimum.x, y: self.maximum.y, z: self.minimum.z },
            ExtPoint3d { x: self.minimum.x, y: self.maximum.y, z: self.maximum.z },
            ExtPoint3d { x: self.maximum.x, y: self.minimum.y, z: self.minimum.z },
            ExtPoint3d { x: self.maximum.x, y: self.minimum.y, z: self.maximum.z },
            ExtPoint3d { x: self.maximum.x, y: self.maximum.y, z: self.minimum.z },
            ExtPoint3d { x: self.maximum.x, y: self.maximum.y, z: self.maximum.z },
        ];
        proof {
            assert(v@ =~= enumerate_val(*self));
        }
        v
    }

    /// The smallest box holding every given point: a componentwise
    /// min/max fold. `None` exactly when no points are given.
    pub fn from_points(points: &[Point3d]) -> (r: Option<Bounds>)
        ensures
            r is Some <==> points@.len() > 0,
            r matches Some(b) ==> hull_of(points@, b),
    {
        if points.len() == 0 {
            return None;
        }
        let first = points[0];
        let mut min_x = first.x;
        let mut min_y = first.y;
        let mut min_z = first.z;
        let mut max_x = first.x;
        let mut max_y = first.y;
        let mut max_z = first.z;
        let mut i: usize = 1;
        proof {
            let s1 = points@.take(1);
            assert(s1[0] == points@[0]);
            assert(min_x == s1[0].x && min_y == s1[0].y && min_z == s1[0].z);
        }
        while i < points.len()
            invariant
                1 <= i <= points@.len(),
                min_x_of(points@.take(i as int), min_x),
                min_y_of(points@.take(i as int), min_y),
                min_z_of(points@.take(i as int), min_z),
                max_x_of(points@.take(i as int), max_x),
                max_y_of(points@.take(i as int), max_y),
                max_z_of(points@.take(i as int), max_z),
            decreases points@.len() - i,
        {
            let p = points[i];
            let ghost so = points@.take(i as int);
            let ghost sn = points@.take(i as int + 1);
            proof {
                assert(sn =~= so.push(points@[i as int]));
                assert(sn[i as int] == points@[i as int]);
                assert forall|k: int| 0 <= k < sn.len() && k < i as int implies sn[k] == so[k] by {}
            }
            let nmin_x = min_x.min(p.x);
            let nmin_y = min_y.min(p.y);
            let nmin_z = min_z.min(p.z);
            let nmax_x = max_x.max(p.x);
            let nmax_y = max_y.max(p.y);
            let nmax_z = max_z.max(p.z);
            proof {
                if min_x.v() <= p.x.v() {
                    let j = choose|j: int| 0 <= j < so.len() && min_x == so[j].x;
                    assert(nmin_x == sn[j].x);
                } else {
                    assert(nmin_x == sn[i as int].x);
                }
                if min_y.v() <= p.y.v() {
                    let j = choose|j: int| 0 <= j < so.len() && min_y == so[j].y;
                    assert(nmin_y == sn[j].y);
                } else {
                    assert(nmin_y == sn[i as int].y);
                }
                if min_z.v() <= p.z.v() {
                    let j = choose|j: int| 0 <= j < so.len() && min_z == so[j].z;
                    assert(nmin_z == sn[j].z);
                } else {
                    assert(nmin_z == sn[i as int].z);
                }
                if max_x.v() >= p.x.v() {
                    let j = choose|j: int| 0 <= j < so.len() && max_x == so[j].x;
                    assert(nmax_x == sn[j].x);
                } else {
                    assert(nmax_x == sn[i as int].x);
                }
                if max_y.v() >= p.y.v() {
                    let j = choose|j: int| 0 <= j < so.len() && max_y == so[j].y;
                    assert(nmax_y == sn[j].y);
                } else {
                    assert(nmax_y == sn[i as int].y);
                }
                if max_z.v() >= p.z.v() {
                    let j = choose|j: int| 0 <= j < so.len() && max_z == so[j].z;
                    assert(nmax_z == sn[j].z);
                } else {
                    assert(nmax_z == sn[i as int].z);
                }
            }
            min_x = nmin_x;
            min_y = nmin_y;
            min_z = nmin_z;
            max_x = nmax_x;
            max_y = nmax_y;
            max_z = nmax_z;
            i = i + 1;
        }
        proof {
            assert(points@.take(points@.len() as int) =~= points@);
        }
        Some(Bounds {
            minimum: ExtPoint3d {
                x: ExtFx::Finite(min_x),
                y: ExtFx::Finite(min_y),
                z: ExtFx::Finite(min_z),
            },
            maximum: ExtPoint3d {
                x: ExtFx::Finite(max_x),
                y: ExtFx::Finite(max_y),
                z: ExtFx::Finite(max_z),
            },
        })
    }

    /// The smallest box holding every corner of the given boxes;
    /// aggregating no boxes gives a zero-sized box at the origin.
    pub fn from_bounds(bounds: &[Bounds]) -> (r: Bounds)
        ensures
            bounds@.len() == 0 ==> r == (Bounds { minimum: zero_corner(), maximum: zero_corner() }),
            bounds@.len() > 0 ==> union_of(bounds@, r),
    {
        if bounds.len() == 0 {
            let z = ExtPoint3d {
                x: ExtFx::Finite(Fx { bits: 0 }),
                y: ExtFx::Finite(Fx { bits: 0 }),
                z: ExtFx::Finite(Fx { bits: 0 }),
            };
            return Bounds { minimum: z, maximum: z };
        }
        let first = bounds[0];
        let mut lo = ExtPoint3d {
            x: first.minimum.x.min(first.maximum.x),
            y: first.minimum.y.min(first.maximum.y),
            z: first.minimum.z.min(first.maximum.z),
        };
        let mut hi = ExtPoint3d {
            x: first.maximum.x.max(first.minimum.x),
            y: first.maximum.y.max(first.minimum.y),
            z: first.maximum.z.max(first.minimum.z),
        };
        proof {
            let s1 = bounds@.take(1);
            assert(s1[0] == bounds@[0]);
        }
        let mut i: usize = 1;
        while i < bounds.len()
            invariant
                1 <= i <= bounds@.len(),
                union_of(bounds@.take(i as int), Bounds { minimum: lo, maximum: hi }),
            decreases bounds@.len() - i,
        {
            let b = bounds[i];
            let ghost so = bounds@.take(i as int);
            let ghost sn = bounds@.take(i as int + 1);
            proof {
                assert(sn =~= so.push(bounds@[i as int]));
                assert(sn[i as int] == bounds@[i as int]);
                assert forall|k: int| 0 <= k < sn.len() && k < i as int implies sn[k] == so[k] by {}
            }
            let nlo = ExtPoint3d {
                x: lo.x.min(b.minimum.x).min(b.maximum.x),
                y: lo.y.min(b.minimum.y).min(b.maximum.y),
                z: lo.z.min(b.minimum.z).min(b.maximum.z),
            };
            let nhi = ExtPoint3d {
                x: hi.x.max(b.maximum.x).max(b.minimum.x),
                y: hi.y.max(b.maximum.y).max(b.minimum.y),
                z: hi.z.max(b.maximum.z).max(b.minimum.z),
            };
            lo = nlo;
            hi = nhi;
            i = i + 1;
        }
        proof {
            assert(bounds@.take(bounds@.len() as int) =~= bounds@);
        }
        Bounds { minimum: lo, maximum: hi }
    }
}

/// The box is the hull of every corner point of the given boxes —
/// minimum and maximum corners alike, so a box whose corners are
/// stated in the wrong order still contributes both of them. Each
/// result coordinate is a bound on every corner and is attained by
/// one of them.
pub open spec fn union_of(s: Seq<Bounds>, r: Bounds) -> bool {
    &&& forall|i: int| 0 <= i < s.len() ==> ext_le(r.minimum.x, s[i].minimum.x)
        && ext_le(r.minimum.x, s[i].maximum.x)
        && ext_le(r.minimum.y, s[i].minimum.y) && ext_le(r.minimum.y, s[i].maximum.y)
        && ext_le(r.minimum.z, s[i].minimum.z) && ext_le(r.minimum.z, s[i].maximum.z)
    &&& forall|i: int| 0 <= i < s.len() ==> ext_le(s[i].maximum.x, r.maximum.x)
        && ext_le(s[i].minimum.x, r.maximum.x)
        && ext_le(s[i].maximum.y, r.maximum.y) && ext_le(s[i].minimum.y, r.maximum.y)
        && ext_le(s[i].maximum.z, r.maximum.z) && ext_le(s[i].minimum.z, r.maximum.z)
    &&& exists|i: int| 0 <= i < s.len()
        && (r.minimum.x == s[i].minimum.x || r.minimum.x == s[i].maximum.x)
    &&& exists|i: int| 0 <= i < s.len()
        && (r.minimum.y == s[i].minimum.y || r.minimum.y == s[i].maximum.y)
    &&& exists|i: int| 0 <= i < s.len()
        && (r.minimum.z == s[i].minimum.z || r.minimum.z == s[i].maximum.z)
    &&& exists|i: int| 0 <= i < s.len()
        && (r.maximum.x == s[i].maximum.x || r.maximum.x == s[i].minimum.x)
    &&& exists|i: int| 0 <= i < s.len()
        && (r.maximum.y == s[i].maximum.y || r.maximum.y == s[i].minimum.y)
    &&& exists|i: int| 0 <= i < s.len()
        && (r.maximum.z == s[i].maximum.z || r.maximum.z == s[i].minimum.z)
}

impl Default for Bounds {
    /// The unbounded box: every axis runs from negative to
    /// positive infinity.
    fn default() -> (r: Bounds)
        ensures
            r.minimum == (ExtPoint3d { x: ExtFx::NegInf, y: ExtFx::NegInf, z: ExtFx::NegInf }),
            r.maximum == (ExtPoint3d { x: ExtFx::PosInf, y: ExtFx::PosInf, z: ExtFx::PosInf }),
    {
        Bounds {
            minimum: ExtPoint3d { x: ExtFx::NegInf, y: ExtFx::NegInf, z: ExtFx::NegInf },
            maximum: ExtPoint3d { x: ExtFx::PosInf, y: ExtFx::PosInf, z: ExtFx::PosInf },
        }
    }
}

/// Every corner coordinate is finite-within `m` or infinite.
pub open spec fn bounds_within(b: Bounds, m: int) -> bool {
    &&& ext_within(b.minimum.x, m) && ext_within(b.minimum.y, m) && ext_within(b.minimum.z, m)
    &&& ext_within(b.maximum.x, m) && ext_within(b.maximum.y, m) && ext_within(b.maximum.z, m)
}

/// The parameter interval one axis' pair of slabs admits. For a
/// ray travelling along the slabs (`d == 0`) the axis constrains
/// nothing when the origin lies between them (boundaries
/// included), and admits nothing otherwise — exactly the behavior
/// IEEE infinities give the floating-point slab method.
pub open spec fn axis_interval(mn: ExtFx, mx: ExtFx, o: int, d: int) -> (ExtFx, ExtFx) {
    if d == 0 {
        let ov = ExtFx::Finite(Fx { bits: o as i128 });
        if ext_le(mn, ov) && ext_le(ov, mx) {
            (ExtFx::NegInf, ExtFx::PosInf)
        } else {
            (ExtFx::PosInf, ExtFx::NegInf)
        }
    } else {
        let a = ext_div_val(ext_sub_val(mn, o), d);
        let b = ext_div_val(ext_sub_val(mx, o), d);
        if ext_le(a, b) {
            (a, b)
        } else {
            (b, a)
        }
    }
}

/// The entry parameter of the slab test: the largest per-axis
/// lower bound.
pub open spec fn slab_lo(b: Bounds, r: Ray) -> ExtFx {
    ext_max(
        ext_max(
            axis_interval(b.minimum.x, b.maximum.x, r.origin.x.v(), r.direction.x.v()).0,
            axis_interval(b.minimum.y, b.maximum.y, r.origin.y.v(), r.direction.y.v()).0,
        ),
        axis_interval(b.minimum.z, b.maximum.z, r.origin.z.v(), r.direction.z.v()).0,
    )
}

/// The exit parameter of the slab test: the smallest per-axis
/// upper bound.
pub open spec fn slab_hi(b: Bounds, r: Ray) -> ExtFx {
    ext_min(
        ext_min(
            axis_interval(b.minimum.x, b.maximum.x, r.origin.x.v(), r.direction.x.v()).1,
            axis_interval(b.minimum.y, b.maximum.y, r.origin.y.v(), r.direction.y.v()).1,
        ),
        axis_interval(b.minimum.z, b.maximum.z, r.origin.z.v(), r.direction.z.v()).1,
    )
}

/// The ray meets the box: its entry parameter does not exceed its
/// exit parameter.
pub open spec fn slab_hit(b: Bounds, r: Ray) -> bool {
    ext_le(slab_lo(b, r), slab_hi(b, r))
}

/// One axis of the slab method.
pub fn check_axis(mn: ExtFx, mx: ExtFx, origin: Fx, direction: Fx) -> (r: (ExtFx, ExtFx))
    requires
        ext_within(mn, BOUNDS_LIMIT as int),
        ext_within(mx, BOUNDS_LIMIT as int),
        -BOUNDS_LIMIT <= origin.v() <= BOUNDS_LIMIT,
        -BOUNDS_LIMIT <= direction.v() <= BOUNDS_LIMIT,
    ensures
        r.0 == axis_interval(mn, mx, origin.v(), direction.v()).0,
        r.1 == axis_interval(mn, mx, origin.v(), direction.v()).1,
{
    if direction.bits == 0 {
        let ov = ExtFx::Finite(origin);
        if mn.le(ov) && ov.le(mx) {
            (ExtFx::NegInf, ExtFx::PosInf)
        } else {
            (ExtFx::PosInf, ExtFx::NegInf)
        }
    } else {
        let a = mn.sub_fin(origin).div_fin(direction);
        let b = mx.sub_fin(origin).div_fin(direction);
        if a.le(b) {
            (a, b)
        } else {
            (b, a)
        }
    }
}

/// A child object behind a cheap axis-aligned rejection test: the
/// child's bounds are computed once at construction, and a ray
/// that misses the box is rejected without consulting the child.
#[derive(Debug)]
pub struct Bounded {
    pub bounds: Bounds,
    pub child: Box<crate::object::Object>,
}

impl Bounded {
    /// Wrap a child, storing its bounds once.
    pub fn new(child: crate::object::Object) -> (r: Bounded)
        requires
            crate::object::obj_wf(child),
        ensures
            *r.child == child,
            r.bounds == crate::object::bounds_val(child),
            bounds_within(r.bounds, BOUNDS_LIMIT as int),
            crate::object::obj_wf(crate::object::Object::Bounded(r)),
    {
        let bounds = child.bounds();
        Bounded { bounds, child: Box::new(child) }
    }

    /// The cheap rejection test: does the ray meet the stored box?
    pub fn test(&self, ray: &Ray) -> (r: bool)
        requires
            bounds_within(self.bounds, BOUNDS_LIMIT as int),
            pt_within(ray.origin, BOUNDS_LIMIT as int),
            vec_within(ray.direction, BOUNDS_LIMIT as int),
        ensures
            r == slab_hit(self.bounds, *ray),
    {
        let (lo, hi) = slab_interval(&self.bounds, ray);
        lo.le(hi)
    }

    /// The stored bounds, unchanged.
    pub fn bounds(&self) -> (r: Bounds)
        ensures
            r == self.bounds,
    {
        self.bounds
    }

    /// The child's material.
    pub fn material(&self) -> (r: &crate::material::Material)
        ensures
            *r == crate::object::mat_of(*self.child),
    {
        self.child.material()
    }
}

/// The entry and exit parameters of a ray against a box.
pub fn slab_interval(b: &Bounds, r: &Ray) -> (out: (ExtFx, ExtFx))
    requires
        bounds_within(*b, BOUNDS_LIMIT as int),
        pt_within(r.origin, BOUNDS_LIMIT as int),
        vec_within(r.direction, BOUNDS_LIMIT as int),
    ensures
        out.0 == slab_lo(*b, *r),
        out.1 == slab_hi(*b, *r),
{
    let (xlo, xhi) = check_axis(b.minimum.x, b.maximum.x, r.origin.x, r.direction.x);
    let (ylo, yhi) = check_axis(b.minimum.y, b.maximum.y, r.origin.y, r.direction.y);
    let (zlo, zhi) = check_axis(b.minimum.z, b.maximum.z, r.origin.z, r.direction.z);
    (xlo.max(ylo).max(zlo), xhi.min(yhi).min(zhi))
}

} // verus!
