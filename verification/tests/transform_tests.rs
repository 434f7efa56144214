//! Validated transforms: inverses, round-trips, and normal
//! mapping under transforms.

use ray_tracer::fx::Fx;
use ray_tracer::object::{Object, Sphere};
use ray_tracer::transform::{
    scaling, translation, Affine, InvertibleTransform, Mat3, MAT_EPS,
};
use ray_tracer::transformed::Transformed;
use ray_tracer::tuple::{Point3d, Vec3d};

const M: i128 = 1_000_000;

fn fx(units: i128) -> Fx {
    Fx::from_units(units)
}

fn p(x: i128, y: i128, z: i128) -> Point3d {
    Point3d::new(fx(x), fx(y), fx(z))
}

fn assert_close(a: Fx, b: Fx, tolerance: i128) {
    assert!((a.bits - b.bits).abs() <= tolerance, "{:?} vs {:?}", a, b);
}

fn assert_affine_is_identity(a: &Affine, tolerance: i128) {
    assert_close(a.m.m00, fx(M), tolerance);
    assert_close(a.m.m11, fx(M), tolerance);
    assert_close(a.m.m22, fx(M), tolerance);
    for off in [
        a.m.m01, a.m.m02, a.m.m10, a.m.m12, a.m.m20, a.m.m21, a.t.x, a.t.y, a.t.z,
    ] {
        assert_close(off, fx(0), tolerance);
    }
}

/// The matrix of a rotation about z by an angle with the given
/// cosine and sine (in millionths).
fn rotation_z(cos: i128, sin: i128) -> Affine {
    let zero = fx(0);
    Affine {
        m: Mat3 {
            m00: fx(cos), m01: fx(-sin), m02: zero,
            m10: fx(sin), m11: fx(cos), m12: zero,
            m20: zero, m21: zero, m22: fx(M),
        },
        t: Vec3d::new(zero, zero, zero),
    }
}

#[test]
fn a_singular_matrix_is_rejected() {
    assert!(InvertibleTransform::try_new(scaling(fx(0), fx(0), fx(0))).is_err());
    assert!(InvertibleTransform::try_new(scaling(fx(M), fx(0), fx(M))).is_err());
}

#[test]
fn a_transform_composed_with_its_inverse_is_the_identity() {
    let cases = vec![
        translation(fx(5 * M), fx(-3 * M), fx(2 * M)),
        scaling(fx(2 * M), fx(3 * M), fx(4 * M)),
        rotation_z(809_017, 587_785),
        scaling(fx(M), fx(500_000), fx(M)).compose(&rotation_z(809_017, 587_785)),
    ];
    for a in cases {
        let t = InvertibleTransform::try_new(a).unwrap();
        assert_affine_is_identity(&t.matrix().compose(t.inverse()), MAT_EPS);
        assert_affine_is_identity(&t.inverse().compose(t.matrix()), MAT_EPS);
    }
}

#[test]
fn computing_normal_on_translated_shape() {
    let s = Object::Transformed(Transformed::new(
        Sphere::unit(),
        InvertibleTransform::try_new(translation(fx(0), fx(M), fx(0))).unwrap(),
    ));

    let n = s.normal_at(&p(0, 1_707_110, -707_110)).unwrap();

    let nv = n.as_vec();
    assert_close(nv.x, fx(0), 100);
    assert_close(nv.y, fx(707_110), 100);
    assert_close(nv.z, fx(-707_110), 100);
}

#[test]
fn computing_normal_on_transformed_shape() {
    let s = Object::Transformed(Transformed::new(
        Sphere::unit(),
        InvertibleTransform::try_new(
            scaling(fx(M), fx(500_000), fx(M)).compose(&rotation_z(809_017, 587_785)),
        )
        .unwrap(),
    ));

    let n = s.normal_at(&p(0, 707_107, -707_107)).unwrap();

    let nv = n.as_vec();
    assert_close(nv.x, fx(0), 300);
    assert_close(nv.y, fx(970_140), 300);
    assert_close(nv.z, fx(-242_540), 300);
}

#[test]
fn a_translation_moves_a_point_and_leaves_a_vector_alone() {
    let t = InvertibleTransform::try_new(translation(fx(5 * M), fx(-3 * M), fx(2 * M))).unwrap();
    let moved = t.matrix().apply_pt(&p(-3 * M, 4 * M, 5 * M));
    assert_eq!(moved, p(2 * M, M, 7 * M));

    let v = Vec3d::new(fx(-3 * M), fx(4 * M), fx(5 * M));
    assert_eq!(t.matrix().apply_vec(&v), v);
}

#[test]
fn a_scaling_stretches_a_point_componentwise() {
    let t = InvertibleTransform::try_new(scaling(fx(2 * M), fx(2 * M), fx(4 * M))).unwrap();
    assert_eq!(t.matrix().apply_pt(&p(-4 * M, 6 * M, 8 * M)), p(-8 * M, 12 * M, 32 * M));
    assert_eq!(t.inverse().apply_pt(&p(-8 * M, 12 * M, 32 * M)), p(-4 * M, 6 * M, 8 * M));
}
