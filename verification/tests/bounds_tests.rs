//! Bounds aggregation and the bounding-volume rejection test.

use ray_tracer::bounded::{Bounded, Bounds, ExtFx, ExtPoint3d};
use ray_tracer::fx::Fx;
use ray_tracer::object::Sphere;
use ray_tracer::ray::Ray;
use ray_tracer::tuple::{Point3d, Vec3d};

const M: i128 = 1_000_000;

fn p(x: i128, y: i128, z: i128) -> Point3d {
    Point3d::new(Fx::from_units(x), Fx::from_units(y), Fx::from_units(z))
}

fn v(x: i128, y: i128, z: i128) -> Vec3d {
    Vec3d::new(Fx::from_units(x), Fx::from_units(y), Fx::from_units(z))
}

fn fin(units: i128) -> ExtFx {
    ExtFx::Finite(Fx::from_units(units))
}

fn corner(x: i128, y: i128, z: i128) -> ExtPoint3d {
    ExtPoint3d { x: fin(x), y: fin(y), z: fin(z) }
}

fn finite_box(min: (i128, i128, i128), max: (i128, i128, i128)) -> Bounds {
    Bounds { minimum: corner(min.0, min.1, min.2), maximum: corner(max.0, max.1, max.2) }
}

#[test]
fn bounds_can_enumerate_all_points() {
    let b = finite_box((0, 0, 0), (M, M, M));

    let points = b.enumerate();
    let expected = vec![
        corner(0, 0, 0),
        corner(0, 0, M),
        corner(0, M, 0),
        corner(0, M, M),
        corner(M, 0, 0),
        corner(M, 0, M),
        corner(M, M, 0),
        corner(M, M, M),
    ];

    assert_eq!(points, expected);
}

#[test]
fn trying_to_create_bounds_from_no_points() {
    let no_points: Vec<Point3d> = vec![];
    assert_eq!(None, Bounds::from_points(&no_points));
}

#[test]
fn creating_bounds_from_one_point() {
    assert_eq!(
        Some(finite_box((0, M, 2 * M), (0, M, 2 * M))),
        Bounds::from_points(&vec![p(0, M, 2 * M)])
    );
}

#[test]
fn creating_bounds_from_many_points() {
    let points = vec![
        p(-M, 0, 200_000),
        p(0, 5 * M, 2 * M),
        p(-10 * M, 0, 500_000),
        p(0, 0, M),
    ];

    assert_eq!(
        Bounds::from_points(&points),
        Some(finite_box((-10 * M, 0, 200_000), (0, 5 * M, 2 * M)))
    );
}

#[test]
fn aggregating_bounds_folds_all_corners() {
    let a = finite_box((-M, 0, 0), (M, M, M));
    let b = Bounds {
        minimum: ExtPoint3d { x: ExtFx::NegInf, y: fin(-2 * M), z: fin(0) },
        maximum: ExtPoint3d { x: fin(0), y: ExtFx::PosInf, z: fin(3 * M) },
    };

    let u = Bounds::from_bounds(&vec![a, b]);

    assert_eq!(u.minimum.x, ExtFx::NegInf);
    assert_eq!(u.minimum.y, fin(-2 * M));
    assert_eq!(u.minimum.z, fin(0));
    assert_eq!(u.maximum.x, fin(M));
    assert_eq!(u.maximum.y, ExtFx::PosInf);
    assert_eq!(u.maximum.z, fin(3 * M));
}

#[test]
fn aggregating_takes_the_hull_of_both_corners() {
    // A box stated with its corners in the wrong order still
    // contributes both of its corner points to the union.
    let swapped = finite_box((5 * M, 5 * M, 5 * M), (0, 0, 0));

    let u = Bounds::from_bounds(&vec![swapped]);

    assert_eq!(u, finite_box((0, 0, 0), (5 * M, 5 * M, 5 * M)));
}

#[test]
fn aggregating_no_bounds_yields_a_zero_box_at_the_origin() {
    let none: Vec<Bounds> = vec![];
    let u = Bounds::from_bounds(&none);
    assert_eq!(u, finite_box((0, 0, 0), (0, 0, 0)));
}

#[test]
fn default_bounds_are_unbounded() {
    let b = Bounds::default();
    assert_eq!(b.minimum.x, ExtFx::NegInf);
    assert_eq!(b.minimum.y, ExtFx::NegInf);
    assert_eq!(b.minimum.z, ExtFx::NegInf);
    assert_eq!(b.maximum.x, ExtFx::PosInf);
    assert_eq!(b.maximum.y, ExtFx::PosInf);
    assert_eq!(b.maximum.z, ExtFx::PosInf);
}

#[test]
fn bounds_of_bounded_object_are_bounds_of_child() {
    let shape = Sphere::unit();
    let shape_bounds = shape.bounds();
    let bounded = Bounded::new(shape);

    assert_eq!(shape_bounds, bounded.bounds());
}

#[test]
fn material_of_bounded_object_is_material_of_child() {
    let shape = Sphere::unit();
    let bounded = Bounded::new(shape);

    assert!(bounded.material().id == bounded.child.material().id);
}

fn test_box() -> Bounded {
    Bounded {
        bounds: finite_box((2 * M, 2 * M, 2 * M), (4 * M, 4 * M, 4 * M)),
        child: Box::new(Sphere::unit()),
    }
}

#[test]
fn a_ray_intersects_each_face_of_a_box() {
    let b = test_box();
    let cases = vec![
        (p(5 * M, 3 * M, 3 * M), v(-M, 0, 0)),
        (p(-5 * M, 3 * M, 3 * M), v(M, 0, 0)),
        (p(3 * M, 5 * M, 3 * M), v(0, -M, 0)),
        (p(3 * M, -5 * M, 3 * M), v(0, M, 0)),
        (p(3 * M, 3 * M, 5 * M), v(0, 0, -M)),
        (p(3 * M, 3 * M, -5 * M), v(0, 0, M)),
        (p(3 * M, 3 * M, 3 * M), v(0, 0, M)),
    ];
    for (origin, direction) in cases {
        assert!(b.test(&Ray::new(origin, direction)));
    }
}

#[test]
fn a_ray_hits_the_edge() {
    let b = test_box();
    assert!(b.test(&Ray::new(p(5 * M, 4 * M, 4 * M), v(-M, 0, 0))));
}

#[test]
fn a_ray_offset_past_a_face_misses() {
    let b = test_box();
    let cases = vec![
        (p(5 * M, 4_100_000, 3 * M), v(-M, 0, 0)),
        (p(5 * M, 1_900_000, 3 * M), v(-M, 0, 0)),
        (p(5 * M, 3 * M, 4_100_000), v(-M, 0, 0)),
        (p(5 * M, 3 * M, 1_900_000), v(-M, 0, 0)),
        (p(4_100_000, 5 * M, 3 * M), v(0, -M, 0)),
        (p(1_900_000, -5 * M, 3 * M), v(0, M, 0)),
        (p(3 * M, 4_100_000, 5 * M), v(0, 0, -M)),
        (p(3 * M, 1_900_000, -5 * M), v(0, 0, M)),
    ];
    for (origin, direction) in cases {
        assert!(!b.test(&Ray::new(origin, direction)));
    }
}

#[test]
fn a_ray_intersects_a_bounding_box_going_to_infinity() {
    let b = Bounded {
        bounds: Bounds {
            minimum: ExtPoint3d { x: fin(-M), y: ExtFx::NegInf, z: fin(-M) },
            maximum: ExtPoint3d { x: fin(M), y: ExtFx::PosInf, z: fin(M) },
        },
        child: Box::new(Sphere::unit()),
    };
    let far: i128 = 1_000_000_000_000_000_000_000_000_000_000;
    let ray = Ray::new(p(5 * M, far, 0), v(-M, 0, 0));

    assert!(b.test(&ray));
}
