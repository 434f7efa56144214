//! Planes, cubes, and the transformed decorator.

use ray_tracer::color::{black, white};
use ray_tracer::fx::Fx;
use ray_tracer::material::{Material, Pattern, PatternKind, Surface};
use ray_tracer::object::{Cube, Object, Plane, Sphere};
use ray_tracer::ray::Ray;
use ray_tracer::transform::{scaling, translation, InvertibleTransform};
use ray_tracer::transformed::Transformed;
use ray_tracer::tuple::{Point3d, Vec3d};

const M: i128 = 1_000_000;

fn fx(units: i128) -> Fx {
    Fx::from_units(units)
}

fn p(x: i128, y: i128, z: i128) -> Point3d {
    Point3d::new(fx(x), fx(y), fx(z))
}

fn v(x: i128, y: i128, z: i128) -> Vec3d {
    Vec3d::new(fx(x), fx(y), fx(z))
}

fn plane() -> Object {
    Object::Plane(Plane { material: Material::with_id(0) })
}

fn cube() -> Object {
    Object::Cube(Cube {
        transform: InvertibleTransform::identity(),
        material: Material::with_id(0),
    })
}

fn ts(xs: &[ray_tracer::intersect::Intersection]) -> Vec<Fx> {
    xs.iter().map(|x| x.t()).collect()
}

#[test]
fn the_normal_of_a_plane_is_constant_everywhere() {
    let pl = plane();

    let n1 = pl.normal_at(&p(0, 0, 0)).unwrap();
    let n2 = pl.normal_at(&p(10 * M, 0, -10 * M)).unwrap();
    let n3 = pl.normal_at(&p(-5 * M, 0, 150 * M)).unwrap();

    let expected = v(0, M, 0);
    assert_eq!(n1.as_vec(), expected);
    assert_eq!(n2.as_vec(), expected);
    assert_eq!(n3.as_vec(), expected);
}

#[test]
fn intersect_with_a_ray_parallel_to_the_plane() {
    let pl = plane();
    let r = Ray::new(p(0, 10 * M, 0), v(0, 0, M));

    let xs = pl.intersect(&r);
    assert!(xs.is_empty());
}

#[test]
fn intersect_with_a_coplanar_ray() {
    let pl = plane();
    let r = Ray::new(p(0, 0, 0), v(0, 0, M));

    let xs = pl.intersect(&r);
    assert!(xs.is_empty());
}

#[test]
fn a_ray_intersecting_a_plane_from_above() {
    let pl = plane();
    let r = Ray::new(p(0, M, 0), v(0, -M, 0));

    let xs = pl.intersect(&r);
    assert_eq!(ts(&xs), vec![fx(M)]);
}

#[test]
fn a_ray_intersecting_a_plane_from_below() {
    let pl = plane();
    let r = Ray::new(p(0, -M, 0), v(0, M, 0));

    let xs = pl.intersect(&r);
    assert_eq!(ts(&xs), vec![fx(M)]);
}

#[test]
fn intersection_returns_color_and_normal_at_point() {
    let r = Ray::new(p(0, M, 0), v(0, -M, 0));
    let pl = plane();

    let xs = pl.intersect(&r);

    assert_eq!(xs.len(), 1);
    for x in xs {
        let point = r.position(x.t());
        let n = pl.normal_at(&point).unwrap();
        let c = pl.color_at(&point);
        assert_eq!(n.as_vec(), v(0, M, 0));
        assert_eq!(c, white());
    }
}

#[test]
fn a_ray_intersects_a_cube_from_each_side() {
    let c = cube();
    let cases = vec![
        (p(5 * M, 500_000, 0), v(-M, 0, 0)),
        (p(-5 * M, 500_000, 0), v(M, 0, 0)),
        (p(500_000, 5 * M, 0), v(0, -M, 0)),
        (p(500_000, -5 * M, 0), v(0, M, 0)),
        (p(500_000, 0, 5 * M), v(0, 0, -M)),
        (p(500_000, 0, -5 * M), v(0, 0, M)),
    ];
    for (origin, direction) in cases {
        let xs = c.intersect(&Ray::new(origin, direction));
        assert_eq!(ts(&xs), vec![fx(4 * M), fx(6 * M)]);
    }
}

#[test]
fn a_ray_intersects_a_cube_from_inside() {
    let c = cube();
    let xs = c.intersect(&Ray::new(p(0, 500_000, 0), v(0, 0, M)));
    assert_eq!(ts(&xs), vec![fx(-M), fx(M)]);
}

#[test]
fn a_ray_misses_a_cube() {
    let c = cube();
    let cases = vec![
        (p(-2 * M, 0, 0), v(267_300, 534_500, 801_800)),
        (p(0, -2 * M, 0), v(801_800, 267_300, 534_500)),
        (p(0, 0, -2 * M), v(534_500, 801_800, 267_300)),
        (p(2 * M, 0, 2 * M), v(0, 0, -M)),
        (p(0, 2 * M, 2 * M), v(0, -M, 0)),
        (p(2 * M, 2 * M, 0), v(-M, 0, 0)),
    ];
    for (origin, direction) in cases {
        let xs = c.intersect(&Ray::new(origin, direction));
        assert!(xs.is_empty());
    }
}

#[test]
fn the_normal_on_a_cube_points_along_the_largest_axis() {
    let c = cube();
    let cases = vec![
        (p(M, 500_000, -800_000), v(M, 0, 0)),
        (p(-M, -200_000, 900_000), v(-M, 0, 0)),
        (p(-400_000, M, -100_000), v(0, M, 0)),
        (p(300_000, -M, -700_000), v(0, -M, 0)),
        (p(-600_000, 300_000, M), v(0, 0, M)),
        (p(400_000, 400_000, -M), v(0, 0, -M)),
        (p(M, M, M), v(M, 0, 0)),
        (p(-M, -M, -M), v(-M, 0, 0)),
    ];
    for (point, expected) in cases {
        let n = c.normal_at(&point).unwrap();
        assert_eq!(n.as_vec(), expected);
    }
}

#[test]
fn material_of_transformed_object_is_material_of_child() {
    let shape = Sphere::unit();
    let child_id = shape.material().id;
    let transformed = Object::Transformed(Transformed::new(
        shape,
        InvertibleTransform::identity(),
    ));

    assert!(transformed.material().id == child_id);
}

#[test]
fn intersecting_scaled_shape_with_ray() {
    let r = Ray::new(p(0, 0, -5 * M), v(0, 0, M));
    let s = Object::Transformed(Transformed::new(
        Sphere::unit(),
        InvertibleTransform::try_new(scaling(fx(2 * M), fx(2 * M), fx(2 * M))).unwrap(),
    ));

    let xs = s.intersect(&r);

    assert_eq!(ts(&xs), vec![fx(3 * M), fx(7 * M)]);
}

#[test]
fn intersecting_translated_shape_with_ray() {
    let r = Ray::new(p(0, 0, -5 * M), v(0, 0, M));
    let s = Object::Transformed(Transformed::new(
        Sphere::unit(),
        InvertibleTransform::try_new(translation(fx(5 * M), fx(0), fx(0))).unwrap(),
    ));

    let xs = s.intersect(&r);

    assert!(xs.is_empty());
}

#[test]
fn a_twice_transformed_shape_should_apply_the_inner_transformation_first() {
    let r = Ray::new(p(0, 0, -10 * M), v(0, 0, M));
    let inner = Transformed::new(
        Sphere::unit(),
        InvertibleTransform::try_new(translation(fx(0), fx(0), fx(M))).unwrap(),
    );
    let outer = Object::Transformed(Transformed::new(
        Object::Transformed(inner),
        InvertibleTransform::try_new(scaling(fx(2 * M), fx(2 * M), fx(2 * M))).unwrap(),
    ));

    let xs = outer.intersect(&r);

    // Scaling halves the ray first, then the translation shifts it:
    // the sphere spans local z in [0, 2], so the world hits are at
    // z in [0, 4], i.e. t = 10 and t = 14.
    assert_eq!(ts(&xs), vec![fx(10 * M), fx(14 * M)]);
}

#[test]
fn intersections_of_a_transformed_shape_are_retagged_to_the_wrapper() {
    let r = Ray::new(p(0, 0, -5 * M), v(0, 0, M));
    let s = Object::Transformed(Transformed::new(
        Sphere::unit(),
        InvertibleTransform::try_new(scaling(fx(2 * M), fx(2 * M), fx(2 * M))).unwrap(),
    ));

    let xs = s.intersect(&r);

    assert_eq!(xs.len(), 2);
    assert!(std::ptr::eq(xs[0].object(), &s));
    assert!(std::ptr::eq(xs[1].object(), &s));
}

#[test]
fn color_at_with_an_object_transformation() {
    let mut material = Material::with_id(0);
    material.surface = Surface::Pattern(Pattern {
        transform: InvertibleTransform::identity(),
        kind: PatternKind::Stripe(white(), black()),
    });
    let shape = Object::Transformed(Transformed::new(
        Object::Sphere(Sphere { material, transform: InvertibleTransform::identity() }),
        InvertibleTransform::try_new(scaling(fx(2 * M), fx(2 * M), fx(2 * M))).unwrap(),
    ));

    // World x = 2.5 maps to local x = 1.25: the second stripe.
    assert_eq!(shape.color_at(&p(2_500_000, 0, 0)), black());
    // World x = 1.0 maps to local x = 0.5: the first stripe.
    assert_eq!(shape.color_at(&p(M, 0, 0)), white());
}

#[test]
fn color_at_with_an_object_transformation_and_a_pattern_transformation() {
    let mut material = Material::with_id(0);
    material.surface = Surface::Pattern(Pattern {
        transform: InvertibleTransform::try_new(translation(fx(500_000), fx(M), fx(1_500_000)))
            .unwrap(),
        kind: PatternKind::Stripe(white(), black()),
    });
    let shape = Object::Transformed(Transformed::new(
        Object::Sphere(Sphere { material, transform: InvertibleTransform::identity() }),
        InvertibleTransform::try_new(scaling(fx(2 * M), fx(2 * M), fx(2 * M))).unwrap(),
    ));

    // World x = 2.5 maps to local x = 1.25, then the pattern's own
    // translation takes it to 0.75: the first stripe.
    assert_eq!(shape.color_at(&p(2_500_000, 0, 0)), white());
    // World x = 3.5 maps to 1.75, then to 1.25: the second stripe.
    assert_eq!(shape.color_at(&p(3_500_000, 0, 0)), black());
}
