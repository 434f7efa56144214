//! The single-primitive sphere tracer with interval-restricted
//! hits.

use ray_tracer::fx::Fx;
use ray_tracer::hittable::{Center, Face, Interval, Sphere};
use ray_tracer::ray::Ray;
use ray_tracer::tuple::{Point3d, Vec3d};

const M: i128 = 1_000_000;

fn fx(units: i128) -> Fx {
    Fx::from_units(units)
}

fn p(x: i128, y: i128, z: i128) -> Point3d {
    Point3d::new(fx(x), fx(y), fx(z))
}

fn v(x: i128, y: i128, z: i128) -> Vec3d {
    Vec3d::new(fx(x), fx(y), fx(z))
}

fn test_sphere() -> Sphere<i32> {
    Sphere { center: Center::Stationary(p(0, 0, 0)), radius: fx(M), material: 7 }
}

#[test]
fn a_ray_misses_a_sphere() {
    let sphere = test_sphere();
    let ray = Ray::new(p(0, 2 * M, 5 * M), v(0, 0, -M));

    assert!(sphere.hit(&ray, &Interval::nonnegative(), fx(0)).is_none());
}

#[test]
fn a_ray_is_tangent_to_a_sphere() {
    let sphere = test_sphere();
    let ray = Ray::new(p(0, M, 5 * M), v(0, 0, -M));

    let hit = sphere.hit(&ray, &Interval::nonnegative(), fx(0)).unwrap().1;

    assert_eq!(hit.t, fx(5 * M));
    assert_eq!(hit.face, Face::Front);
    assert_eq!(hit.normal, v(0, M, 0));
}

#[test]
fn a_ray_goes_through_a_sphere() {
    let sphere = test_sphere();
    let ray = Ray::new(p(0, 0, 5 * M), v(0, 0, -M));

    let hit = sphere.hit(&ray, &Interval::nonnegative(), fx(0)).unwrap().1;

    assert_eq!(hit.t, fx(4 * M));
    assert_eq!(hit.face, Face::Front);
    assert_eq!(hit.normal, v(0, 0, M));
}

#[test]
fn a_ray_starts_inside_a_sphere() {
    let sphere = test_sphere();
    let ray = Ray::new(p(0, 0, 0), v(0, 0, -M));

    let hit = sphere.hit(&ray, &Interval::nonnegative(), fx(0)).unwrap().1;

    assert_eq!(hit.t, fx(M));
    assert_eq!(hit.face, Face::Back);
    assert_eq!(hit.normal, v(0, 0, M));
}

#[test]
fn a_ray_intersects_a_sphere_outside_the_interval() {
    let sphere = test_sphere();
    let ray = Ray::new(p(0, 0, 5 * M), v(0, 0, -M));

    let hit = sphere.hit(&ray, &Interval { min: fx(0), max: fx(M) }, fx(0));

    assert!(hit.is_none());
}

#[test]
fn a_ray_intersects_a_sphere_bounding_the_interval() {
    let sphere = test_sphere();
    let ray = Ray::new(p(0, 0, 5 * M), v(0, 0, -M));

    let hit = sphere.hit(&ray, &Interval { min: fx(0), max: fx(4 * M) }, fx(0));

    assert_eq!(hit.map(|h| h.1.t), Some(fx(4 * M)));
}

#[test]
fn a_moving_sphere_is_hit_where_its_center_is() {
    let sphere = Sphere {
        center: Center::Moving(p(0, 0, 0), p(2 * M, 0, 0)),
        radius: fx(M),
        material: 7,
    };
    let ray = Ray::new(p(2 * M, 0, 5 * M), v(0, 0, -M));

    // At time 1 the center sits at x = 2, straight in this ray's
    // path.
    let hit = sphere.hit(&ray, &Interval::nonnegative(), fx(M)).unwrap().1;
    assert_eq!(hit.t, fx(4 * M));

    // At time 0 it is back at the origin, two units off the path.
    assert!(sphere.hit(&ray, &Interval::nonnegative(), fx(0)).is_none());
}
