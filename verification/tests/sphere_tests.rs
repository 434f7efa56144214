//! Rays against the canonical unit sphere.

use ray_tracer::fx::Fx;
use ray_tracer::ray::Ray;
use ray_tracer::sphere::Sphere;
use ray_tracer::tuple::{Point3d, Vec3d};

const M: i128 = 1_000_000;

fn p(x: i128, y: i128, z: i128) -> Point3d {
    Point3d::new(Fx::from_units(x), Fx::from_units(y), Fx::from_units(z))
}

fn v(x: i128, y: i128, z: i128) -> Vec3d {
    Vec3d::new(Fx::from_units(x), Fx::from_units(y), Fx::from_units(z))
}

#[test]
fn a_ray_intersects_a_sphere_at_two_points() {
    let r = Ray::new(p(0, 0, -5 * M), v(0, 0, M));
    let s = Sphere::new();

    let xs = s.intersect(&r);

    assert_eq!(xs, Some((Fx::from_units(4 * M), Fx::from_units(6 * M))));
}

#[test]
fn a_ray_intersects_a_sphere_at_a_tangent() {
    let r = Ray::new(p(0, M, -5 * M), v(0, 0, M));
    let s = Sphere::new();

    let xs = s.intersect(&r);

    assert_eq!(xs, Some((Fx::from_units(5 * M), Fx::from_units(5 * M))));
}

#[test]
fn sphere_a_ray_misses_a_sphere() {
    let r = Ray::new(p(0, 2 * M, -5 * M), v(0, 0, M));
    let s = Sphere::new();

    let xs = s.intersect(&r);

    assert_eq!(xs, None);
}

#[test]
fn a_ray_originates_inside_a_sphere() {
    let r = Ray::new(p(0, 0, 0), v(0, 0, M));
    let s = Sphere::new();

    let xs = s.intersect(&r);

    assert_eq!(xs, Some((Fx::from_units(-M), Fx::from_units(M))));
}

#[test]
fn a_sphere_is_behind_a_ray() {
    let r = Ray::new(p(0, 0, 5 * M), v(0, 0, M));
    let s = Sphere::new();

    let xs = s.intersect(&r);

    assert_eq!(xs, Some((Fx::from_units(-6 * M), Fx::from_units(-4 * M))));
}
