//! Intersection records, hit selection, and precomputation.

use ray_tracer::fx::Fx;
use ray_tracer::intersect::{hit, Intersection, SHADOW_BIAS};
use ray_tracer::material::Material;
use ray_tracer::object::{Object, Sphere};
use ray_tracer::ray::Ray;
use ray_tracer::transform::{translation, InvertibleTransform};
use ray_tracer::tuple::{Point3d, Vec3d};

const M: i128 = 1_000_000;

fn fx(units: i128) -> Fx {
    Fx::from_units(units)
}

fn p(x: i128, y: i128, z: i128) -> Point3d {
    Point3d::new(fx(x), fx(y), fx(z))
}

fn v(x: i128, y: i128, z: i128) -> Vec3d {
    Vec3d::new(fx(x), fx(y), fx(z))
}

#[test]
fn an_intersection_encapsulates_t_and_object() {
    let s = Sphere::unit();

    let i = Intersection::new(fx(3_500_000), &s);

    assert_eq!(i.t(), fx(3_500_000));
    assert!(std::ptr::eq(i.object(), &s));
}

#[test]
fn hit_when_all_intersections_have_positive_t() {
    let s = Sphere::unit();
    let i1 = Intersection::new(fx(M), &s);
    let i2 = Intersection::new(fx(2 * M), &s);
    let xs = vec![i2.clone(), i1.clone()];

    let i = hit(&xs);

    assert_eq!(i, Some(&i1));
}

#[test]
fn hit_when_some_intersections_have_negative_t() {
    let s = Sphere::unit();
    let i1 = Intersection::new(fx(-M), &s);
    let i2 = Intersection::new(fx(M), &s);
    let xs = vec![i2.clone(), i1.clone()];

    let i = hit(&xs);

    assert_eq!(i, Some(&i2));
}

#[test]
fn hit_when_all_intersections_have_negative_t() {
    let s = Sphere::unit();
    let i1 = Intersection::new(fx(-2 * M), &s);
    let i2 = Intersection::new(fx(-M), &s);
    let xs = vec![i2.clone(), i1.clone()];

    let i = hit(&xs);

    assert_eq!(i, None);
}

#[test]
fn hit_is_always_lowest_nonnegative_intersection() {
    let s = Sphere::unit();
    let i1 = Intersection::new(fx(5 * M), &s);
    let i2 = Intersection::new(fx(7 * M), &s);
    let i3 = Intersection::new(fx(-3 * M), &s);
    let i4 = Intersection::new(fx(2 * M), &s);
    let xs = vec![i1.clone(), i2.clone(), i3.clone(), i4.clone()];

    let i = hit(&xs);

    assert_eq!(i, Some(&i4));
}

#[test]
fn precomputing_the_state_of_an_intersection() {
    let r = Ray::new(p(0, 0, -5 * M), v(0, 0, M));
    let s = Sphere::unit();
    let i = Intersection::new(fx(4 * M), &s);

    let comps = i.prepare_computations(&r).unwrap();

    assert_eq!(comps.t, i.t());
    assert!(std::ptr::eq(comps.object, i.object()));
    assert_eq!(comps.point, p(0, 0, -M));
    assert_eq!(comps.eye_v.as_vec(), v(0, 0, -M));
    assert_eq!(comps.normal_v.as_vec(), v(0, 0, -M));
}

#[test]
fn hit_when_an_intersection_occurs_on_the_outside() {
    let r = Ray::new(p(0, 0, -5 * M), v(0, 0, M));
    let s = Sphere::unit();
    let i = Intersection::new(fx(4 * M), &s);

    let comps = i.prepare_computations(&r).unwrap();

    assert_eq!(comps.inside, false);
}

#[test]
fn hit_when_an_intersection_occurs_on_the_inside() {
    let r = Ray::new(p(0, 0, 0), v(0, 0, M));
    let s = Sphere::unit();
    let i = Intersection::new(fx(M), &s);

    let comps = i.prepare_computations(&r).unwrap();

    assert_eq!(comps.point, p(0, 0, M));
    assert_eq!(comps.eye_v.as_vec(), v(0, 0, -M));
    assert_eq!(comps.inside, true);
    assert_eq!(comps.normal_v.as_vec(), v(0, 0, -M));
}

#[test]
fn the_hit_should_offset_the_point() {
    let r = Ray::new(p(0, 0, -5 * M), v(0, 0, M));
    let shape = Object::Sphere(Sphere {
        material: Material::with_id(1),
        transform: InvertibleTransform::try_new(translation(fx(0), fx(0), fx(M))).unwrap(),
    });
    let i = Intersection::new(fx(5 * M), &shape);

    let comps = i.prepare_computations(&r).unwrap();

    assert!(comps.over_point.z().bits < -SHADOW_BIAS / 2);
    assert!(comps.point.z().bits > comps.over_point.z().bits);
}

#[test]
fn hit_prefers_the_first_of_equal_parameters() {
    let s1 = Sphere::unit();
    let s2 = Object::Sphere(Sphere {
        material: Material::with_id(9),
        transform: InvertibleTransform::identity(),
    });
    let i1 = Intersection::new(fx(2 * M), &s1);
    let i2 = Intersection::new(fx(2 * M), &s2);
    let xs = vec![i1.clone(), i2.clone()];

    let i = hit(&xs).unwrap();

    assert!(std::ptr::eq(i.object(), &s1));
}

#[test]
fn intersections_are_equal_up_to_tolerance_and_object() {
    let s = Sphere::unit();
    let a = Intersection::new(fx(2 * M), &s);
    let b = Intersection::new(fx(2 * M + 5), &s);
    let c = Intersection::new(fx(2 * M + 500), &s);

    assert!(a == b);
    assert!(a != c);
}
