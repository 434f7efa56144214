//! Materials and the Phong lighting function.

use ray_tracer::color::{black, white, Color};
use ray_tracer::fx::{Fx, SCALE};
use ray_tracer::material::{lighting, Material, Pattern, PatternKind, PointLight, Surface};
use ray_tracer::transform::InvertibleTransform;
use ray_tracer::tuple::Point3d;
use ray_tracer::vector::NormalizedVec3d;

const M: i128 = 1_000_000;

fn fx(units: i128) -> Fx {
    Fx::from_units(units)
}

fn p(x: i128, y: i128, z: i128) -> Point3d {
    Point3d::new(fx(x), fx(y), fx(z))
}

fn color(r: i128, g: i128, b: i128) -> Color {
    Color::new(fx(r), fx(g), fx(b))
}

fn unit(x: i128, y: i128, z: i128) -> NormalizedVec3d {
    NormalizedVec3d::new(fx(x), fx(y), fx(z)).unwrap()
}

fn assert_colors_close(a: &Color, b: &Color, tolerance: i128) {
    assert!((a.red.bits - b.red.bits).abs() <= tolerance, "red: {:?} vs {:?}", a, b);
    assert!((a.green.bits - b.green.bits).abs() <= tolerance, "green: {:?} vs {:?}", a, b);
    assert!((a.blue.bits - b.blue.bits).abs() <= tolerance, "blue: {:?} vs {:?}", a, b);
}

#[test]
fn the_default_material() {
    let m = Material::with_id(0);

    assert!(matches!(m.surface, Surface::Color(c) if c == white()));
    assert_eq!(m.ambient, fx(100_000));
    assert_eq!(m.diffuse, fx(900_000));
    assert_eq!(m.specular, fx(900_000));
    assert_eq!(m.shininess, 200);
    assert_eq!(m.reflectivity, fx(0));
    assert_eq!(m.transparency, fx(0));
    assert_eq!(m.refractive_index, fx(M));
}

#[test]
fn material_equality_is_referenced_based() {
    let m1 = Material::with_id(1);
    let m1_ref = &m1;
    let m2_ref = &m1;

    assert!(m1_ref == m2_ref);

    let m2 = Material::with_id(2);

    assert!(m1 != m2);
}

fn setup() -> (Material, Point3d) {
    (Material::with_id(0), p(0, 0, 0))
}

#[test]
fn lighting_with_eye_between_light_and_surface() {
    let (m, position) = setup();
    let eyev = unit(0, 0, -M);
    let normalv = unit(0, 0, -M);
    let light = PointLight { position: p(0, 0, -10 * M), intensity: white() };

    let result = lighting(
        &m,
        &position,
        &m.surface.color_at(&position),
        &light,
        &eyev,
        &normalv,
        fx(M),
    )
    .unwrap();
    assert_eq!(result, color(1_900_000, 1_900_000, 1_900_000));
}

#[test]
fn lighting_with_eye_between_light_and_surface_eye_offset_45_degrees() {
    let (m, position) = setup();
    let t: i128 = 707_107;
    let eyev = unit(0, t, -t);
    let normalv = unit(0, 0, -M);
    let light = PointLight { position: p(0, 0, -10 * M), intensity: white() };

    let result = lighting(
        &m,
        &position,
        &m.surface.color_at(&position),
        &light,
        &eyev,
        &normalv,
        fx(M),
    )
    .unwrap();
    assert_eq!(result, color(M, M, M));
}

#[test]
fn lighting_with_eye_opposite_surface_light_offset_45_degrees() {
    let (m, position) = setup();
    let eyev = unit(0, 0, -M);
    let normalv = unit(0, 0, -M);
    let light = PointLight { position: p(0, 10 * M, -10 * M), intensity: white() };

    let result = lighting(
        &m,
        &position,
        &m.surface.color_at(&position),
        &light,
        &eyev,
        &normalv,
        fx(M),
    )
    .unwrap();
    assert_colors_close(&result, &color(736_400, 736_400, 736_400), 1_000);
}

#[test]
fn lighting_with_eye_in_path_of_reflection_vector() {
    let (m, position) = setup();
    let t: i128 = 707_107;
    let eyev = unit(0, -t, -t);
    let normalv = unit(0, 0, -M);
    let light = PointLight { position: p(0, 10 * M, -10 * M), intensity: white() };

    let result = lighting(
        &m,
        &position,
        &m.surface.color_at(&position),
        &light,
        &eyev,
        &normalv,
        fx(M),
    )
    .unwrap();
    assert_colors_close(&result, &color(1_636_400, 1_636_400, 1_636_400), 1_000);
}

#[test]
fn lighting_with_light_behind_surface() {
    let (m, position) = setup();
    let eyev = unit(0, 0, -M);
    let normalv = unit(0, 0, -M);
    let light = PointLight { position: p(0, 0, 10 * M), intensity: white() };

    let result = lighting(
        &m,
        &position,
        &m.surface.color_at(&position),
        &light,
        &eyev,
        &normalv,
        fx(M),
    )
    .unwrap();
    assert_eq!(result, color(100_000, 100_000, 100_000));
}

#[test]
fn lighting_with_surface_in_shadow() {
    let (m, position) = setup();
    let eyev = unit(0, 0, -M);
    let normalv = unit(0, 0, -M);
    let light = PointLight { position: p(0, 0, -10 * M), intensity: white() };

    let result = lighting(
        &m,
        &position,
        &m.surface.color_at(&position),
        &light,
        &eyev,
        &normalv,
        fx(0),
    )
    .unwrap();
    assert_eq!(result, color(100_000, 100_000, 100_000));
}

#[test]
fn lighting_with_a_pattern_applied() {
    let mut m = Material::with_id(0);
    m.surface = Surface::Pattern(Pattern {
        transform: InvertibleTransform::identity(),
        kind: PatternKind::Stripe(white(), black()),
    });
    m.ambient = fx(M);
    m.diffuse = fx(0);
    m.specular = fx(0);
    let eyev = unit(0, 0, -M);
    let normalv = unit(0, 0, -M);
    let light = PointLight { position: p(0, 0, -10 * M), intensity: white() };

    let p1 = p(900_000, 0, 0);
    let c1 = lighting(&m, &p1, &m.surface.color_at(&p1), &light, &eyev, &normalv, fx(M)).unwrap();
    let p2 = p(1_100_000, 0, 0);
    let c2 = lighting(&m, &p2, &m.surface.color_at(&p2), &light, &eyev, &normalv, fx(M)).unwrap();

    assert_eq!(c1, white());
    assert_eq!(c2, black());
}

#[test]
fn lighting_fails_when_the_light_sits_on_the_point() {
    let (m, position) = setup();
    let eyev = unit(0, 0, -M);
    let normalv = unit(0, 0, -M);
    let light = PointLight { position: p(0, 0, 0), intensity: white() };

    let result = lighting(
        &m,
        &position,
        &m.surface.color_at(&position),
        &light,
        &eyev,
        &normalv,
        fx(M),
    );
    assert!(result.is_err());
}

#[test]
fn normalizing_a_near_zero_vector_is_rejected() {
    assert!(NormalizedVec3d::new(fx(0), fx(0), fx(0)).is_err());
    assert!(NormalizedVec3d::new(fx(500), fx(0), fx(0)).is_err());
}

#[test]
fn a_gradient_blends_by_the_fractional_part_of_x() {
    let pat = Pattern {
        transform: InvertibleTransform::identity(),
        kind: PatternKind::Gradient(black(), white()),
    };
    assert_eq!(pat.at(&p(0, 0, 0)), black());
    assert_eq!(pat.at(&p(250_000, 0, 0)), color(250_000, 250_000, 250_000));
    assert_eq!(pat.at(&p(750_000, 0, 0)), color(750_000, 750_000, 750_000));
    assert_eq!(pat.at(&p(M + 250_000, 0, 0)), color(250_000, 250_000, 250_000));
}

#[test]
fn checkers_alternate_in_all_three_dimensions() {
    let pat = Pattern {
        transform: InvertibleTransform::identity(),
        kind: PatternKind::Checkers(white(), black()),
    };
    assert_eq!(pat.at(&p(0, 0, 0)), white());
    assert_eq!(pat.at(&p(1_100_000, 0, 0)), black());
    assert_eq!(pat.at(&p(0, 1_100_000, 0)), black());
    assert_eq!(pat.at(&p(0, 0, 1_100_000)), black());
    assert_eq!(pat.at(&p(1_100_000, 1_100_000, 0)), white());
    assert_eq!(pat.at(&p(-500_000, 0, 0)), black());
}

#[test]
fn stripes_alternate_with_the_floor_parity_of_x() {
    let pat = Pattern {
        transform: InvertibleTransform::identity(),
        kind: PatternKind::Stripe(white(), black()),
    };
    assert_eq!(pat.at(&p(0, 0, 0)), white());
    assert_eq!(pat.at(&p(M + 1, 0, 0)), black());
    assert_eq!(pat.at(&p(2 * M, 0, 0)), white());
    assert_eq!(pat.at(&p(-500_000, 0, 0)), black());
}
