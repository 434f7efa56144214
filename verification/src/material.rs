//! Materials, surfaces, patterns, lights, and Phong shading.
//!
//! A [`Surface`] is either a flat color or a [`Pattern`], a
//! spatially varying color with its own nested transform. A
//! [`Material`] carries the shading coefficients and a stable
//! identifier: material equality is identity-based (two materials
//! with equal coefficients are unequal unless they share the
//! identifier), so a renderer can use a material as a stable key.

use vstd::prelude::*;
use crate::color::{
    black, col_add_val, col_mul_val, col_scale_val, col_within, lemma_col_mul_bound,
    lemma_col_scale_bound, Color, COLOR_LIMIT, COLOR_SCALE_LIMIT,
};
use crate::fx::{fmul, lemma_fmul_bound, pow_val, Fx, SCALE};
use crate::transform::{aff_pt_val, InvertibleTransform, APPLIED_LIMIT, MAT_LIMIT, WORLD_LIMIT};
use crate::tuple::{dot_val, lemma_dot_bound, pt_within, vec_within, Point3d, Vec3d};
use crate::vector::{
    norm_cand, norm_ok, reflect, reflect_val, DegenerateVectorError, NormalizedVec3d,
    COMP_LIMIT, NORM_LIMIT,
};

verus! {

/// Largest magnitude (in millionths) of a shading coefficient.
pub const COEFF_LIMIT: i128 = 10_000_000;

/// How a pattern varies over its local space.
#[derive(Clone, Copy, Debug)]
pub enum PatternKind {
    /// Alternating bands of the two colors along the x axis, one
    /// unit wide.
    Stripe(Color, Color),
    /// A blend from the first color to the second across each unit
    /// of the x axis, by the fractional part of x.
    Gradient(Color, Color),
    /// A three-dimensional checker: the parity of the summed unit
    /// cells along all three axes picks the color.
    Checkers(Color, Color),
}

/// A local-space point-to-color function with its own nested
/// transform, applied after the owning object's transform.
#[derive(Clone, Copy, Debug)]
pub struct Pattern {
    pub transform: InvertibleTransform,
    pub kind: PatternKind,
}

/// The gradient blend: `a + (b - a) * fraction`, channel by
/// channel, truncating.
pub open spec fn gradient_val(a: Color, b: Color, fr: int) -> Color {
    Color {
        red: Fx { bits: (a.red.v() + fmul(b.red.v() - a.red.v(), fr)) as i128 },
        green: Fx { bits: (a.green.v() + fmul(b.green.v() - a.green.v(), fr)) as i128 },
        blue: Fx { bits: (a.blue.v() + fmul(b.blue.v() - a.blue.v(), fr)) as i128 },
    }
}

/// The color a pattern yields at a point of its carrier's local
/// space: the point is first mapped into the pattern's own space.
pub open spec fn pattern_at_val(p: Pattern, pt: Point3d) -> Color {
    let lp = aff_pt_val(p.transform.inv(), pt);
    match p.kind {
        PatternKind::Stripe(a, b) => {
            if (lp.x.v() / (SCALE as int)) % 2 == 0 {
                a
            } else {
                b
            }
        },
        PatternKind::Gradient(a, b) => gradient_val(a, b, lp.x.v() % (SCALE as int)),
        PatternKind::Checkers(a, b) => {
            let cells = lp.x.v() / (SCALE as int) + lp.y.v() / (SCALE as int)
                + lp.z.v() / (SCALE as int);
            if cells % 2 == 0 {
                a
            } else {
                b
            }
        },
    }
}

/// A pattern is usable when its transform was validated and its
/// colors are within the shading range.
pub open spec fn pattern_wf(p: Pattern) -> bool {
    &&& p.transform.wf()
    &&& match p.kind {
        PatternKind::Stripe(a, b) => col_within(a, COLOR_LIMIT as int)
            && col_within(b, COLOR_LIMIT as int),
        PatternKind::Gradient(a, b) => col_within(a, COLOR_LIMIT as int)
            && col_within(b, COLOR_LIMIT as int),
        PatternKind::Checkers(a, b) => col_within(a, COLOR_LIMIT as int)
            && col_within(b, COLOR_LIMIT as int),
    }
}

impl Pattern {
    /// The pattern's color at a carrier-local point.
    pub fn at(&self, pt: &Point3d) -> (c: Color)
        requires
            pattern_wf(*self),
            pt_within(*pt, APPLIED_LIMIT as int),
        ensures
            c == pattern_at_val(*self, *pt),
    {
        let lp = self.transform.inverse().apply_pt_wide(pt);
        match &self.kind {
            PatternKind::Stripe(a, b) => {
                let f = lp.x.floor();
                if cell_parity_even(f) {
                    *a
                } else {
                    *b
                }
            },
            PatternKind::Gradient(a, b) => {
                let q = lp.x.floor();
                let fr = Fx { bits: lp.x.bits - q * SCALE };
                proof {
                    vstd::arithmetic::div_mod::lemma_fundamental_div_mod(lp.x.v(), SCALE as int);
                    vstd::arithmetic::div_mod::lemma_mod_division_less_than_divisor(
                        lp.x.v(), SCALE as int);
                    lemma_fmul_bound(b.red.v() - a.red.v(), fr.v(),
                        2 * COLOR_LIMIT as int, SCALE as int);
                    lemma_fmul_bound(b.green.v() - a.green.v(), fr.v(),
                        2 * COLOR_LIMIT as int, SCALE as int);
                    lemma_fmul_bound(b.blue.v() - a.blue.v(), fr.v(),
                        2 * COLOR_LIMIT as int, SCALE as int);
                }
                Color {
                    red: a.red.add(b.red.sub(a.red).mul(fr)),
                    green: a.green.add(b.green.sub(a.green).mul(fr)),
                    blue: a.blue.add(b.blue.sub(a.blue).mul(fr)),
                }
            },
            PatternKind::Checkers(a, b) => {
                let cells = lp.x.floor() + lp.y.floor() + lp.z.floor();
                if cell_parity_even(cells) {
                    *a
                } else {
                    *b
                }
            },
        }
    }
}

/// An object's color source: one flat color, or a pattern.
#[derive(Clone, Copy, Debug)]
pub enum Surface {
    Color(Color),
    Pattern(Pattern),
}

/// The surface's color at a local-space point.
pub open spec fn surface_color_val(s: Surface, p: Point3d) -> Color {
    match s {
        Surface::Color(c) => c,
        Surface::Pattern(pat) => pattern_at_val(pat, p),
    }
}

/// A surface is usable when its pattern (if any) is.
pub open spec fn surface_wf(s: Surface) -> bool {
    match s {
        Surface::Color(_) => true,
        Surface::Pattern(pat) => pattern_wf(pat),
    }
}

/// Whether a cell index is even, under the mathematical (Euclidean)
/// remainder.
fn cell_parity_even(cells: i128) -> (r: bool)
    requires
        cells != i128::MIN,
    ensures
        r == ((cells as int) % 2 == 0),
{
    proof {
        if cells < 0 {
            vstd::arithmetic::div_mod::lemma_fundamental_div_mod(cells as int, 2);
            vstd::arithmetic::div_mod::lemma_fundamental_div_mod(-(cells as int), 2);
        }
    }
    if cells >= 0 {
        cells % 2 == 0
    } else {
        (-cells) % 2 == 0
    }
}

impl Surface {
    /// The color of this surface at a local-space point.
    pub fn color_at(&self, point: &Point3d) -> (c: Color)
        requires
            surface_wf(*self),
            pt_within(*point, APPLIED_LIMIT as int),
        ensures
            c == surface_color_val(*self, *point),
    {
        match self {
            Surface::Color(c) => *c,
            Surface::Pattern(p) => p.at(point),
        }
    }
}

/// Per-object shading parameters. Equality is identity: it compares
/// the stable identifier, never the coefficient values.
#[derive(Clone, Copy, Debug)]
pub struct Material {
    /// Stable identity of this material; equality compares only
    /// this.
    pub id: u64,
    pub surface: Surface,
    pub ambient: Fx,
    pub diffuse: Fx,
    pub specular: Fx,
    /// The Phong exponent, a whole number.
    pub shininess: u32,
    pub reflectivity: Fx,
    pub transparency: Fx,
    pub refractive_index: Fx,
}

impl Material {
    /// A material with the default coefficients (flat white
    /// surface, ambient 0.1, diffuse 0.9, specular 0.9, shininess
    /// 200) under the given identity.
    pub fn with_id(id: u64) -> (r: Material)
        ensures
            r.id == id,
            r.surface is Color,
            surface_wf(r.surface),
            r.surface matches Surface::Color(c) ==> c.red.v() == SCALE
                && c.green.v() == SCALE && c.blue.v() == SCALE,
            r.ambient.v() == 100_000,
            r.diffuse.v() == 900_000,
            r.specular.v() == 900_000,
            r.shininess == 200,
            r.reflectivity.v() == 0,
            r.transparency.v() == 0,
            r.refractive_index.v() == SCALE,
    {
        Material {
            id,
            surface: Surface::Color(crate::color::white()),
            ambient: Fx { bits: 100_000 },
            diffuse: Fx { bits: 900_000 },
            specular: Fx { bits: 900_000 },
            shininess: 200,
            reflectivity: Fx { bits: 0 },
            transparency: Fx { bits: 0 },
            refractive_index: Fx { bits: SCALE },
        }
    }

    /// The coefficients are in the range the lighting function
    /// accepts.
    pub open spec fn coeffs_wf(self) -> bool {
        &&& 0 <= self.ambient.v() <= COEFF_LIMIT
        &&& 0 <= self.diffuse.v() <= COEFF_LIMIT
        &&& 0 <= self.specular.v() <= COEFF_LIMIT
    }
}

impl PartialEq for Material {
    /// Identity-based equality: same stable identifier.
    fn eq(&self, o: &Material) -> (r: bool) {
        self.id == o.id
    }
}

impl vstd::std_specs::cmp::PartialEqSpecImpl for Material {
    open spec fn obeys_eq_spec() -> bool {
        true
    }

    open spec fn eq_spec(&self, o: &Material) -> bool {
        self.id == o.id
    }
}

/// A point light: a position and an intensity color.
#[derive(Clone, Copy, Debug)]
pub struct PointLight {
    pub position: Point3d,
    pub intensity: Color,
}

/// The displacement from the shaded point to the light.
pub open spec fn light_dir_vec(l: PointLight, p: Point3d) -> Vec3d {
    Vec3d {
        x: Fx { bits: (l.position.x.v() - p.x.v()) as i128 },
        y: Fx { bits: (l.position.y.v() - p.y.v()) as i128 },
        z: Fx { bits: (l.position.z.v() - p.z.v()) as i128 },
    }
}

/// A zero color.
pub open spec fn black_val() -> Color {
    Color { red: Fx { bits: 0 }, green: Fx { bits: 0 }, blue: Fx { bits: 0 } }
}

/// The Phong shading formula, mirrored exactly: ambient is never
/// attenuated by shadow; diffuse and specular are scaled by the
/// shadow attenuation; a surface facing away from the light gets
/// neither.
pub open spec fn lighting_val(
    m: Material,
    p: Point3d,
    oc: Color,
    l: PointLight,
    eye: Vec3d,
    normal: Vec3d,
    att: int,
) -> Color {
    let eff = col_mul_val(oc, l.intensity);
    let lv = norm_cand(light_dir_vec(l, p));
    let ambient = col_scale_val(eff, m.ambient.v());
    let ldn = dot_val(lv, normal);
    let pair = if ldn < 0 {
        (black_val(), black_val())
    } else {
        let dif = col_scale_val(col_scale_val(col_scale_val(eff, m.diffuse.v()), ldn), att);
        let reflectv = crate::tuple::vec_neg_val(reflect_val(lv, normal));
        let rde = dot_val(reflectv, eye);
        let spc = if rde <= 0 {
            black_val()
        } else {
            let rc = if rde <= SCALE as int { rde } else { SCALE as int };
            let factor = pow_val(rc, m.shininess as nat);
            col_scale_val(l.intensity, fmul(fmul(m.specular.v(), factor), att))
        };
        (dif, spc)
    };
    col_add_val(col_add_val(ambient, pair.0), pair.1)
}

/// Phong lighting at a point: combines the material, the surface
/// color there, the light, the viewing geometry and a shadow
/// attenuation in `[0, 1]` into one color. Fails only when the
/// light sits (essentially) on the shaded point, so that the light
/// direction cannot be normalized.
pub fn lighting(
    material: &Material,
    point: &Point3d,
    object_color: &Color,
    light: &PointLight,
    eyev: &NormalizedVec3d,
    normalv: &NormalizedVec3d,
    shadow_attenuation: Fx,
) -> (r: Result<Color, DegenerateVectorError>)
    requires
        material.coeffs_wf(),
        pt_within(*point, WORLD_LIMIT as int),
        pt_within(light.position, WORLD_LIMIT as int),
        col_within(*object_color, COLOR_LIMIT as int),
        col_within(light.intensity, COLOR_LIMIT as int),
        eyev.wf(),
        normalv.wf(),
        0 <= shadow_attenuation.v() <= SCALE,
    ensures
        r is Ok <==> norm_ok(light_dir_vec(*light, *point)),
        r matches Ok(c) ==> c == lighting_val(
            *material, *point, *object_color, *light, eyev.v3(), normalv.v3(),
            shadow_attenuation.v(),
        ),
{
    let eff = object_color.mul(&light.intensity);
    proof {
        lemma_col_mul_bound(*object_color, light.intensity, COLOR_LIMIT as int, COLOR_LIMIT as int);
    }
    let lvv = light.position.sub(point);
    let lightv = match NormalizedVec3d::try_from(lvv) {
        Ok(n) => n,
        Err(e) => {
            return Err(e);
        },
    };
    let ambient = eff.scale(material.ambient);
    proof {
        lemma_col_scale_bound(eff, material.ambient.v(), 1_000_000_000_000int, COEFF_LIMIT as int);
    }
    let ldn = lightv.dot(normalv);
    proof {
        lemma_dot_bound(lightv.v3(), normalv.v3(), COMP_LIMIT as int, COMP_LIMIT as int);
    }
    let (diffuse, specular) = if ldn.bits < 0 {
        (black(), black())
    } else {
        let d1 = eff.scale(material.diffuse);
        proof {
            lemma_col_scale_bound(eff, material.diffuse.v(), 1_000_000_000_000int, COEFF_LIMIT as int);
        }
        let d2 = d1.scale(ldn);
        proof {
            lemma_col_scale_bound(d1, ldn.v(), 10_000_000_000_000int, 12_000_000int);
        }
        let d3 = d2.scale(shadow_attenuation);
        proof {
            lemma_col_scale_bound(d2, shadow_attenuation.v(), 120_000_000_000_000int, SCALE as int);
        }
        let lvec = lightv.as_vec();
        let refl = reflect(&lvec, normalv);
        proof {
            let d2v = 2 * dot_val(lightv.v3(), normalv.v3());
            lemma_fmul_bound(normalv.v3().x.v(), d2v, COMP_LIMIT as int, 24_000_000int);
            lemma_fmul_bound(normalv.v3().y.v(), d2v, COMP_LIMIT as int, 24_000_000int);
            lemma_fmul_bound(normalv.v3().z.v(), d2v, COMP_LIMIT as int, 24_000_000int);
        }
        let reflectv = refl.neg();
        let rde = reflectv.dot(&eyev.as_vec());
        proof {
            lemma_dot_bound(reflectv, eyev.v3(), 50_000_000int, COMP_LIMIT as int);
        }
        let spec_col = if rde.bits <= 0 {
            black()
        } else {
            let rc = if rde.bits <= SCALE {
                rde
            } else {
                Fx { bits: SCALE }
            };
            let factor = rc.powi(material.shininess);
            let s1 = material.specular.mul(factor);
            proof {
                lemma_fmul_bound(material.specular.v(), factor.v(), COEFF_LIMIT as int, SCALE as int);
            }
            let s2 = s1.mul(shadow_attenuation);
            proof {
                lemma_fmul_bound(s1.v(), shadow_attenuation.v(), COEFF_LIMIT as int, SCALE as int);
            }
            let sc = light.intensity.scale(s2);
            proof {
                lemma_col_scale_bound(light.intensity, s2.v(), COLOR_LIMIT as int, COEFF_LIMIT as int);
            }
            sc
        };
        (d3, spec_col)
    };
    Ok(ambient.add(&diffuse).add(&specular))
}

} // verus!
