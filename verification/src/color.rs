//! Colors as red/green/blue intensities.
//!
//! Values are left unclamped: clamping to a displayable range is
//! the output collaborator's concern, not this library's.

use vstd::prelude::*;
use crate::fx::{fmul, lemma_fmul_bound, Fx};

verus! {

/// Largest channel magnitude (in millionths) the color operations
/// accept.
pub const COLOR_LIMIT: i128 = 1_000_000_000;

/// Largest channel or scalar magnitude the scaling operations
/// accept (intermediate shading terms stay well below it).
pub const COLOR_SCALE_LIMIT: i128 = 1_000_000_000_000_000;

/// Bounded channels give a bounded componentwise product.
pub proof fn lemma_col_mul_bound(a: Color, b: Color, am: int, bm: int)
    requires
        col_within(a, am),
        col_within(b, bm),
    ensures
        col_within(col_mul_val(a, b), (am * bm) / (crate::fx::SCALE as int)),
{
    lemma_fmul_bound(a.red.v(), b.red.v(), am, bm);
    lemma_fmul_bound(a.green.v(), b.green.v(), am, bm);
    lemma_fmul_bound(a.blue.v(), b.blue.v(), am, bm);
}

/// Bounded channels and scalar give a bounded scaled color.
pub proof fn lemma_col_scale_bound(c: Color, s: int, cm: int, sm: int)
    requires
        col_within(c, cm),
        -sm <= s <= sm,
    ensures
        col_within(col_scale_val(c, s), (cm * sm) / (crate::fx::SCALE as int)),
{
    lemma_fmul_bound(c.red.v(), s, cm, sm);
    lemma_fmul_bound(c.green.v(), s, cm, sm);
    lemma_fmul_bound(c.blue.v(), s, cm, sm);
}

/// An RGB intensity triple.
#[derive(Clone, Copy, Debug, PartialEq, Eq, Structural)]
pub struct Color {
    pub red: Fx,
    pub green: Fx,
    pub blue: Fx,
}

/// All three channels are within `m` millionths.
pub open spec fn col_within(c: Color, m: int) -> bool {
    &&& -m <= c.red.v() <= m
    &&& -m <= c.green.v() <= m
    &&& -m <= c.blue.v() <= m
}

/// Componentwise (Hadamard) product of two colors.
pub open spec fn col_mul_val(a: Color, b: Color) -> Color {
    Color {
        red: Fx { bits: fmul(a.red.v(), b.red.v()) as i128 },
        green: Fx { bits: fmul(a.green.v(), b.green.v()) as i128 },
        blue: Fx { bits: fmul(a.blue.v(), b.blue.v()) as i128 },
    }
}

/// A color scaled by a scalar.
pub open spec fn col_scale_val(c: Color, s: int) -> Color {
    Color {
        red: Fx { bits: fmul(c.red.v(), s) as i128 },
        green: Fx { bits: fmul(c.green.v(), s) as i128 },
        blue: Fx { bits: fmul(c.blue.v(), s) as i128 },
    }
}

/// Componentwise sum of two colors.
pub open spec fn col_add_val(a: Color, b: Color) -> Color {
    Color {
        red: Fx { bits: (a.red.v() + b.red.v()) as i128 },
        green: Fx { bits: (a.green.v() + b.green.v()) as i128 },
        blue: Fx { bits: (a.blue.v() + b.blue.v()) as i128 },
    }
}

impl Color {
    pub fn new(red: Fx, green: Fx, blue: Fx) -> (r: Color)
        ensures
            r == (Color { red, green, blue }),
    {
        Color { red, green, blue }
    }

    /// Componentwise product, truncating.
    pub fn mul(&self, o: &Color) -> (r: Color)
        requires
            col_within(*self, COLOR_SCALE_LIMIT as int),
            col_within(*o, COLOR_SCALE_LIMIT as int),
        ensures
            r == col_mul_val(*self, *o),
    {
        proof {
            lemma_fmul_bound(self.red.v(), o.red.v(), COLOR_SCALE_LIMIT as int, COLOR_SCALE_LIMIT as int);
            lemma_fmul_bound(self.green.v(), o.green.v(), COLOR_SCALE_LIMIT as int, COLOR_SCALE_LIMIT as int);
            lemma_fmul_bound(self.blue.v(), o.blue.v(), COLOR_SCALE_LIMIT as int, COLOR_SCALE_LIMIT as int);
        }
        Color { red: self.red.mul(o.red), green: self.green.mul(o.green), blue: self.blue.mul(o.blue) }
    }

    /// Scaling by a scalar, truncating.
    pub fn scale(&self, s: Fx) -> (r: Color)
        requires
            col_within(*self, COLOR_SCALE_LIMIT as int),
            -COLOR_SCALE_LIMIT <= s.v() <= COLOR_SCALE_LIMIT,
        ensures
            r == col_scale_val(*self, s.v()),
    {
        proof {
            lemma_fmul_bound(self.red.v(), s.v(), COLOR_SCALE_LIMIT as int, COLOR_SCALE_LIMIT as int);
            lemma_fmul_bound(self.green.v(), s.v(), COLOR_SCALE_LIMIT as int, COLOR_SCALE_LIMIT as int);
            lemma_fmul_bound(self.blue.v(), s.v(), COLOR_SCALE_LIMIT as int, COLOR_SCALE_LIMIT as int);
        }
        Color { red: self.red.mul(s), green: self.green.mul(s), blue: self.blue.mul(s) }
    }

    /// Componentwise sum, exact.
    pub fn add(&self, o: &Color) -> (r: Color)
        requires
            i128::MIN <= self.red.v() + o.red.v() <= i128::MAX,
            i128::MIN <= self.green.v() + o.green.v() <= i128::MAX,
            i128::MIN <= self.blue.v() + o.blue.v() <= i128::MAX,
        ensures
            r == col_add_val(*self, *o),
    {
        Color { red: self.red.add(o.red), green: self.green.add(o.green), blue: self.blue.add(o.blue) }
    }
}

/// Pure black.
pub fn black() -> (r: Color)
    ensures
        r.red.v() == 0 && r.green.v() == 0 && r.blue.v() == 0,
{
    Color { red: Fx { bits: 0 }, green: Fx { bits: 0 }, blue: Fx { bits: 0 } }
}

/// Pure white.
pub fn white() -> (r: Color)
    ensures
        r.red.v() == crate::fx::SCALE && r.green.v() == crate::fx::SCALE
            && r.blue.v() == crate::fx::SCALE,
{
    let one = Fx { bits: crate::fx::SCALE };
    Color { red: one, green: one, blue: one }
}

} // verus!
