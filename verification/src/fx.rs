//! Exact fixed-point scalars.
//!
//! A [`Fx`] carries a real quantity as a signed count of millionths
//! (`bits`), so `1.0` is `SCALE` units. Addition, subtraction,
//! comparison, `min`/`max` and negation are exact; multiplication,
//! division and square root round toward zero by exactly one unit at
//! most, and their contracts state the rounded value precisely via
//! [`tdiv`], [`fmul`], [`fdiv`] and [`sqrt_val`].

use vstd::prelude::*;
use vstd::arithmetic::div_mod::{
    lemma_div_is_ordered, lemma_div_multiples_vanish, lemma_div_nonincreasing,
    lemma_div_pos_is_pos,
};

verus! {

/// Fixed-point units per 1.0.
pub const SCALE: i128 = 1_000_000;

/// Largest magnitude (in units) either factor of a product may have:
/// the raw `i128` product of two such factors cannot overflow.
pub const FACTOR_LIMIT: i128 = 13_000_000_000_000_000_000;

/// Largest magnitude (in units) a dividend may have: scaling it by
/// `SCALE` before the division cannot overflow an `i128`.
pub const DIVIDEND_LIMIT: i128 = 100_000_000_000_000_000_000_000_000_000_000;

/// Absolute tolerance (in units) of the tolerant comparison
/// [`are_equal`]: one-unit rounding steps of a short computation
/// chain stay within it.
pub const CMP_EPS: i128 = 8;

/// Magnitude of an integer.
pub open spec fn iabs(a: int) -> int {
    if a >= 0 {
        a
    } else {
        -a
    }
}

/// Quotient for a positive divisor, rounded toward zero.
pub open spec fn tdiv_pos(a: int, b: int) -> int {
    if a >= 0 {
        a / b
    } else {
        -((-a) / b)
    }
}

/// Quotient rounded toward zero (truncation), for any divisor except 0.
pub open spec fn tdiv(a: int, b: int) -> int {
    if b < 0 {
        tdiv_pos(-a, -b)
    } else {
        tdiv_pos(a, b)
    }
}

/// The fixed-point product: exact product of the unit counts,
/// rescaled with truncation.
pub open spec fn fmul(a: int, b: int) -> int {
    tdiv(a * b, SCALE as int)
}

/// The fixed-point quotient: dividend rescaled, then divided with
/// truncation.
pub open spec fn fdiv(a: int, b: int) -> int {
    tdiv(a * SCALE, b)
}

/// Floor of the integer square root, defined by counting up.
pub open spec fn sqrt_val(n: nat) -> nat
    decreases n,
{
    if n == 0 {
        0
    } else {
        let r = sqrt_val((n - 1) as nat);
        if (r + 1) * (r + 1) <= n {
            r + 1
        } else {
            r
        }
    }
}

/// `sqrt_val(n)` is the unique `r` with `r * r <= n < (r + 1) * (r + 1)`.
pub proof fn lemma_sqrt_val_bounds(n: nat)
    ensures
        sqrt_val(n) * sqrt_val(n) <= n,
        n < (sqrt_val(n) + 1) * (sqrt_val(n) + 1),
    decreases n,
{
    let s = sqrt_val(n);
    if n == 0 {
        assert(s * s <= n && n < (s + 1) * (s + 1)) by (nonlinear_arith)
            requires s == 0, n == 0;
    } else {
        lemma_sqrt_val_bounds((n - 1) as nat);
        let r = sqrt_val((n - 1) as nat);
        assert(r * r <= n - 1);
        assert(n - 1 < (r + 1) * (r + 1));
        if (r + 1) * (r + 1) <= n {
            assert(s == r + 1);
            assert(n == (r + 1) * (r + 1));
            assert(s * s <= n && n < (s + 1) * (s + 1)) by (nonlinear_arith)
                requires s == r + 1, n == (r + 1) * (r + 1);
        } else {
            assert(s == r);
            assert(s * s <= n && n < (s + 1) * (s + 1)) by (nonlinear_arith)
                requires s == r, r * r <= n - 1, n < (r + 1) * (r + 1);
        }
    }
}

/// Any `r` meeting the square-root bracketing equals `sqrt_val(n)`.
pub proof fn lemma_sqrt_val_unique(n: nat, r: nat)
    requires
        r * r <= n,
        n < (r + 1) * (r + 1),
    ensures
        r == sqrt_val(n),
{
    lemma_sqrt_val_bounds(n);
    let s = sqrt_val(n);
    if r < s {
        assert((r + 1) * (r + 1) <= s * s) by (nonlinear_arith)
            requires r + 1 <= s;
    }
    if s < r {
        assert((s + 1) * (s + 1) <= r * r) by (nonlinear_arith)
            requires s + 1 <= r;
    }
}

/// An upper bracket for the integer square root: if `n < m * m`
/// then the root is below `m`.
pub proof fn lemma_sqrt_val_le(n: nat, m: nat)
    requires
        n < m * m,
    ensures
        sqrt_val(n) < m,
{
    lemma_sqrt_val_bounds(n);
    let s = sqrt_val(n);
    if s >= m {
        assert(m * m <= s * s) by (nonlinear_arith)
            requires m <= s;
    }
}

/// A truncated quotient is no larger in magnitude than its dividend.
pub proof fn lemma_tdiv_mag(a: int, b: int)
    requires
        b >= 1,
    ensures
        iabs(tdiv(a, b)) <= iabs(a),
        a >= 0 ==> tdiv(a, b) >= 0,
        a <= 0 ==> tdiv(a, b) <= 0,
{
    if a >= 0 {
        lemma_div_pos_is_pos(a, b);
        lemma_div_nonincreasing(a, b);
    } else {
        lemma_div_pos_is_pos(-a, b);
        lemma_div_nonincreasing(-a, b);
    }
}

/// Truncated division maps a bounded dividend to a bounded quotient.
pub proof fn lemma_tdiv_bound(a: int, b: int, m: int)
    requires
        b >= 1,
        -m <= a <= m,
    ensures
        -(m / b) <= tdiv(a, b) <= m / b,
{
    lemma_div_pos_is_pos(m, b);
    if a >= 0 {
        lemma_div_pos_is_pos(a, b);
        lemma_div_is_ordered(a, m, b);
    } else {
        lemma_div_pos_is_pos(-a, b);
        lemma_div_is_ordered(-a, m, b);
    }
}

/// Multiplying by one (or by zero) in fixed point is exact.
pub proof fn lemma_fmul_const(x: int)
    ensures
        fmul(SCALE as int, x) == x,
        fmul(x, SCALE as int) == x,
        fmul(0, x) == 0,
        fmul(x, 0) == 0,
{
    let s = SCALE as int;
    lemma_div_multiples_vanish(x, s);
    lemma_div_multiples_vanish(-x, s);
    assert(s * x == x * s) by (nonlinear_arith);
    assert(0 * x == 0) by (nonlinear_arith);
    assert(x * 0 == 0) by (nonlinear_arith);
    assert(s * (-x) == -(x * s)) by (nonlinear_arith);
    lemma_div_pos_is_pos(0, s);
}

/// Truncated division by a positive divisor is monotone in the
/// dividend.
pub proof fn lemma_tdiv_le(x: int, y: int, b: int)
    requires
        b >= 1,
        x <= y,
    ensures
        tdiv(x, b) <= tdiv(y, b),
{
    if x >= 0 {
        lemma_div_is_ordered(x, y, b);
    } else if y < 0 {
        lemma_div_is_ordered(-y, -x, b);
    } else {
        lemma_div_pos_is_pos(-x, b);
        lemma_div_pos_is_pos(y, b);
    }
}

/// Bounded factors give a bounded fixed-point product.
pub proof fn lemma_fmul_bound(a: int, b: int, am: int, bm: int)
    requires
        -am <= a <= am,
        -bm <= b <= bm,
    ensures
        -(am * bm) <= a * b <= am * bm,
        -((am * bm) / (SCALE as int)) <= fmul(a, b) <= (am * bm) / (SCALE as int),
{
    assert(-(am * bm) <= a * b <= am * bm) by (nonlinear_arith)
        requires
            -am <= a <= am,
            -bm <= b <= bm,
    ;
    lemma_tdiv_bound(a * b, SCALE as int, am * bm);
}

/// Fixed-point exponentiation by a whole exponent, peeling factors
/// from the left.
pub open spec fn pow_val(b: int, e: nat) -> int
    decreases e,
{
    if e == 0 {
        SCALE as int
    } else {
        fmul(b, pow_val(b, (e - 1) as nat))
    }
}

/// A product of two factors in `[0, 1]` stays in `[0, 1]`.
pub proof fn lemma_fmul_unit(a: int, b: int)
    requires
        0 <= a <= SCALE,
        0 <= b <= SCALE,
    ensures
        0 <= fmul(a, b) <= SCALE,
{
    assert(0 <= a * b <= SCALE * SCALE) by (nonlinear_arith)
        requires
            0 <= a <= SCALE,
            0 <= b <= SCALE,
    ;
    lemma_tdiv_bound(a * b, SCALE as int, (SCALE * SCALE) as int);
    lemma_div_multiples_vanish(SCALE as int, SCALE as int);
}

/// A real quantity in millionths: `bits` units stand for
/// `bits / SCALE`.
#[derive(Clone, Copy, Debug, PartialEq, Eq, Structural)]
pub struct Fx {
    pub bits: i128,
}

impl Fx {
    /// The unit count, as a mathematical integer.
    pub open spec fn v(self) -> int {
        self.bits as int
    }

    /// The value holding exactly `bits` millionths.
    pub fn from_units(bits: i128) -> (r: Fx)
        ensures
            r.v() == bits,
    {
        Fx { bits }
    }

    /// The value holding exactly the integer `n`.
    pub fn from_int(n: i32) -> (r: Fx)
        ensures
            r.v() == n * SCALE,
    {
        Fx { bits: (n as i128) * SCALE }
    }

    /// Zero.
    pub fn zero() -> (r: Fx)
        ensures
            r.v() == 0,
    {
        Fx { bits: 0 }
    }

    /// One.
    pub fn one() -> (r: Fx)
        ensures
            r.v() == SCALE,
    {
        Fx { bits: SCALE }
    }

    /// Exact sum.
    pub fn add(self, o: Fx) -> (r: Fx)
        requires
            i128::MIN <= self.v() + o.v() <= i128::MAX,
        ensures
            r.v() == self.v() + o.v(),
    {
        Fx { bits: self.bits + o.bits }
    }

    /// Exact difference.
    pub fn sub(self, o: Fx) -> (r: Fx)
        requires
            i128::MIN <= self.v() - o.v() <= i128::MAX,
        ensures
            r.v() == self.v() - o.v(),
    {
        Fx { bits: self.bits - o.bits }
    }

    /// Exact negation.
    pub fn neg(self) -> (r: Fx)
        requires
            self.v() != i128::MIN,
        ensures
            r.v() == -self.v(),
    {
        Fx { bits: -self.bits }
    }

    /// Exact magnitude.
    pub fn abs(self) -> (r: Fx)
        requires
            self.v() != i128::MIN,
        ensures
            r.v() == iabs(self.v()),
    {
        if self.bits < 0 {
            Fx { bits: -self.bits }
        } else {
            self
        }
    }

    /// Truncating fixed-point product.
    pub fn mul(self, o: Fx) -> (r: Fx)
        requires
            -FACTOR_LIMIT <= self.v() <= FACTOR_LIMIT,
            -FACTOR_LIMIT <= o.v() <= FACTOR_LIMIT,
        ensures
            r.v() == fmul(self.v(), o.v()),
    {
        proof {
            lemma_fmul_bound(
                self.v(),
                o.v(),
                FACTOR_LIMIT as int,
                FACTOR_LIMIT as int,
            );
            lemma_tdiv_mag(self.v() * o.v(), SCALE as int);
        }
        let p = self.bits * o.bits;
        Fx { bits: p / SCALE }
    }

    /// Truncating fixed-point quotient.
    pub fn div(self, o: Fx) -> (r: Fx)
        requires
            o.v() != 0,
            o.v() != i128::MIN,
            -DIVIDEND_LIMIT <= self.v() <= DIVIDEND_LIMIT,
        ensures
            r.v() == fdiv(self.v(), o.v()),
    {
        let (n, d) = if o.bits < 0 {
            (-self.bits, -o.bits)
        } else {
            (self.bits, o.bits)
        };
        proof {
            lemma_tdiv_mag(n * SCALE, d as int);
        }
        Fx { bits: (n * SCALE) / d }
    }

    /// Exact comparison: less-than.
    pub fn lt(self, o: Fx) -> (r: bool)
        ensures
            r == (self.v() < o.v()),
    {
        self.bits < o.bits
    }

    /// Exact comparison: at-most.
    pub fn le(self, o: Fx) -> (r: bool)
        ensures
            r == (self.v() <= o.v()),
    {
        self.bits <= o.bits
    }

    /// Exact minimum.
    pub fn min(self, o: Fx) -> (r: Fx)
        ensures
            r.v() == if self.v() <= o.v() { self.v() } else { o.v() },
    {
        if self.bits <= o.bits {
            self
        } else {
            o
        }
    }

    /// Exact maximum.
    pub fn max(self, o: Fx) -> (r: Fx)
        ensures
            r.v() == if self.v() >= o.v() { self.v() } else { o.v() },
    {
        if self.bits >= o.bits {
            self
        } else {
            o
        }
    }

    /// Floor of the value as an integer (units of 1.0).
    pub fn floor(self) -> (r: i128)
        ensures
            r == self.v() / (SCALE as int),
    {
        let q = self.bits / SCALE;
        let rem = self.bits % SCALE;
        proof {
            lemma_tdiv_mag(self.v(), SCALE as int);
        }
        if self.bits < 0 && rem != 0 {
            q - 1
        } else {
            q
        }
    }

    /// Fixed-point square root, rounded down to the nearest unit.
    pub fn sqrt(self) -> (r: Fx)
        requires
            0 <= self.v(),
            self.v() <= DIVIDEND_LIMIT,
        ensures
            r.v() == sqrt_val((self.v() * SCALE) as nat),
            0 <= r.v(),
    {
        let n = self.bits * SCALE;
        Fx { bits: isqrt(n) }
    }

    /// The `e`-th power of a value in `[0, 1]`, truncating at each
    /// step.
    pub fn powi(self, e: u32) -> (r: Fx)
        requires
            0 <= self.v() <= SCALE,
        ensures
            r.v() == pow_val(self.v(), e as nat),
            0 <= r.v() <= SCALE,
    {
        let mut acc = Fx { bits: SCALE };
        let mut i: u32 = 0;
        while i < e
            invariant
                0 <= self.v() <= SCALE,
                i <= e,
                acc.v() == pow_val(self.v(), i as nat),
                0 <= acc.v() <= SCALE,
            decreases e - i,
        {
            proof {
                lemma_fmul_unit(self.v(), acc.v());
            }
            acc = self.mul(acc);
            i = i + 1;
        }
        acc
    }
}

/// Floor of the integer square root, by bisection.
pub fn isqrt(n: i128) -> (r: i128)
    requires
        0 <= n,
    ensures
        r == sqrt_val(n as nat),
        0 <= r,
{
    let mut lo: i128 = 0;
    let mut hi: i128 = 13_043_817_825_332_782_213;
    proof {
        assert(13_043_817_825_332_782_213int * 13_043_817_825_332_782_213int > i128::MAX)
            by (nonlinear_arith);
    }
    while lo + 1 < hi
        invariant
            0 <= lo < hi <= 13_043_817_825_332_782_213,
            lo * lo <= n,
            hi * hi > n,
        decreases hi - lo,
    {
        let mid = lo + (hi - lo) / 2;
        proof {
            assert(lo < mid < hi);
            assert(mid * mid <= 13_043_817_825_332_782_212int * 13_043_817_825_332_782_212int)
                by (nonlinear_arith)
                requires 0 <= mid <= 13_043_817_825_332_782_212int;
            assert(13_043_817_825_332_782_212int * 13_043_817_825_332_782_212int <= i128::MAX)
                by (nonlinear_arith);
        }
        if mid * mid <= n {
            lo = mid;
        } else {
            hi = mid;
        }
    }
    proof {
        lemma_sqrt_val_unique(n as nat, lo as nat);
    }
    lo
}

/// Tolerant equality: the two values differ by at most [`CMP_EPS`]
/// units.
pub fn are_equal(a: Fx, b: Fx) -> (r: bool)
    requires
        i128::MIN <= a.v() - b.v() <= i128::MAX,
    ensures
        r == (-CMP_EPS <= a.v() - b.v() <= CMP_EPS),
{
    let d = a.bits - b.bits;
    -CMP_EPS <= d && d <= CMP_EPS
}

} // verus!
