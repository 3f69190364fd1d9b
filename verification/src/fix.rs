//! Saturating fixed-point real scalars.
//!
//! A `Fix` holds a real number as `raw / SCALE` with `SCALE = 2^24`.
//! Every operation is total: results outside `[-SAT_RAW, SAT_RAW]`
//! (about `2.7e11` in real terms) are clamped to the nearest bound, and a
//! division by zero saturates with the sign of the numerator. Orbits of a
//! dynamical map that blow up therefore land on the saturation bound, where
//! the escape test of the classifier absorbs them, instead of aborting.
use vstd::prelude::*;

verus! {

/// Number of raw units per real unit.
pub const SCALE: i64 = 16777216;

/// Largest admitted magnitude of `raw`; larger results saturate here.
pub const SAT_RAW: i64 = 0x4000_0000_0000_0000;

/// Clamp a mathematical integer into the saturation range.
pub open spec fn sat(x: int) -> int {
    if x > SAT_RAW as int {
        SAT_RAW as int
    } else if x < -(SAT_RAW as int) {
        -(SAT_RAW as int)
    } else {
        x
    }
}

/// Quotient of `x` by `d > 0`, truncated toward zero (Rust semantics).
pub open spec fn tdiv(x: int, d: int) -> int {
    if x >= 0 {
        x / d
    } else {
        -((-x) / d)
    }
}

/// Model of fixed-point addition.
pub open spec fn fx_add(a: int, b: int) -> int {
    sat(a + b)
}

/// Model of fixed-point subtraction.
pub open spec fn fx_sub(a: int, b: int) -> int {
    sat(a - b)
}

/// Model of fixed-point negation.
pub open spec fn fx_neg(a: int) -> int {
    sat(-a)
}

/// Model of fixed-point multiplication: truncated rescale of the product.
pub open spec fn fx_mul(a: int, b: int) -> int {
    sat(tdiv(a * b, SCALE as int))
}

/// Model of fixed-point division. Division by zero saturates with the
/// sign of the numerator, the nearest analogue of an IEEE infinity.
pub open spec fn fx_div(a: int, b: int) -> int {
    if b == 0 {
        if a > 0 {
            SAT_RAW as int
        } else if a < 0 {
            -(SAT_RAW as int)
        } else {
            0
        }
    } else {
        let am = if a >= 0 { a } else { -a };
        let bm = if b >= 0 { b } else { -b };
        let q = (am * SCALE) / bm;
        if (a >= 0) == (b >= 0) {
            sat(q)
        } else {
            sat(-q)
        }
    }
}

/// Integer square root: the unique `r >= 0` with `r * r <= n < (r + 1) * (r + 1)`.
pub open spec fn isqrt_spec(n: int) -> int
    decreases (if n >= 0 { n } else { 0 }),
{
    if n <= 0 {
        0
    } else {
        let r = isqrt_spec(n - 1);
        if (r + 1) * (r + 1) <= n {
            r + 1
        } else {
            r
        }
    }
}

pub proof fn lemma_isqrt_props(n: int)
    requires
        n >= 0,
    ensures
        isqrt_spec(n) >= 0,
        isqrt_spec(n) * isqrt_spec(n) <= n,
        n < (isqrt_spec(n) + 1) * (isqrt_spec(n) + 1),
    decreases n,
{
    if n == 0 {
    } else {
        lemma_isqrt_props(n - 1);
        let r = isqrt_spec(n - 1);
        if (r + 1) * (r + 1) <= n {
            assert(n - 1 < (r + 1) * (r + 1));
            assert(n < (r + 2) * (r + 2)) by (nonlinear_arith)
                requires
                    r >= 0,
                    n <= (r + 1) * (r + 1),
            ;
        }
    }
}

pub proof fn lemma_isqrt_unique(n: int, r: int)
    requires
        n >= 0,
        r >= 0,
        r * r <= n,
        n < (r + 1) * (r + 1),
    ensures
        r == isqrt_spec(n),
{
    lemma_isqrt_props(n);
    let s = isqrt_spec(n);
    if r < s {
        assert((r + 1) * (r + 1) <= s * s) by (nonlinear_arith)
            requires
                0 <= r,
                r + 1 <= s,
        ;
    }
    if s < r {
        assert((s + 1) * (s + 1) <= r * r) by (nonlinear_arith)
            requires
                0 <= s,
                s + 1 <= r,
        ;
    }
}

/// Model of the fixed-point square root: `0` on nonpositive input, else
/// the integer square root of the rescaled mantissa.
pub open spec fn fx_sqrt(a: int) -> int {
    if a <= 0 {
        0
    } else {
        isqrt_spec(a * SCALE)
    }
}

/// A saturating fixed-point real number worth `raw / SCALE`.
#[derive(Clone, Copy, Debug, PartialEq, Eq, Structural)]
pub struct Fix {
    pub raw: i64,
}

/// The `Fix` with the given (in-range) mantissa, for use in models.
pub open spec fn sfx(x: int) -> Fix {
    Fix { raw: x as i64 }
}

/// Struct-level model of addition.
pub open spec fn f_add(a: Fix, b: Fix) -> Fix {
    sfx(fx_add(a.raw as int, b.raw as int))
}

/// Struct-level model of subtraction.
pub open spec fn f_sub(a: Fix, b: Fix) -> Fix {
    sfx(fx_sub(a.raw as int, b.raw as int))
}

/// Struct-level model of negation.
pub open spec fn f_neg(a: Fix) -> Fix {
    sfx(fx_neg(a.raw as int))
}

/// Struct-level model of multiplication.
pub open spec fn f_mul(a: Fix, b: Fix) -> Fix {
    sfx(fx_mul(a.raw as int, b.raw as int))
}

/// Struct-level model of division.
pub open spec fn f_div(a: Fix, b: Fix) -> Fix {
    sfx(fx_div(a.raw as int, b.raw as int))
}

/// Struct-level model of the square root.
pub open spec fn f_sqrt(a: Fix) -> Fix {
    sfx(fx_sqrt(a.raw as int))
}

/// Struct-level model of halving, rounded down (floor).
pub open spec fn f_half(a: Fix) -> Fix {
    sfx(a.raw as int / 2)
}

/// Struct-level model of the absolute value.
pub open spec fn f_abs(a: Fix) -> Fix {
    if a.raw as int >= 0 {
        sfx(sat(a.raw as int))
    } else {
        sfx(sat(-(a.raw as int)))
    }
}

/// Binary search for the integer square root of a `u128`.
fn isqrt_u128(n: u128) -> (r: u128)
    ensures
        r * r <= n,
        n < (r + 1) * (r + 1),
{
    if n == 0 {
        return 0;
    }
    let mut lo: u128 = 0;
    let mut hi: u128 = 0x1_0000_0000_0000_0000;
    proof {
        assert(n < hi * hi) by (nonlinear_arith)
            requires
                hi == 0x1_0000_0000_0000_0000u128,
                n <= 0xffff_ffff_ffff_ffff_ffff_ffff_ffff_ffffu128,
        ;
    }
    while lo + 1 < hi
        invariant
            lo < hi,
            hi <= 0x1_0000_0000_0000_0000u128,
            lo * lo <= n,
            n < hi * hi,
        decreases hi - lo,
    {
        let mid: u128 = lo + (hi - lo) / 2;
        proof {
            assert(mid < hi);
            assert(mid * mid < 0xffff_ffff_ffff_ffff_ffff_ffff_ffff_ffffu128)
                by (nonlinear_arith)
                requires
                    mid <= 0xffff_ffff_ffff_ffffu128,
            ;
        }
        if mid * mid <= n {
            lo = mid;
        } else {
            hi = mid;
        }
    }
    lo
}

/// Unsigned magnitude division helper: floor(n / SCALE), as u128.
fn umag_div_scale(n: u128) -> (r: u128)
    ensures
        r == n as int / SCALE as int,
{
    n / (SCALE as u128)
}

/// Clamp a nonnegative magnitude to the saturation bound.
pub(crate) fn uclamp(n: u128) -> (r: i64)
    ensures
        0 <= r,
        r as int == sat_mag(n as int),
{
    if n > SAT_RAW as u128 {
        SAT_RAW
    } else {
        n as i64
    }
}

/// Clamp of a nonnegative magnitude (spec side).
pub open spec fn sat_mag(x: int) -> int {
    if x > SAT_RAW as int {
        SAT_RAW as int
    } else {
        x
    }
}

pub(crate) proof fn lemma_sat_of_signed_mag(mag: int, neg: bool)
    requires
        0 <= mag,
    ensures
        neg ==> -sat_mag(mag) == sat(-mag),
        !neg ==> sat_mag(mag) == sat(mag),
{
}

impl Fix {
    /// The value zero.
    pub fn zero() -> (r: Fix)
        ensures
            r.raw == 0,
    {
        Fix { raw: 0 }
    }

    /// The value one.
    pub fn one() -> (r: Fix)
        ensures
            r.raw == SCALE,
    {
        Fix { raw: SCALE }
    }

    /// The fixed-point image of a small integer (exact).
    pub fn from_int(n: i32) -> (r: Fix)
        ensures
            r.raw == n * SCALE,
    {
        Fix { raw: (n as i64) * SCALE }
    }

    /// Build directly from a raw mantissa.
    pub fn from_raw(raw: i64) -> (r: Fix)
        ensures
            r.raw == raw,
    {
        Fix { raw }
    }

    /// The fixed-point image of a machine-word integer, saturating.
    pub fn from_int_sat(n: i64) -> (r: Fix)
        ensures
            r.raw == sat(n * SCALE),
    {
        let wide: i128 = (n as i128) * (SCALE as i128);
        if wide > SAT_RAW as i128 {
            Fix { raw: SAT_RAW }
        } else if wide < -(SAT_RAW as i128) {
            Fix { raw: -SAT_RAW }
        } else {
            Fix { raw: wide as i64 }
        }
    }

    /// Saturating addition.
    pub fn add(self, other: Fix) -> (r: Fix)
        ensures
            r.raw == fx_add(self.raw as int, other.raw as int),
            r == f_add(self, other),
    {
        let s: i128 = self.raw as i128 + other.raw as i128;
        if s > SAT_RAW as i128 {
            Fix { raw: SAT_RAW }
        } else if s < -(SAT_RAW as i128) {
            Fix { raw: -SAT_RAW }
        } else {
            Fix { raw: s as i64 }
        }
    }

    /// Saturating subtraction.
    pub fn sub(self, other: Fix) -> (r: Fix)
        ensures
            r.raw == fx_sub(self.raw as int, other.raw as int),
            r == f_sub(self, other),
    {
        let s: i128 = self.raw as i128 - other.raw as i128;
        if s > SAT_RAW as i128 {
            Fix { raw: SAT_RAW }
        } else if s < -(SAT_RAW as i128) {
            Fix { raw: -SAT_RAW }
        } else {
            Fix { raw: s as i64 }
        }
    }

    /// Saturating negation.
    pub fn neg(self) -> (r: Fix)
        ensures
            r.raw == fx_neg(self.raw as int),
            r == f_neg(self),
    {
        if self.raw == i64::MIN {
            Fix { raw: SAT_RAW }
        } else if self.raw > SAT_RAW {
            Fix { raw: -SAT_RAW }
        } else if self.raw < -SAT_RAW {
            Fix { raw: SAT_RAW }
        } else {
            Fix { raw: -self.raw }
        }
    }

    /// Absolute value (saturating).
    pub fn abs(self) -> (r: Fix)
        ensures
            r.raw == if self.raw as int >= 0 {
                sat(self.raw as int)
            } else {
                sat(-(self.raw as int))
            },
            r == f_abs(self),
    {
        if self.raw >= 0 {
            if self.raw > SAT_RAW {
                Fix { raw: SAT_RAW }
            } else {
                Fix { raw: self.raw }
            }
        } else {
            self.neg()
        }
    }

    /// Saturating multiplication with truncated rescale.
    pub fn mul(self, other: Fix) -> (r: Fix)
        ensures
            r.raw == fx_mul(self.raw as int, other.raw as int),
            r == f_mul(self, other),
    {
        let a: i128 = self.raw as i128;
        let b: i128 = other.raw as i128;
        proof {
            assert((-0x8000_0000_0000_0000i128) <= a <= 0x7fff_ffff_ffff_ffffi128);
            assert((-0x8000_0000_0000_0000i128) <= b <= 0x7fff_ffff_ffff_ffffi128);
            assert(a * b <= 0x8000_0000_0000_0000i128 * 0x8000_0000_0000_0000i128
                && a * b >= -(0x8000_0000_0000_0000i128 * 0x8000_0000_0000_0000i128)) by (nonlinear_arith)
                requires
                    (-0x8000_0000_0000_0000i128) <= a <= 0x7fff_ffff_ffff_ffffi128,
                    (-0x8000_0000_0000_0000i128) <= b <= 0x7fff_ffff_ffff_ffffi128,
            ;
        }
        let p: i128 = a * b;
        let neg: bool = p < 0;
        let mag: u128 = if neg {
            (-p) as u128
        } else {
            p as u128
        };
        let shifted: u128 = umag_div_scale(mag);
        let clamped: i64 = uclamp(shifted);
        proof {
            if neg {
                assert(mag == -(a * b));
                assert(tdiv(a * b, SCALE as int) == -(mag as int / SCALE as int));
                lemma_sat_of_signed_mag(shifted as int, true);
            } else {
                assert(mag == a * b);
                assert(tdiv(a * b, SCALE as int) == mag as int / SCALE as int);
                lemma_sat_of_signed_mag(shifted as int, false);
            }
        }
        if neg {
            Fix { raw: -clamped }
        } else {
            Fix { raw: clamped }
        }
    }

    /// Saturating division; division by zero saturates with the sign of
    /// the numerator.
    pub fn div(self, other: Fix) -> (r: Fix)
        ensures
            r.raw == fx_div(self.raw as int, other.raw as int),
            r == f_div(self, other),
    {
        if other.raw == 0 {
            if self.raw > 0 {
                return Fix { raw: SAT_RAW };
            } else if self.raw < 0 {
                return Fix { raw: -SAT_RAW };
            } else {
                return Fix { raw: 0 };
            }
        }
        let a: i128 = self.raw as i128;
        let b: i128 = other.raw as i128;
        let neg: bool = (a < 0) != (b < 0);
        let amag: u128 = if a < 0 {
            (-a) as u128
        } else {
            a as u128
        };
        let bmag: u128 = if b < 0 {
            (-b) as u128
        } else {
            b as u128
        };
        proof {
            assert(amag <= 0x8000_0000_0000_0000u128);
            assert(amag * (SCALE as u128) <= 0x8000_0000_0000_0000u128 * (SCALE as u128))
                by (nonlinear_arith)
                requires
                    amag <= 0x8000_0000_0000_0000u128,
            ;
        }
        let scaled: u128 = amag * (SCALE as u128);
        let q: u128 = scaled / bmag;
        let clamped: i64 = uclamp(q);
        proof {
            let ai = self.raw as int;
            let bi = other.raw as int;
            let am: int = if ai >= 0 { ai } else { -ai };
            let bm: int = if bi >= 0 { bi } else { -bi };
            assert(amag as int == am);
            assert(bmag as int == bm);
            assert(scaled as int == am * SCALE);
            assert(q as int == (am * SCALE) / bm);
            if neg {
                lemma_sat_of_signed_mag(q as int, true);
            } else {
                lemma_sat_of_signed_mag(q as int, false);
            }
        }
        if neg {
            Fix { raw: -clamped }
        } else {
            Fix { raw: clamped }
        }
    }

    /// `self <= other` on the represented values.
    pub fn le(self, other: Fix) -> (b: bool)
        ensures
            b == (self.raw <= other.raw),
    {
        self.raw <= other.raw
    }

    /// `self < other` on the represented values.
    pub fn lt(self, other: Fix) -> (b: bool)
        ensures
            b == (self.raw < other.raw),
    {
        self.raw < other.raw
    }

    /// Halve the value, rounding down to the lattice (floor).
    pub fn half(self) -> (r: Fix)
        ensures
            r.raw == self.raw as int / 2,
            r == f_half(self),
    {
        if self.raw >= 0 {
            let m: u64 = self.raw as u64;
            Fix { raw: (m / 2) as i64 }
        } else {
            let m: u64 = if self.raw == i64::MIN {
                0x8000_0000_0000_0000
            } else {
                (-self.raw) as u64
            };
            let h: u64 = (m + 1) / 2;
            proof {
                vstd::arithmetic::div_mod::lemma_fundamental_div_mod(self.raw as int, 2);
                vstd::arithmetic::div_mod::lemma_fundamental_div_mod((m + 1) as int, 2);
            }
            Fix { raw: -(h as i64) }
        }
    }

    /// Square root, rounded down to the fixed-point lattice; nonpositive
    /// inputs give zero.
    pub fn sqrt(self) -> (r: Fix)
        ensures
            r.raw == fx_sqrt(self.raw as int),
            r == f_sqrt(self),
            0 <= r.raw <= SAT_RAW,
    {
        if self.raw <= 0 {
            proof {
                if self.raw as int > 0 {
                    lemma_isqrt_props(self.raw as int * SCALE);
                }
            }
            return Fix { raw: 0 };
        }
        let n: u128 = (self.raw as u128) * (SCALE as u128);
        let root: u128 = isqrt_u128(n);
        proof {
            lemma_isqrt_unique(n as int, root as int);
            assert(root * root <= n);
            assert(n < 0x8000_0000_0000_0000u128 * (SCALE as u128));
            assert(root < 0x1_0000_0000_0000u128) by (nonlinear_arith)
                requires
                    root * root <= n,
                    n < 0x1_0000_0000_0000u128 * 0x1_0000_0000_0000u128,
            ;
        }
        Fix { raw: root as i64 }
    }

    /// Whether the value sits at a saturation bound (stands for an
    /// overflowed or undefined result, as a NaN or infinity would).
    pub fn is_huge(self) -> (b: bool)
        ensures
            b == (self.raw as int == SAT_RAW as int || self.raw as int == -(SAT_RAW as int)),
    {
        self.raw == SAT_RAW || self.raw == -SAT_RAW
    }
}

} // verus!
