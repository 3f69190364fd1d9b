//! Fixed-point logarithms, exponentials and trigonometric kernels.
//!
//! Each routine is an integer algorithm over mantissas, pinned exactly to
//! a recursive model. The models are deterministic, so any computation
//! built on them is reproducible bit for bit.
use vstd::prelude::*;

use vstd::arithmetic::power2::pow2;

use crate::fix::{f_div, f_sub, sfx, Fix, SAT_RAW, SCALE};

verus! {

/// Floor of the base-two logarithm of a positive integer.
pub open spec fn ilog2_spec(n: int) -> int
    decreases (if n >= 0 { n } else { 0 }),
{
    if n < 2 {
        0
    } else {
        1 + ilog2_spec(n / 2)
    }
}

pub proof fn lemma_ilog2_props(n: int)
    requires
        n >= 1,
    ensures
        ilog2_spec(n) >= 0,
        pow2(ilog2_spec(n) as nat) <= n,
        n < pow2((ilog2_spec(n) + 1) as nat),
    decreases n,
{
    if n < 2 {
        vstd::arithmetic::power2::lemma2_to64();
    } else {
        lemma_ilog2_props(n / 2);
        let p = ilog2_spec(n / 2);
        assert(ilog2_spec(n) == 1 + p);
        vstd::arithmetic::power2::lemma_pow2_unfold((p + 1) as nat);
        vstd::arithmetic::power2::lemma_pow2_unfold((p + 2) as nat);
        vstd::arithmetic::div_mod::lemma_fundamental_div_mod(n, 2);
    }
}

/// Fractional bits of a base-two logarithm by repeated squaring of a
/// mantissa in `[SCALE, 2 * SCALE)`.
pub open spec fn log2_frac_spec(m: int, iters: nat) -> int
    decreases iters,
{
    if iters == 0 {
        0
    } else {
        let m2 = (m * m) / (SCALE as int);
        if m2 >= 2 * SCALE {
            pow2((iters - 1) as nat) + log2_frac_spec(m2 / 2, (iters - 1) as nat)
        } else {
            log2_frac_spec(m2, (iters - 1) as nat)
        }
    }
}

/// Model of the fixed-point base-two logarithm. Nonpositive inputs give
/// the negative saturation bound, the stand-in for negative infinity.
#[verifier::opaque]
pub open spec fn fx_log2(a: int) -> int {
    if a <= 0 {
        -(SAT_RAW as int)
    } else {
        let p = ilog2_spec(a);
        let m = if p >= 24 {
            a / pow2((p - 24) as nat) as int
        } else {
            a * pow2((24 - p) as nat) as int
        };
        (p - 24) * SCALE + log2_frac_spec(m, 24)
    }
}

/// Struct-level model of the base-two logarithm.
pub open spec fn f_log2(a: Fix) -> Fix {
    sfx(fx_log2(a.raw as int))
}

/// `2^k` as a machine word, for `k < 64`.
fn pow2_u64(k: u32) -> (r: u64)
    requires
        k < 64,
    ensures
        r == pow2(k as nat),
{
    let mut i: u32 = 0;
    let mut acc: u64 = 1;
    proof {
        vstd::arithmetic::power2::lemma2_to64();
    }
    while i < k
        invariant
            i <= k < 64,
            acc == pow2(i as nat),
        decreases k - i,
    {
        proof {
            vstd::arithmetic::power2::lemma_pow2_unfold((i + 1) as nat);
            vstd::arithmetic::power2::lemma_pow2_strictly_increases((i + 1) as nat, 64nat);
            vstd::arithmetic::power2::lemma2_to64();
        }
        acc = acc * 2;
        i = i + 1;
    }
    acc
}

/// Floor of the base-two logarithm of a positive machine word.
fn ilog2_u64(n: u64) -> (r: u32)
    requires
        n >= 1,
    ensures
        r == ilog2_spec(n as int),
        r < 64,
{
    proof {
        lemma_ilog2_props(n as int);
        vstd::arithmetic::power2::lemma2_to64();
        if ilog2_spec(n as int) >= 64 {
            vstd::arithmetic::power2::lemma_pow2_adds(64nat, (ilog2_spec(n as int) - 64) as nat);
            vstd::arithmetic::power2::lemma_pow2_pos((ilog2_spec(n as int) - 64) as nat);
            assert(pow2(ilog2_spec(n as int) as nat) >= pow2(64)) by (nonlinear_arith)
                requires
                    pow2(ilog2_spec(n as int) as nat) == pow2(64) * pow2(
                        (ilog2_spec(n as int) - 64) as nat,
                    ),
                    pow2((ilog2_spec(n as int) - 64) as nat) >= 1,
            ;
        }
    }
    let mut m: u64 = n;
    let mut p: u32 = 0;
    while m >= 2
        invariant
            m >= 1,
            ilog2_spec(n as int) == p + ilog2_spec(m as int),
            p <= ilog2_spec(n as int) < 64,
        decreases m,
    {
        proof {
            assert(ilog2_spec(m as int) == 1 + ilog2_spec(m as int / 2));
            lemma_ilog2_props(m as int / 2);
        }
        m = m / 2;
        p = p + 1;
    }
    p
}

impl Fix {
    /// Base-two logarithm, accurate to the lattice; nonpositive inputs
    /// give the negative saturation bound.
    pub fn log2(self) -> (r: Fix)
        ensures
            r.raw == fx_log2(self.raw as int),
            r == f_log2(self),
    {
        proof {
            reveal(fx_log2);
        }
        if self.raw <= 0 {
            return Fix { raw: -SAT_RAW };
        }
        let p: u32 = ilog2_u64(self.raw as u64);
        proof {
            lemma_ilog2_props(self.raw as int);
            vstd::arithmetic::power2::lemma2_to64();
        }
        let m: u64 = if p >= 24 {
            let d: u64 = pow2_u64(p - 24);
            proof {
                vstd::arithmetic::power2::lemma_pow2_pos((p - 24) as nat);
                vstd::arithmetic::power2::lemma_pow2_adds((p - 24) as nat, 24nat);
                let q = (self.raw as int) / (d as int);
                lemma_div_bounds_pos(self.raw as int, d as int);
                // lower: raw >= pow2(p) == d * SCALE, so q >= SCALE
                assert(pow2(p as nat) == (d as int) * 0x100_0000);
                assert(q >= 0x100_0000) by (nonlinear_arith)
                    requires
                        q * (d as int) <= (self.raw as int) < (q + 1) * (d as int),
                        (self.raw as int) >= (d as int) * 0x100_0000,
                        (d as int) >= 1,
                ;
                // upper: raw < pow2(p + 1) == d * 2 * SCALE, so q < 2 * SCALE
                vstd::arithmetic::power2::lemma_pow2_adds((p - 24) as nat, 25nat);
                vstd::arithmetic::power2::lemma_pow2_unfold((p + 1) as nat);
                assert(pow2((p + 1) as nat) == (d as int) * 0x200_0000) by {
                    vstd::arithmetic::power2::lemma_pow2_adds((p - 24) as nat, 25nat);
                    assert((p - 24) + 25 == p + 1);
                };
                assert(q < 0x200_0000) by (nonlinear_arith)
                    requires
                        q * (d as int) <= (self.raw as int),
                        (self.raw as int) < (d as int) * 0x200_0000,
                        (d as int) >= 1,
                ;
            }
            (self.raw as u64) / d
        } else {
            let f: u64 = pow2_u64(24 - p);
            proof {
                vstd::arithmetic::power2::lemma_pow2_pos((24 - p) as nat);
                vstd::arithmetic::power2::lemma_pow2_adds(p as nat, (24 - p) as nat);
                vstd::arithmetic::power2::lemma_pow2_adds((p + 1) as nat, (24 - p) as nat);
                assert((self.raw as int) * (f as int) >= pow2(p as nat) * (f as int))
                    by (nonlinear_arith)
                    requires
                        (self.raw as int) >= pow2(p as nat),
                        (f as int) >= 1,
                ;
                assert(pow2(p as nat) * (f as int) == pow2(24)) by {
                    vstd::arithmetic::power2::lemma_pow2_adds(p as nat, (24 - p) as nat);
                };
                assert((self.raw as int) * (f as int) < pow2((p + 1) as nat) * (f as int))
                    by (nonlinear_arith)
                    requires
                        (self.raw as int) < pow2((p + 1) as nat),
                        (f as int) >= 1,
                ;
                assert(pow2((p + 1) as nat) * (f as int) == pow2(25)) by {
                    vstd::arithmetic::power2::lemma_pow2_adds((p + 1) as nat, (24 - p) as nat);
                    assert((p + 1) + (24 - p) == 25);
                };
            }
            let wide: u128 = (self.raw as u128) * (f as u128);
            wide as u64
        };
        let frac: u64 = log2_frac_loop(m);
        let ip: i64 = (p as i64) - 24;
        Fix { raw: ip * SCALE + (frac as i64) }
    }
}

/// Bounds form of a floor division by a positive divisor, on nonnegative
/// numerators.
proof fn lemma_div_bounds_pos(x: int, d: int)
    requires
        d > 0,
        x >= 0,
    ensures
        0 <= x / d,
        (x / d) * d <= x,
        x < (x / d + 1) * d,
{
    vstd::arithmetic::div_mod::lemma_fundamental_div_mod(x, d);
    let q = x / d;
    let r = x % d;
    assert(q * d == d * q) by (nonlinear_arith);
    assert((q + 1) * d == d * q + d) by (nonlinear_arith);
    assert(q >= 0) by (nonlinear_arith)
        requires
            x >= 0,
            d > 0,
            x == d * q + r,
            r < d,
    ;
}

/// The squaring loop for the fractional logarithm bits.
fn log2_frac_loop(m0: u64) -> (r: u64)
    requires
        SCALE <= m0 < 2 * SCALE,
    ensures
        r == log2_frac_spec(m0 as int, 24),
        r < 0x1_0000_0000,
{
    let mut m: u64 = m0;
    let mut acc: u64 = 0;
    let mut j: u32 = 0;
    proof {
        lemma_log2_frac_bound(m0 as int, 24);
        vstd::arithmetic::power2::lemma2_to64();
    }
    while j < 24
        invariant
            j <= 24,
            SCALE <= m < 2 * SCALE,
            acc + log2_frac_spec(m as int, (24 - j) as nat) == log2_frac_spec(m0 as int, 24),
            acc <= log2_frac_spec(m0 as int, 24),
            log2_frac_spec(m0 as int, 24) < 0x100_0000,
        decreases 24 - j,
    {
        proof {
            vstd::arithmetic::power2::lemma2_to64();
            assert((m as int) * (m as int) < 0x200_0000 * 0x200_0000) by (nonlinear_arith)
                requires
                    0 <= (m as int) < 0x200_0000,
            ;
            assert((m as int) * (m as int) >= 0x100_0000 * 0x100_0000) by (nonlinear_arith)
                requires
                    (m as int) >= 0x100_0000,
            ;
            lemma_div_bounds_pos((m as int) * (m as int), SCALE as int);
            assert(((m as int) * (m as int)) / (SCALE as int) >= 0x100_0000) by (nonlinear_arith)
                requires
                    (((m as int) * (m as int)) / (SCALE as int)) * (SCALE as int) <= (m as int) * (
                    m as int),
                    (m as int) * (m as int) >= 0x100_0000 * 0x100_0000,
                    ((((m as int) * (m as int)) / (SCALE as int)) + 1) * (SCALE as int) > (
                    m as int) * (m as int),
                    SCALE == 0x100_0000,
            ;
            assert(((m as int) * (m as int)) / (SCALE as int) < 0x400_0000) by (nonlinear_arith)
                requires
                    (((m as int) * (m as int)) / (SCALE as int)) * (SCALE as int) <= (m as int) * (
                    m as int),
                    (m as int) * (m as int) < 0x200_0000 * 0x200_0000,
                    SCALE == 0x100_0000,
            ;
            if j > 0 {
                vstd::arithmetic::power2::lemma_pow2_strictly_increases((24 - j) as nat, 24nat);
            }
            vstd::arithmetic::power2::lemma_pow2_unfold((24 - j) as nat);
            if 24 - j - 1 > 0 {
                vstd::arithmetic::power2::lemma_pow2_strictly_increases((24 - j - 1) as nat, 24nat);
            }
            lemma_log2_frac_bound((((m as int) * (m as int)) / (SCALE as int)), (24 - j - 1) as nat);
            lemma_log2_frac_bound(
                (((m as int) * (m as int)) / (SCALE as int)) / 2,
                (24 - j - 1) as nat,
            );
        }
        let wide: u128 = (m as u128) * (m as u128);
        let m2: u64 = (wide / (SCALE as u128)) as u64;
        if m2 >= 2 * (SCALE as u64) {
            let b: u64 = pow2_u64(24 - j - 1);
            acc = acc + b;
            m = m2 / 2;
        } else {
            m = m2;
        }
        j = j + 1;
    }
    acc
}

/// The fractional logarithm bits stay below `pow2(iters)`.
proof fn lemma_log2_frac_bound(m: int, iters: nat)
    ensures
        0 <= log2_frac_spec(m, iters) < pow2(iters),
    decreases iters,
{
    if iters == 0 {
        vstd::arithmetic::power2::lemma2_to64();
    } else {
        let m2 = (m * m) / (SCALE as int);
        lemma_log2_frac_bound(m2, (iters - 1) as nat);
        lemma_log2_frac_bound(m2 / 2, (iters - 1) as nat);
        vstd::arithmetic::power2::lemma_pow2_unfold(iters);
    }
}

/// `ln 2` on the lattice.
pub const LN2_RAW: i64 = 11629080;

/// `pi / 2` on the lattice.
pub const PI2_RAW: i64 = 26353589;

/// `pi / 4` on the lattice.
pub const PI4_RAW: i64 = 13176795;

/// `pi` on the lattice.
pub const PI_RAW: i64 = 52707179;

/// `log2 e` on the lattice.
pub const LOG2E_RAW: i64 = 24204406;

/// Taylor refinement of `e^y`: `iters` more terms of `sum y^k / k!`,
/// continuing from the given term and accumulator.
pub open spec fn exp_taylor_spec(y: Fix, term: Fix, acc: Fix, k: nat, iters: nat) -> Fix
    decreases iters,
{
    if iters == 0 {
        acc
    } else {
        let t1 = crate::fix::f_div(crate::fix::f_mul(term, y), sfx(k * SCALE));
        exp_taylor_spec(y, t1, crate::fix::f_add(acc, t1), k + 1, (iters - 1) as nat)
    }
}

/// Model of `e^y` for small nonnegative `y` (below `ln 2`).
pub open spec fn fx_exp_frac(y: Fix) -> Fix {
    exp_taylor_spec(y, sfx(SCALE as int), sfx(SCALE as int), 1, 12)
}

/// Model of the base-two exponential: split into integer part and
/// fraction, take `e^(frac * ln 2)` by Taylor, then shift. Large inputs
/// saturate; very negative inputs flush to zero.
#[verifier::opaque]
pub open spec fn fx_exp2(a: Fix) -> Fix {
    if a.raw >= 37 * SCALE {
        sfx(SAT_RAW as int)
    } else if a.raw < -(31 * SCALE) {
        sfx(0)
    } else {
        let ip = a.raw as int / SCALE as int;
        let fr = a.raw - ip * SCALE;
        let ey = fx_exp_frac(crate::fix::f_mul(sfx(fr), sfx(LN2_RAW as int)));
        if ip >= 0 {
            sfx(crate::fix::sat(ey.raw * pow2(ip as nat)))
        } else {
            sfx(ey.raw as int / pow2((-ip) as nat) as int)
        }
    }
}

/// Taylor sine on the reduced range (four alternating terms).
pub open spec fn sin_taylor_spec(r: Fix) -> Fix {
    let r2 = crate::fix::f_mul(r, r);
    let t3 = crate::fix::f_div(crate::fix::f_mul(r, r2), sfx(6 * SCALE));
    let t5 = crate::fix::f_div(crate::fix::f_mul(r, crate::fix::f_mul(r2, r2)), sfx(120 * SCALE));
    let r6 = crate::fix::f_mul(crate::fix::f_mul(r2, r2), r2);
    let t7 = crate::fix::f_div(crate::fix::f_mul(r, r6), sfx(5040 * SCALE));
    crate::fix::f_sub(crate::fix::f_add(crate::fix::f_sub(r, t3), t5), t7)
}

/// Taylor cosine on the reduced range (four alternating terms).
pub open spec fn cos_taylor_spec(r: Fix) -> Fix {
    let r2 = crate::fix::f_mul(r, r);
    let r4 = crate::fix::f_mul(r2, r2);
    let r6 = crate::fix::f_mul(r4, r2);
    let t2 = crate::fix::f_div(r2, sfx(2 * SCALE));
    let t4 = crate::fix::f_div(r4, sfx(24 * SCALE));
    let t6 = crate::fix::f_div(r6, sfx(720 * SCALE));
    crate::fix::f_sub(crate::fix::f_add(crate::fix::f_sub(sfx(SCALE as int), t2), t4), t6)
}

/// Model of sine and cosine: reduce modulo a quarter turn, apply the
/// Taylor kernels, rotate back by the quadrant.
#[verifier::opaque]
pub open spec fn fx_sincos(a: Fix) -> (Fix, Fix) {
    let k = (a.raw + PI4_RAW) as int / PI2_RAW as int;
    let r = sfx(a.raw - k * PI2_RAW);
    let s = sin_taylor_spec(r);
    let c = cos_taylor_spec(r);
    let q = k % 4;
    if q == 0 {
        (s, c)
    } else if q == 1 {
        (c, crate::fix::f_neg(s))
    } else if q == 2 {
        (crate::fix::f_neg(s), crate::fix::f_neg(c))
    } else {
        (crate::fix::f_neg(c), s)
    }
}

/// Taylor arctangent on a small argument (five alternating terms).
pub open spec fn atan_taylor_spec(u: Fix) -> Fix {
    let u2 = crate::fix::f_mul(u, u);
    let u3 = crate::fix::f_mul(u, u2);
    let u5 = crate::fix::f_mul(u3, u2);
    let u7 = crate::fix::f_mul(u5, u2);
    let u9 = crate::fix::f_mul(u7, u2);
    let s1 = crate::fix::f_sub(u, crate::fix::f_div(u3, sfx(3 * SCALE)));
    let s2 = crate::fix::f_add(s1, crate::fix::f_div(u5, sfx(5 * SCALE)));
    let s3 = crate::fix::f_sub(s2, crate::fix::f_div(u7, sfx(7 * SCALE)));
    crate::fix::f_add(s3, crate::fix::f_div(u9, sfx(9 * SCALE)))
}

/// One angle-halving of an arctangent argument:
/// `t / (1 + sqrt(1 + t^2))`.
pub open spec fn atan_halve_spec(t: Fix) -> Fix {
    crate::fix::f_div(
        t,
        crate::fix::f_add(
            sfx(SCALE as int),
            crate::fix::f_sqrt(crate::fix::f_add(sfx(SCALE as int), crate::fix::f_mul(t, t))),
        ),
    )
}

/// Model of the arctangent of a ratio in `[0, 1]`: two angle halvings,
/// the Taylor kernel, then four times the result.
pub open spec fn fx_atan_core(t: Fix) -> Fix {
    let u = atan_halve_spec(atan_halve_spec(t));
    let a = atan_taylor_spec(u);
    crate::fix::f_add(crate::fix::f_add(a, a), crate::fix::f_add(a, a))
}

/// Model of the two-argument arctangent, in radians in `(-pi, pi]`.
#[verifier::opaque]
pub open spec fn fx_atan2(y: Fix, x: Fix) -> Fix {
    let ya = crate::fix::f_abs(y);
    let xa = crate::fix::f_abs(x);
    let base = if ya.raw <= xa.raw {
        if xa.raw == 0 {
            sfx(0)
        } else {
            fx_atan_core(crate::fix::f_div(ya, xa))
        }
    } else {
        crate::fix::f_sub(sfx(PI2_RAW as int), fx_atan_core(crate::fix::f_div(xa, ya)))
    };
    if x.raw >= 0 {
        if y.raw >= 0 {
            base
        } else {
            crate::fix::f_neg(base)
        }
    } else {
        if y.raw >= 0 {
            crate::fix::f_sub(sfx(PI_RAW as int), base)
        } else {
            crate::fix::f_sub(base, sfx(PI_RAW as int))
        }
    }
}

/// Model of the hyperbolic tangent: `(e^{2|a|} - 1) / (e^{2|a|} + 1)`
/// with the sign restored; the exponential runs through `fx_exp2`.
#[verifier::opaque]
pub open spec fn fx_tanh(a: Fix) -> Fix {
    let xa = crate::fix::f_abs(a);
    let e = fx_exp2(crate::fix::f_mul(crate::fix::f_add(xa, xa), sfx(LOG2E_RAW as int)));
    let t = crate::fix::f_div(
        crate::fix::f_sub(e, sfx(SCALE as int)),
        crate::fix::f_add(e, sfx(SCALE as int)),
    );
    if a.raw >= 0 {
        t
    } else {
        crate::fix::f_neg(t)
    }
}

/// Euclidean (floor) quotient by a positive divisor.
pub(crate) fn ediv_i64(x: i64, d: i64) -> (r: i64)
    requires
        d >= 2,
    ensures
        r as int == x as int / d as int,
{
    if x >= 0 {
        let q: u64 = (x as u64) / (d as u64);
        proof {
            lemma_div_bounds_pos(x as int, d as int);
            assert(q as int <= x as int) by (nonlinear_arith)
                requires
                    (q as int) * (d as int) <= x as int,
                    q as int >= 0,
                    d as int >= 2,
            ;
        }
        q as i64
    } else {
        let m: u128 = if x == i64::MIN {
            0x8000_0000_0000_0000u128
        } else {
            ((-x) as u64) as u128
        };
        let q: u128 = (m + (d as u128) - 1) / (d as u128);
        proof {
            let xi = x as int;
            let di = d as int;
            let qi = q as int;
            lemma_div_bounds_pos((m + di - 1) as int, di);
            assert(qi < 0x8000_0000_0000_0000) by (nonlinear_arith)
                requires
                    qi * di <= (m as int) + di - 1,
                    m as int <= 0x8000_0000_0000_0000,
                    qi >= 0,
                    di >= 2,
            ;
            vstd::arithmetic::div_mod::lemma_fundamental_div_mod((m + di - 1) as int, di);
            vstd::arithmetic::div_mod::lemma_fundamental_div_mod(xi, di);
            let qq = xi / di;
            let rr = xi % di;
            assert(xi == di * qq + rr);
            assert(m as int == -xi);
            assert((m + di - 1) as int == di * qi + ((m + di - 1) as int % di));
            assert(-qi == qq) by (nonlinear_arith)
                requires
                    xi == di * qq + rr,
                    0 <= rr < di,
                    (m as int) == -xi,
                    (m as int + di - 1) == di * qi + ((m as int + di - 1) % di),
                    0 <= ((m as int + di - 1) % di) < di,
                    di > 0,
            ;
        }
        -(q as i64)
    }
}

impl Fix {
    /// Base-two exponential; saturates above, flushes to zero below.
    pub fn exp2(self) -> (r: Fix)
        ensures
            r == fx_exp2(self),
    {
        proof {
            reveal(fx_exp2);
        }
        if self.raw >= 37 * SCALE {
            return Fix { raw: SAT_RAW };
        }
        if self.raw < -(31 * SCALE) {
            return Fix { raw: 0 };
        }
        let ip: i64 = ediv_i64(self.raw, SCALE);
        proof {
            vstd::arithmetic::div_mod::lemma_fundamental_div_mod(self.raw as int, SCALE as int);
            assert(-31 <= ip as int <= 36) by (nonlinear_arith)
                requires
                    self.raw as int == (SCALE as int) * (ip as int) + (self.raw as int % (
                    SCALE as int)),
                    0 <= (self.raw as int % (SCALE as int)) < SCALE as int,
                    -(31 * SCALE as int) <= self.raw as int,
                    (self.raw as int) < 37 * SCALE as int,
                    ip as int == self.raw as int / SCALE as int,
            ;
        }
        let fr: i64 = self.raw - ip * SCALE;
        let y = Fix::from_raw(fr).mul(Fix::from_raw(LN2_RAW));
        let ey = exp_frac(y);
        if ip >= 0 {
            proof {
                vstd::arithmetic::power2::lemma2_to64();
                if ip > 0 {
                    vstd::arithmetic::power2::lemma_pow2_strictly_increases(ip as nat, 37nat);
                }
                vstd::arithmetic::power2::lemma2_to64_rest();
                assert(pow2(37) == 0x20_0000_0000) by {
                    vstd::arithmetic::power2::lemma_pow2_adds(32nat, 5nat);
                };
            }
            let sh: u64 = pow2_u64(ip as u32);
            proof {
                assert((ey.raw as int) * (sh as int) <= 0x8000_0000_0000_0000i128
                    * 0x20_0000_0000i128 && (ey.raw as int) * (sh as int) >= -(
                0x8000_0000_0000_0000i128 * 0x20_0000_0000i128)) by (nonlinear_arith)
                    requires
                        -0x8000_0000_0000_0000i128 <= ey.raw as int <= 0x8000_0000_0000_0000i128,
                        0 <= sh as int <= 0x20_0000_0000i128,
                ;
            }
            let wide: i128 = (ey.raw as i128) * (sh as i128);
            if wide > SAT_RAW as i128 {
                Fix { raw: SAT_RAW }
            } else if wide < -(SAT_RAW as i128) {
                Fix { raw: -SAT_RAW }
            } else {
                Fix { raw: wide as i64 }
            }
        } else {
            proof {
                vstd::arithmetic::power2::lemma2_to64();
                if (-ip) != 31 {
                    vstd::arithmetic::power2::lemma_pow2_strictly_increases((-ip) as nat, 31nat);
                }
                assert(pow2(31) == 0x8000_0000) by {
                    vstd::arithmetic::power2::lemma2_to64();
                };
            }
            let sh: u64 = pow2_u64((-ip) as u32);
            let q: i64 = ediv_i64(ey.raw, sh as i64);
            Fix { raw: q }
        }
    }

    /// Sine and cosine together, by quarter-turn reduction and Taylor
    /// kernels.
    pub fn sincos(self) -> (r: (Fix, Fix))
        ensures
            r == fx_sincos(self),
    {
        proof {
            reveal(fx_sincos);
        }
        let shifted: i128 = (self.raw as i128) + (PI4_RAW as i128);
        let k: i64 = if shifted >= 0 {
            let qd: u128 = (shifted as u128) / (PI2_RAW as u128);
            proof {
                vstd::arithmetic::div_mod::lemma_div_is_ordered_by_denominator(
                    shifted as int,
                    1,
                    PI2_RAW as int,
                );
            }
            (qd as u64) as i64
        } else {
            let m: u128 = (-shifted) as u128;
            let q: u128 = (m + (PI2_RAW as u128) - 1) / (PI2_RAW as u128);
            proof {
                let xi = shifted as int;
                let di = PI2_RAW as int;
                let qi = q as int;
                vstd::arithmetic::div_mod::lemma_fundamental_div_mod((m + di - 1) as int, di);
                vstd::arithmetic::div_mod::lemma_fundamental_div_mod(xi, di);
                assert(-qi == xi / di) by (nonlinear_arith)
                    requires
                        xi == di * (xi / di) + (xi % di),
                        0 <= (xi % di) < di,
                        (m as int) == -xi,
                        (m as int + di - 1) == di * qi + ((m as int + di - 1) % di),
                        0 <= ((m as int + di - 1) % di) < di,
                        di > 0,
                ;
            }
            -(q as i64)
        };
        proof {
            vstd::arithmetic::div_mod::lemma_fundamental_div_mod(shifted as int, PI2_RAW as int);
            assert((self.raw as int) - (k as int) * (PI2_RAW as int) == (shifted as int) % (
            PI2_RAW as int) - PI4_RAW) by (nonlinear_arith)
                requires
                    shifted as int == (self.raw as int) + PI4_RAW,
                    shifted as int == (PI2_RAW as int) * (k as int) + ((shifted as int) % (
                    PI2_RAW as int)),
            ;
        }
        let rr: i128 = (self.raw as i128) - (k as i128) * (PI2_RAW as i128);
        let r = Fix::from_raw(rr as i64);
        let s = sin_taylor(r);
        let c = cos_taylor(r);
        let q: i64 = k - 4 * ediv_i64(k, 4);
        proof {
            vstd::arithmetic::div_mod::lemma_fundamental_div_mod(k as int, 4);
            assert(q as int == (k as int) % 4);
        }
        if q == 0 {
            (s, c)
        } else if q == 1 {
            (c, s.neg())
        } else if q == 2 {
            (s.neg(), c.neg())
        } else {
            (c.neg(), s)
        }
    }

    /// Two-argument arctangent in radians, in `(-pi, pi]`.
    pub fn atan2(y: Fix, x: Fix) -> (r: Fix)
        ensures
            r == fx_atan2(y, x),
    {
        proof {
            reveal(fx_atan2);
        }
        let ya = y.abs();
        let xa = x.abs();
        let base = if ya.raw <= xa.raw {
            if xa.raw == 0 {
                Fix::zero()
            } else {
                atan_core(ya.div(xa))
            }
        } else {
            Fix::from_raw(PI2_RAW).sub(atan_core(xa.div(ya)))
        };
        if x.raw >= 0 {
            if y.raw >= 0 {
                base
            } else {
                base.neg()
            }
        } else {
            if y.raw >= 0 {
                Fix::from_raw(PI_RAW).sub(base)
            } else {
                base.sub(Fix::from_raw(PI_RAW))
            }
        }
    }

    /// Hyperbolic tangent, squashing any value into `(-1, 1)`.
    pub fn tanh(self) -> (r: Fix)
        ensures
            r == fx_tanh(self),
    {
        proof {
            reveal(fx_tanh);
        }
        let xa = self.abs();
        let e = xa.add(xa).mul(Fix::from_raw(LOG2E_RAW)).exp2();
        let t = e.sub(Fix::one()).div(e.add(Fix::one()));
        if self.raw >= 0 {
            t
        } else {
            t.neg()
        }
    }
}

/// Taylor refinement of `e^y` for small nonnegative `y`.
fn exp_frac(y: Fix) -> (r: Fix)
    ensures
        r == fx_exp_frac(y),
{
    let mut term = Fix::one();
    let mut acc = Fix::one();
    let mut k: u32 = 1;
    while k <= 12
        invariant
            1 <= k <= 13,
            exp_taylor_spec(y, term, acc, k as nat, (13 - k) as nat) == fx_exp_frac(y),
        decreases 13 - k,
    {
        term = term.mul(y).div(Fix::from_int(k as i32));
        acc = acc.add(term);
        k = k + 1;
    }
    acc
}

/// The Taylor sine kernel.
fn sin_taylor(r: Fix) -> (res: Fix)
    ensures
        res == sin_taylor_spec(r),
{
    let r2 = r.mul(r);
    let t3 = r.mul(r2).div(Fix::from_int(6));
    let t5 = r.mul(r2.mul(r2)).div(Fix::from_int(120));
    let r6 = r2.mul(r2).mul(r2);
    let t7 = r.mul(r6).div(Fix::from_int(5040));
    r.sub(t3).add(t5).sub(t7)
}

/// The Taylor cosine kernel.
fn cos_taylor(r: Fix) -> (res: Fix)
    ensures
        res == cos_taylor_spec(r),
{
    let r2 = r.mul(r);
    let r4 = r2.mul(r2);
    let r6 = r4.mul(r2);
    let t2 = r2.div(Fix::from_int(2));
    let t4 = r4.div(Fix::from_int(24));
    let t6 = r6.div(Fix::from_int(720));
    Fix::one().sub(t2).add(t4).sub(t6)
}

/// The arctangent of a ratio in `[0, 1]`.
fn atan_core(t: Fix) -> (r: Fix)
    ensures
        r == fx_atan_core(t),
{
    let u1 = t.div(Fix::one().add(Fix::one().add(t.mul(t)).sqrt()));
    let u = u1.div(Fix::one().add(Fix::one().add(u1.mul(u1)).sqrt()));
    let u2 = u.mul(u);
    let u3 = u.mul(u2);
    let u5 = u3.mul(u2);
    let u7 = u5.mul(u2);
    let u9 = u7.mul(u2);
    let s1 = u.sub(u3.div(Fix::from_int(3)));
    let s2 = s1.add(u5.div(Fix::from_int(5)));
    let s3 = s2.sub(u7.div(Fix::from_int(7)));
    let a = s3.add(u9.div(Fix::from_int(9)));
    a.add(a).add(a.add(a))
}

} // verus!
