//! Complex numbers over the saturating fixed-point scalars.
use vstd::prelude::*;

use crate::fix::{f_add, f_div, f_half, f_mul, f_neg, f_sqrt, f_sub, sfx, Fix, SAT_RAW, SCALE};

verus! {

/// A complex number with fixed-point real and imaginary parts.
#[derive(Clone, Copy, Debug, PartialEq, Eq, Structural)]
pub struct Cplx {
    pub re: Fix,
    pub im: Fix,
}

/// The complex zero, for use in models.
pub open spec fn c_zero() -> Cplx {
    Cplx { re: sfx(0), im: sfx(0) }
}

/// The complex one, for use in models.
pub open spec fn c_one() -> Cplx {
    Cplx { re: sfx(SCALE as int), im: sfx(0) }
}

/// The complex image of a pair of integers, for use in models.
pub open spec fn c_int(re: int, im: int) -> Cplx {
    Cplx { re: sfx(re * SCALE), im: sfx(im * SCALE) }
}

/// Whether either component sits at a saturation bound: the stand-in for
/// an overflowed or undefined value.
pub open spec fn c_huge(a: Cplx) -> bool {
    ||| a.re.raw as int == SAT_RAW as int
    ||| a.re.raw as int == -(SAT_RAW as int)
    ||| a.im.raw as int == SAT_RAW as int
    ||| a.im.raw as int == -(SAT_RAW as int)
}

/// Model of complex addition.
pub open spec fn c_add(a: Cplx, b: Cplx) -> Cplx {
    Cplx { re: f_add(a.re, b.re), im: f_add(a.im, b.im) }
}

/// Model of complex subtraction.
pub open spec fn c_sub(a: Cplx, b: Cplx) -> Cplx {
    Cplx { re: f_sub(a.re, b.re), im: f_sub(a.im, b.im) }
}

/// Model of complex negation.
pub open spec fn c_neg(a: Cplx) -> Cplx {
    Cplx { re: f_neg(a.re), im: f_neg(a.im) }
}

/// Model of complex multiplication.
pub open spec fn c_mul(a: Cplx, b: Cplx) -> Cplx {
    Cplx {
        re: f_sub(f_mul(a.re, b.re), f_mul(a.im, b.im)),
        im: f_add(f_mul(a.re, b.im), f_mul(a.im, b.re)),
    }
}

/// Model of scaling by a fixed-point scalar.
pub open spec fn c_scale(s: Fix, a: Cplx) -> Cplx {
    Cplx { re: f_mul(s, a.re), im: f_mul(s, a.im) }
}

/// Model of the squared modulus.
pub open spec fn c_norm_sqr(a: Cplx) -> Fix {
    f_add(f_mul(a.re, a.re), f_mul(a.im, a.im))
}

/// Model of the modulus.
pub open spec fn c_norm(a: Cplx) -> Fix {
    f_sqrt(c_norm_sqr(a))
}

/// Model of the complex reciprocal: conjugate over squared modulus.
pub open spec fn c_inv(a: Cplx) -> Cplx {
    Cplx { re: f_div(a.re, c_norm_sqr(a)), im: f_neg(f_div(a.im, c_norm_sqr(a))) }
}

/// Model of complex division: `a * conj(b) / |b|^2`, componentwise.
pub open spec fn c_div(a: Cplx, b: Cplx) -> Cplx {
    let ns = c_norm_sqr(b);
    let pre = f_add(f_mul(a.re, b.re), f_mul(a.im, b.im));
    let pim = f_sub(f_mul(a.im, b.re), f_mul(a.re, b.im));
    Cplx { re: f_div(pre, ns), im: f_div(pim, ns) }
}

/// Model of the principal complex square root.
pub open spec fn c_sqrt(a: Cplx) -> Cplx {
    let m = c_norm(a);
    let rr = f_sqrt(f_half(f_add(m, a.re)));
    let ri = f_sqrt(f_half(f_sub(m, a.re)));
    if a.im.raw < 0 {
        Cplx { re: rr, im: f_neg(ri) }
    } else {
        Cplx { re: rr, im: ri }
    }
}

impl Cplx {
    /// Build from parts.
    pub fn new(re: Fix, im: Fix) -> (r: Cplx)
        ensures
            r == (Cplx { re, im }),
    {
        Cplx { re, im }
    }

    /// The complex zero.
    pub fn zero() -> (r: Cplx)
        ensures
            r.re.raw == 0,
            r.im.raw == 0,
            r == c_zero(),
    {
        Cplx { re: Fix::zero(), im: Fix::zero() }
    }

    /// The complex one.
    pub fn one() -> (r: Cplx)
        ensures
            r.re.raw == SCALE,
            r.im.raw == 0,
            r == c_one(),
    {
        Cplx { re: Fix::one(), im: Fix::zero() }
    }

    /// The complex image of a pair of small integers (exact).
    pub fn from_int(re: i32, im: i32) -> (r: Cplx)
        ensures
            r.re.raw == re * SCALE,
            r.im.raw == im * SCALE,
            r == c_int(re as int, im as int),
    {
        Cplx { re: Fix::from_int(re), im: Fix::from_int(im) }
    }

    /// A real number viewed as a complex one.
    pub fn from_fix(x: Fix) -> (r: Cplx)
        ensures
            r.re == x,
            r.im.raw == 0,
    {
        Cplx { re: x, im: Fix::zero() }
    }

    /// Complex addition.
    pub fn add(self, other: Cplx) -> (r: Cplx)
        ensures
            r == c_add(self, other),
    {
        Cplx { re: self.re.add(other.re), im: self.im.add(other.im) }
    }

    /// Complex subtraction.
    pub fn sub(self, other: Cplx) -> (r: Cplx)
        ensures
            r == c_sub(self, other),
    {
        Cplx { re: self.re.sub(other.re), im: self.im.sub(other.im) }
    }

    /// Complex negation.
    pub fn neg(self) -> (r: Cplx)
        ensures
            r == c_neg(self),
    {
        Cplx { re: self.re.neg(), im: self.im.neg() }
    }

    /// Complex multiplication.
    pub fn mul(self, other: Cplx) -> (r: Cplx)
        ensures
            r == c_mul(self, other),
    {
        let ac = self.re.mul(other.re);
        let bd = self.im.mul(other.im);
        let ad = self.re.mul(other.im);
        let bc = self.im.mul(other.re);
        Cplx { re: ac.sub(bd), im: ad.add(bc) }
    }

    /// Scale by a fixed-point scalar.
    pub fn scale(self, s: Fix) -> (r: Cplx)
        ensures
            r == c_scale(s, self),
    {
        Cplx { re: s.mul(self.re), im: s.mul(self.im) }
    }

    /// Squared modulus.
    pub fn norm_sqr(self) -> (r: Fix)
        ensures
            r == c_norm_sqr(self),
    {
        self.re.mul(self.re).add(self.im.mul(self.im))
    }

    /// Modulus.
    pub fn norm(self) -> (r: Fix)
        ensures
            r == c_norm(self),
    {
        self.norm_sqr().sqrt()
    }

    /// Complex reciprocal; saturates componentwise at the zero input.
    pub fn inv(self) -> (r: Cplx)
        ensures
            r == c_inv(self),
    {
        let ns = self.norm_sqr();
        Cplx { re: self.re.div(ns), im: self.im.div(ns).neg() }
    }

    /// Complex division; saturates componentwise on a zero divisor.
    pub fn div(self, other: Cplx) -> (r: Cplx)
        ensures
            r == c_div(self, other),
    {
        let ns = other.norm_sqr();
        let pre = self.re.mul(other.re).add(self.im.mul(other.im));
        let pim = self.im.mul(other.re).sub(self.re.mul(other.im));
        Cplx { re: pre.div(ns), im: pim.div(ns) }
    }

    /// Principal complex square root.
    pub fn sqrt(self) -> (r: Cplx)
        ensures
            r == c_sqrt(self),
    {
        let m = self.norm();
        let rr = m.add(self.re).half().sqrt();
        let ri = m.sub(self.re).half().sqrt();
        if self.im.raw < 0 {
            Cplx { re: rr, im: ri.neg() }
        } else {
            Cplx { re: rr, im: ri }
        }
    }

    /// Whether either component sits at a saturation bound.
    pub fn is_huge(self) -> (b: bool)
        ensures
            b == c_huge(self),
    {
        self.re.is_huge() || self.im.is_huge()
    }
}

} // verus!
