//! The Chebyshev families: maps `c * T_{2D}(z / 2)` built from the
//! Chebyshev polynomial coefficient table.
//!
//! The table stores the nonzero coefficients of each `T_n` packed by
//! parity, extended on demand through the three-term recurrence. The
//! family's degree is a runtime field; the coefficient lists are derived
//! from the table when an instance is built.
use vstd::prelude::*;

use crate::cplx::{c_mul, c_neg, c_one, c_scale, c_zero, Cplx};
use crate::escape::EscapeState;
use crate::family::Family;
use crate::fix::{f_add, f_neg, f_sqrt, f_sub, sfx, Fix, SCALE};
use crate::grid::{Bounds, PointGrid};
use crate::roots::poly_eval_spec;

verus! {

/// Clamp a mathematical integer into the machine word range.
pub open spec fn sat64(x: int) -> int {
    if x > i64::MAX as int {
        i64::MAX as int
    } else if x < i64::MIN as int {
        i64::MIN as int
    } else {
        x
    }
}

/// Model of one recurrence step of the packed coefficient table: the
/// next row pairs the previous row (shifted for even degrees) against
/// the one before it, entrywise `2 b - a`.
pub open spec fn cheb_next_spec(prev2: Seq<i64>, prev1: Seq<i64>, even: bool) -> Seq<i64> {
    let a = prev2.push(0i64);
    let b = if even {
        seq![0i64] + prev1
    } else {
        prev1
    };
    let n = if a.len() <= b.len() {
        a.len()
    } else {
        b.len()
    };
    Seq::new(n, |i: int| sat64(2 * b[i] - a[i]) as i64)
}

/// Model of growing the table by one row.
pub open spec fn cheb_extend_spec(t: Seq<Seq<i64>>) -> Seq<Seq<i64>> {
    t.push(cheb_next_spec(t[t.len() - 2], t[t.len() - 1], t.len() % 2 == 0))
}

/// Model of growing the table until it holds the given degree.
pub open spec fn cheb_extend_to_spec(t: Seq<Seq<i64>>, degree: int) -> Seq<Seq<i64>>
    decreases degree - t.len() + 1,
{
    if t.len() > degree || t.len() < 2 {
        t
    } else {
        cheb_extend_to_spec(cheb_extend_spec(t), degree)
    }
}

/// The base table: the constant rows of the zeroth and first degree.
pub open spec fn cheb_base_spec() -> Seq<Seq<i64>> {
    seq![seq![1i64], seq![1i64]]
}

/// The packed Chebyshev coefficient table: row `n` holds the nonzero
/// coefficients of the degree-`n` polynomial, lowest first.
#[derive(Clone, Debug)]
pub struct ChebyshevCoeffTable {
    pub coeffs: Vec<Vec<i64>>,
}

impl ChebyshevCoeffTable {
    /// The view of the table as a sequence of rows.
    pub open spec fn rows(&self) -> Seq<Seq<i64>> {
        self.coeffs@.map_values(|v: Vec<i64>| v@)
    }

    /// A well-formed table: at least the two base rows, a bounded number
    /// of them, and each row no longer than its degree plus one.
    pub open spec fn wf(&self) -> bool {
        &&& 2 <= self.coeffs@.len() <= 0x0100_0000
        &&& forall|i: int|
            0 <= i < self.coeffs@.len() ==> (#[trigger] self.coeffs@[i])@.len() <= i + 1
    }

    /// The two base rows.
    pub fn base() -> (r: ChebyshevCoeffTable)
        ensures
            r.rows() == cheb_base_spec(),
            r.wf(),
    {
        let mut coeffs: Vec<Vec<i64>> = Vec::new();
        let mut row0: Vec<i64> = Vec::new();
        row0.push(1);
        let mut row1: Vec<i64> = Vec::new();
        row1.push(1);
        coeffs.push(row0);
        coeffs.push(row1);
        let t = ChebyshevCoeffTable { coeffs };
        proof {
            assert(t.rows() =~= cheb_base_spec());
        }
        t
    }

    /// A table holding every degree up to `max_degree`.
    pub fn new(max_degree: usize) -> (r: ChebyshevCoeffTable)
        requires
            max_degree < 0x0100_0000,
        ensures
            r.rows() == cheb_extend_to_spec(cheb_base_spec(), max_degree as int),
            r.wf(),
            max_degree < r.coeffs@.len(),
    {
        Self::base().with_max_degree(max_degree)
    }

    /// Append the next row through the recurrence.
    #[verifier::loop_isolation(false)]
    pub fn extend(&mut self)
        requires
            old(self).wf(),
            old(self).coeffs@.len() < 0x0100_0000,
        ensures
            final(self).rows() == cheb_extend_spec(old(self).rows()),
            final(self).wf(),
            final(self).coeffs@.len() == old(self).coeffs@.len() + 1,
    {
        let n = self.coeffs.len();
        let even: bool = n % 2 == 0;
        let a_len: usize = self.coeffs[n - 2].len() + 1;
        let b_len: usize = if even {
            self.coeffs[n - 1].len() + 1
        } else {
            self.coeffs[n - 1].len()
        };
        let m: usize = if a_len <= b_len {
            a_len
        } else {
            b_len
        };
        let ghost aa = self.coeffs@[n - 2]@.push(0i64);
        let ghost bb = if even {
            seq![0i64] + self.coeffs@[n - 1]@
        } else {
            self.coeffs@[n - 1]@
        };
        let mut row: Vec<i64> = Vec::new();
        let mut i: usize = 0;
        while i < m
            invariant
                i <= m,
                row@.len() == i,
                forall|j: int| 0 <= j < i ==> #[trigger] row@[j] as int == sat64(2 * bb[j] - aa[j]),
            decreases m - i,
        {
            let av: i64 = if i < self.coeffs[n - 2].len() {
                self.coeffs[n - 2][i]
            } else {
                0
            };
            let bv: i64 = if even {
                if i == 0 {
                    0
                } else {
                    self.coeffs[n - 1][i - 1]
                }
            } else {
                self.coeffs[n - 1][i]
            };
            let wide: i128 = 2 * (bv as i128) - (av as i128);
            let e: i64 = if wide > i64::MAX as i128 {
                i64::MAX
            } else if wide < i64::MIN as i128 {
                i64::MIN
            } else {
                wide as i64
            };
            row.push(e);
            i = i + 1;
        }
        proof {
            assert(row@ =~= cheb_next_spec(
                old(self).rows()[old(self).rows().len() - 2],
                old(self).rows()[old(self).rows().len() - 1],
                old(self).rows().len() % 2 == 0,
            ));
        }
        self.coeffs.push(row);
        proof {
            assert(self.rows() =~= cheb_extend_spec(old(self).rows()));
        }
    }

    /// Grow the table until it holds the given degree.
    #[verifier::loop_isolation(false)]
    pub fn extend_to(&mut self, degree: usize)
        requires
            old(self).wf(),
            degree < 0x0100_0000,
        ensures
            final(self).rows() == cheb_extend_to_spec(old(self).rows(), degree as int),
            final(self).wf(),
            degree < final(self).coeffs@.len(),
    {
        while self.coeffs.len() <= degree
            invariant
                self.wf(),
                cheb_extend_to_spec(self.rows(), degree as int) == cheb_extend_to_spec(
                    old(self).rows(),
                    degree as int,
                ),
            decreases degree + 1 - self.coeffs@.len(),
        {
            self.extend();
        }
    }

    /// Consuming variant of `extend_to`.
    pub fn with_max_degree(self, degree: usize) -> (r: ChebyshevCoeffTable)
        requires
            self.wf(),
            degree < 0x0100_0000,
        ensures
            r.rows() == cheb_extend_to_spec(self.rows(), degree as int),
            r.wf(),
            degree < r.coeffs@.len(),
    {
        let mut t = self;
        t.extend_to(degree);
        t
    }

    /// The coefficient row of the given degree, growing the table as
    /// needed.
    #[verifier::loop_isolation(false)]
    pub fn coefficients(&mut self, degree: usize) -> (r: Vec<i64>)
        requires
            old(self).wf(),
            degree < 0x0100_0000,
        ensures
            final(self).rows() == cheb_extend_to_spec(old(self).rows(), degree as int),
            final(self).wf(),
            r@ == final(self).rows()[degree as int],
    {
        self.extend_to(degree);
        let mut out: Vec<i64> = Vec::new();
        let mut i: usize = 0;
        let len: usize = self.coeffs[degree].len();
        while i < len
            invariant
                i <= len,
                len == self.coeffs@[degree as int]@.len(),
                out@ =~= self.coeffs@[degree as int]@.subrange(0, i as int),
            decreases len - i,
        {
            let x: i64 = self.coeffs[degree][i];
            out.push(x);
            i = i + 1;
        }
        proof {
            assert(out@ =~= self.rows()[degree as int]);
        }
        out
    }
}

/// The packed coefficient row of the Chebyshev polynomial of degree
/// `2 d`.
pub open spec fn cheb_row_spec(d: u32) -> Seq<i64> {
    cheb_extend_to_spec(cheb_base_spec(), 2 * d as int)[2 * d as int]
}

/// The sign the family flips its coefficients by: negative for odd
/// half-degrees.
pub open spec fn cheb_sign_spec(d: u32) -> int {
    if d % 2 == 0 {
        1int
    } else {
        -1int
    }
}

/// The family's fixed-point coefficient list: the packed row of degree
/// `2 d`, sign-flipped and lifted to the lattice.
pub open spec fn cheb_coeffs_spec(d: u32) -> Seq<Cplx> {
    cheb_row_spec(d).map_values(
        |x: i64| Cplx { re: sfx(crate::fix::sat(cheb_sign_spec(d) * x * SCALE)), im: sfx(0) },
    )
}

/// The derivative's coefficient list: entry `k` of the coefficients
/// scaled by `k`, for `k` from one up.
pub open spec fn cheb_coeffs_d_spec(d: u32) -> Seq<Cplx> {
    let n = if cheb_coeffs_spec(d).len() == 0 {
        0int
    } else {
        cheb_coeffs_spec(d).len() - 1
    };
    Seq::new(n as nat, |k: int| c_scale(sfx((k + 1) * SCALE), cheb_coeffs_spec(d)[k + 1]))
}

/// A Chebyshev family of half-degree `d`: the map `c * T_{2d}(z / 2)`.
#[derive(Clone, Debug)]
pub struct Chebyshev {
    pub point_grid: PointGrid,
    pub max_iter: u32,
    pub degree_half: u32,
    pub coeffs: Vec<Cplx>,
    pub coeffs_d: Vec<Cplx>,
}

impl Chebyshev {
    /// Build the family of half-degree `d` over the given grid: the
    /// coefficient lists come from the packed table of degree `2 d`,
    /// sign-flipped for odd `d` so the escape direction is positive.
    #[verifier::loop_isolation(false)]
    pub fn with_degree(d: u32, point_grid: PointGrid, max_iter: u32) -> (r: Chebyshev)
        requires
            1 <= d <= 1024,
        ensures
            r.degree_half == d,
            r.point_grid == point_grid,
            r.max_iter == max_iter,
            r.coeffs@ == cheb_coeffs_spec(d),
            r.coeffs_d@ == cheb_coeffs_d_spec(d),
    {
        let mut table = ChebyshevCoeffTable::new((2 * d) as usize);
        let row = table.coefficients((2 * d) as usize);
        let sign: i64 = if d % 2 == 0 {
            1
        } else {
            -1
        };
        let mut coeffs: Vec<Cplx> = Vec::new();
        let mut i: usize = 0;
        while i < row.len()
            invariant
                i <= row@.len(),
                row@ == cheb_row_spec(d),
                coeffs@ =~= cheb_coeffs_spec(d).subrange(0, i as int),
            decreases row@.len() - i,
        {
            let x: i64 = row[i];
            proof {
                assert((sign as int) * (x as int) * (SCALE as int) == (sign as int) * ((x as int)
                    * (SCALE as int))) by (nonlinear_arith);
                assert(cheb_coeffs_spec(d)[i as int] == (Cplx {
                    re: crate::fix::sfx(crate::fix::sat(cheb_sign_spec(d) * x * SCALE)),
                    im: sfx(0),
                }));
            }
            let v: Fix = if sign == 1 {
                Fix::from_int_sat(x)
            } else {
                let y = Fix::from_int_sat(x);
                proof {
                    assert(crate::fix::fx_neg(crate::fix::sat(x as int * SCALE)) == crate::fix::sat(
                        -(x as int * SCALE),
                    ));
                    assert(-(x as int * SCALE) == (-1int) * (x as int) * SCALE)
                        by (nonlinear_arith);
                }
                y.neg()
            };
            coeffs.push(Cplx::new(v, Fix::zero()));
            proof {
                assert(coeffs@ =~= cheb_coeffs_spec(d).subrange(0, i + 1));
            }
            i = i + 1;
        }
        proof {
            assert(coeffs@ =~= cheb_coeffs_spec(d));
        }
        let mut coeffs_d: Vec<Cplx> = Vec::new();
        if coeffs.len() >= 1 {
            let mut k: usize = 1;
            while k < coeffs.len()
                invariant
                    1 <= k <= coeffs@.len(),
                    coeffs@ == cheb_coeffs_spec(d),
                    coeffs@.len() <= 0x0100_0000,
                    coeffs_d@ =~= cheb_coeffs_d_spec(d).subrange(0, k - 1),
                decreases coeffs@.len() - k,
            {
                let factor = Fix::from_raw((k as i64) * SCALE);
                coeffs_d.push(coeffs[k].scale(factor));
                proof {
                    assert(coeffs_d@ =~= cheb_coeffs_d_spec(d).subrange(0, k as int));
                }
                k = k + 1;
            }
        }
        proof {
            assert(coeffs_d@ =~= cheb_coeffs_d_spec(d));
        }
        Chebyshev { point_grid, max_iter, degree_half: d, coeffs, coeffs_d }
    }
}

/// The free critical points of a Chebyshev map with a stored closed
/// form: the origin always, and square-root radicals for the low
/// half-degrees.
pub open spec fn cheb_crit_spec(d: u32) -> Seq<Cplx> {
    if d == 2 {
        let s2 = Cplx { re: f_sqrt(sfx(2 * SCALE as int)), im: sfx(0) };
        seq![c_zero(), s2, c_neg(s2)]
    } else if d == 3 {
        let s3 = Cplx { re: f_sqrt(sfx(3 * SCALE as int)), im: sfx(0) };
        seq![c_zero(), s3, c_neg(s3), c_one(), c_neg(c_one())]
    } else if d == 4 {
        let s2f = f_sqrt(sfx(2 * SCALE as int));
        let s2 = Cplx { re: s2f, im: sfx(0) };
        let outer = Cplx { re: f_sqrt(f_add(sfx(2 * SCALE as int), s2f)), im: sfx(0) };
        let inner = Cplx { re: f_sqrt(f_sub(sfx(2 * SCALE as int), s2f)), im: sfx(0) };
        seq![c_zero(), s2, c_neg(s2), outer, c_neg(outer), inner, c_neg(inner)]
    } else {
        seq![c_zero()]
    }
}

/// The sampling radius of a Chebyshev plane: `3` over the half-degree.
pub open spec fn cheb_radius_spec(d: u32) -> Fix {
    sfx(3 * SCALE as int / (if d == 0 {
        1int
    } else {
        d as int
    }))
}

/// Model of the Chebyshev step: evaluate the coefficient list at
/// `(z / 2)^2` and scale by the parameter.
pub open spec fn cheb_map_spec(coeffs: Seq<Cplx>, z: Cplx, c: Cplx) -> Cplx {
    let w = c_scale(sfx(SCALE as int / 2), z);
    c_mul(c, poly_eval_spec(coeffs, c_mul(w, w)))
}

/// Model of the Chebyshev step derivative: the derivative list at
/// `(z / 2)^2`, scaled by the parameter and by `z / 2`.
pub open spec fn cheb_deriv_spec(coeffs_d: Seq<Cplx>, z: Cplx, c: Cplx) -> Cplx {
    let w = c_scale(sfx(SCALE as int / 2), z);
    c_mul(c_mul(c, poly_eval_spec(coeffs_d, c_mul(w, w))), w)
}

impl Family for Chebyshev {
    open spec fn map_spec(&self, z: Cplx, c: Cplx) -> Cplx {
        cheb_map_spec(self.coeffs@, z, c)
    }

    open spec fn deriv_spec(&self, z: Cplx, c: Cplx) -> Cplx {
        cheb_deriv_spec(self.coeffs_d@, z, c)
    }

    open spec fn param_map_spec(&self, point: Cplx) -> Cplx {
        point
    }

    /// The origin is a critical point of every Chebyshev map.
    open spec fn start_point_spec(&self, point: Cplx, c: Cplx) -> Cplx {
        crate::cplx::c_zero()
    }

    open spec fn early_spec(&self, start: Cplx, c: Cplx) -> EscapeState {
        EscapeState::NotYetEscaped
    }

    open spec fn degree_spec(&self) -> u32 {
        (2 * self.degree_half) as u32
    }

    open spec fn escaping_period_spec(&self) -> u32 {
        1u32
    }

    open spec fn escape_radius_sqr_spec(&self) -> Fix {
        sfx(160000 * SCALE as int)
    }

    open spec fn periodicity_tol_sqr_spec(&self) -> Fix {
        sfx(16)
    }

    open spec fn grid_spec(&self) -> PointGrid {
        self.point_grid
    }

    open spec fn max_iter_spec(&self) -> u32 {
        self.max_iter
    }

    open spec fn min_iter_spec(&self) -> u32 {
        0u32
    }

    open spec fn critical_points_spec(&self, c: Cplx) -> Seq<Cplx> {
        cheb_crit_spec(self.degree_half)
    }

    open spec fn default_bounds_spec(&self) -> Bounds {
        Bounds {
            min_x: f_neg(cheb_radius_spec(self.degree_half)),
            max_x: cheb_radius_spec(self.degree_half),
            min_y: f_neg(cheb_radius_spec(self.degree_half)),
            max_y: cheb_radius_spec(self.degree_half),
        }
    }

    open spec fn default_julia_bounds_spec(&self) -> Bounds {
        self.default_bounds_spec()
    }

    fn map(&self, z: Cplx, c: Cplx) -> (r: Cplx) {
        let w = z.scale(Fix::from_raw(SCALE / 2));
        c.mul(crate::roots::poly_eval(&self.coeffs, w.mul(w)))
    }

    fn map_and_multiplier(&self, z: Cplx, c: Cplx) -> (r: (Cplx, Cplx)) {
        let w = z.scale(Fix::from_raw(SCALE / 2));
        let w2 = w.mul(w);
        let zval = crate::roots::poly_eval(&self.coeffs, w2);
        let dval = crate::roots::poly_eval(&self.coeffs_d, w2);
        (c.mul(zval), c.mul(dval).mul(w))
    }

    fn param_map(&self, point: Cplx) -> (r: Cplx) {
        point
    }

    fn start_point(&self, point: Cplx, c: Cplx) -> (r: Cplx) {
        Cplx::zero()
    }

    fn early_bailout(&self, start: Cplx, c: Cplx) -> (r: EscapeState) {
        EscapeState::NotYetEscaped
    }

    fn degree(&self) -> (r: u32) {
        #[verifier::truncate]
        ((2u64 * (self.degree_half as u64)) as u32)
    }

    fn escaping_period(&self) -> (r: u32) {
        1
    }

    fn escape_radius_sqr(&self) -> (r: Fix) {
        Fix::from_raw(160000 * SCALE)
    }

    fn periodicity_tol_sqr(&self) -> (r: Fix) {
        Fix::from_raw(16)
    }

    fn point_grid(&self) -> (r: &PointGrid) {
        &self.point_grid
    }

    fn max_iter(&self) -> (r: u32) {
        self.max_iter
    }

    fn min_iter(&self) -> (r: u32) {
        0
    }

    fn default_bounds(&self) -> (r: Bounds) {
        let d: i64 = if self.degree_half == 0 {
            1
        } else {
            self.degree_half as i64
        };
        Bounds::centered_square(Fix::from_raw(3 * SCALE / d))
    }

    fn default_julia_bounds(&self) -> (r: Bounds) {
        let d: i64 = if self.degree_half == 0 {
            1
        } else {
            self.degree_half as i64
        };
        Bounds::centered_square(Fix::from_raw(3 * SCALE / d))
    }

    /// The free critical points with a stored closed form: square-root
    /// expressions for the low half-degrees, the origin always.
    fn critical_points_child(&self, c: Cplx) -> (r: Vec<Cplx>) {
        let mut v: Vec<Cplx> = Vec::new();
        v.push(Cplx::zero());
        if self.degree_half == 2 {
            let s2 = Fix::from_int(2).sqrt();
            v.push(Cplx::from_fix(s2));
            v.push(Cplx::from_fix(s2).neg());
            proof {
                assert(v@ =~= cheb_crit_spec(self.degree_half));
            }
        } else if self.degree_half == 3 {
            let s3 = Fix::from_int(3).sqrt();
            v.push(Cplx::from_fix(s3));
            v.push(Cplx::from_fix(s3).neg());
            v.push(Cplx::one());
            v.push(Cplx::one().neg());
            proof {
                assert(v@ =~= cheb_crit_spec(self.degree_half));
            }
        } else if self.degree_half == 4 {
            let s2 = Fix::from_int(2).sqrt();
            let outer = Fix::from_int(2).add(s2).sqrt();
            let inner = Fix::from_int(2).sub(s2).sqrt();
            v.push(Cplx::from_fix(s2));
            v.push(Cplx::from_fix(s2).neg());
            v.push(Cplx::from_fix(outer));
            v.push(Cplx::from_fix(outer).neg());
            v.push(Cplx::from_fix(inner));
            v.push(Cplx::from_fix(inner).neg());
            proof {
                assert(v@ =~= cheb_crit_spec(self.degree_half));
            }
        } else {
            proof {
                assert(v@ =~= cheb_crit_spec(self.degree_half));
            }
        }
        v
    }

    fn cycles_child(&self, c: Cplx, period: u32) -> (r: Vec<Cplx>) {
        let v: Vec<Cplx> = Vec::new();
        v
    }
}

} // verus!