//! Quadratic rational maps with a critical four-cycle, parameterized so
//! that `0 -> infinity -> 1 -> c -> 0` is the critical cycle. The plane
//! is colored by the activity of the free critical point.
use vstd::prelude::*;

use crate::cplx::{c_add, c_div, c_inv, c_int, c_mul, c_one, c_scale, c_sqrt, c_sub, Cplx};
use crate::escape::EscapeState;
use crate::family::Family;
use crate::fix::{sfx, Fix, SCALE};
use crate::grid::{Bounds, PointGrid};
use crate::roots::{int_poly, int_poly_spec, solve_polynomial_spec};

verus! {

/// The pole of the parameter chart (the golden ratio plus one).
pub const QUAD_RAT_POLE_RAW: i64 = 43923322;

/// The family's customary rectangle, `[-1, 0.2] x [-0.5, 0.5]`.
pub open spec fn quad_rat_bounds_spec() -> Bounds {
    Bounds {
        min_x: sfx(-(SCALE as int)),
        max_x: sfx(3355443),
        min_y: sfx(-(SCALE as int / 2)),
        max_y: sfx(SCALE as int / 2),
    }
}

/// Model of the parameter chart: `c = 1 / t + pole`.
pub open spec fn quad_rat_param_spec(t: Cplx) -> Cplx {
    c_add(c_inv(t), Cplx { re: sfx(QUAD_RAT_POLE_RAW as int), im: sfx(0) })
}

/// Model of the free critical point: `2 (2 c^2 - c) / (c^2 + c - 1)`.
pub open spec fn quad_rat_start_spec(c: Cplx) -> Cplx {
    let c2 = c_mul(c, c);
    c_div(
        c_scale(sfx(2 * SCALE as int), c_sub(c_add(c2, c2), c)),
        c_sub(c_add(c2, c), c_one()),
    )
}

/// Model of one step of the map together with its derivative, computed
/// over the shared subterms `u = 1 / ((c - 1) z^2)` and `2 c`.
pub open spec fn quad_rat_step_spec(z: Cplx, c: Cplx) -> (Cplx, Cplx) {
    let c2 = c_mul(c, c);
    let cm1 = c_sub(c, c_one());
    let u = c_inv(c_mul(cm1, c_mul(z, z)));
    let two_c = c_add(c, c);
    (
        c_mul(c_mul(c_sub(z, c), c_add(c_sub(c_mul(cm1, z), two_c), c_one())), u),
        c_mul(c_sub(c_add(c2, cm1), c_div(c_sub(c_scale(sfx(4 * SCALE as int), c2), two_c), z)), u),
    )
}

/// The quadratic rational family with a critical four-cycle.
#[derive(Clone, Copy, Debug, PartialEq, Eq, Structural)]
pub struct QuadRatPer4 {
    pub point_grid: PointGrid,
    pub max_iter: u32,
}

impl QuadRatPer4 {
    /// Build over a grid with an iteration budget.
    pub fn new(point_grid: PointGrid, max_iter: u32) -> (r: QuadRatPer4)
        ensures
            r == (QuadRatPer4 { point_grid, max_iter }),
    {
        QuadRatPer4 { point_grid, max_iter }
    }

    /// The family's customary sampling rectangle,
    /// `[-1, 0.2] x [-0.5, 0.5]`.
    pub fn standard_bounds() -> (r: Bounds)
        ensures
            r == quad_rat_bounds_spec(),
    {
        Bounds {
            min_x: Fix::from_int(-1),
            max_x: Fix::from_raw(3355443),
            min_y: Fix::from_raw(-(SCALE / 2)),
            max_y: Fix::from_raw(SCALE / 2),
        }
    }

    /// The parameter chart together with its derivative:
    /// `(1 / t + pole, -1 / t^2)`.
    pub fn param_map_d(&self, t: Cplx) -> (r: (Cplx, Cplx))
        ensures
            r.0 == quad_rat_param_spec(t),
            r.1 == crate::cplx::c_neg(c_inv(c_mul(t, t))),
    {
        (
            t.inv().add(Cplx::from_fix(Fix::from_raw(QUAD_RAT_POLE_RAW))),
            t.mul(t).inv().neg(),
        )
    }

    /// The multiplier of the return map at infinity, a rational function
    /// of the parameter used to renormalize escape potentials.
    pub fn escape_coeff(&self, c: Cplx) -> (r: Cplx)
        ensures
            r == quad_rat_escape_coeff_spec(c),
    {
        let c2 = c.mul(c);
        let c12 = c2.sub(c.add(c)).add(Cplx::one());
        let d0 = c2.add(c).sub(Cplx::one());
        let d1 = d0.sub(c.scale(Fix::from_int(4))).add(Cplx::from_int(2, 0));
        let d2 = c2.add(c2).add(d1);
        let sq = c2.mul(c12);
        let q_numer = c.mul(c.sub(Cplx::one())).mul(c.add(c).sub(Cplx::one())).mul(sq.mul(sq));
        let dd = d0.mul(d1).mul(d2);
        let q_denom = dd.mul(dd);
        q_numer.div(q_denom)
    }

    /// Periodic points of the map at parameter `c`: the fixed-point
    /// cubic and the period-two pair in closed form, stored polynomial
    /// tables for periods three and four, an empty set otherwise. The
    /// period-four set ends with the three known cycle members `1`, `c`
    /// and `0`.
    #[verifier::rlimit(100)]
    pub fn cycles_child_points(&self, c: Cplx, period: u32) -> (r: Vec<Cplx>)
        ensures
            r@ == quad_rat_cycles_spec(c, period),
    {
        let mut v: Vec<Cplx> = Vec::new();
        if period == 1 {
            let cm1 = c.sub(Cplx::one());
            let x3 = c.mul(c).add(c).sub(Cplx::one()).div(cm1);
            let x4 = c.sub(c.mul(c).scale(Fix::from_int(2))).div(cm1);
            let mut coeffs: Vec<Cplx> = Vec::new();
            coeffs.push(x4);
            coeffs.push(x3);
            coeffs.push(Cplx::from_int(-1, 0));
            coeffs.push(Cplx::one());
            proof {
                assert(coeffs@ =~= quad_rat_cycle1_coeffs(c));
            }
            crate::roots::solve_polynomial(&coeffs)
        } else if period == 2 {
            let c2 = c.mul(c);
            let x0 = c2.scale(Fix::from_int(3));
            let denom = Cplx::from_fix(Fix::from_raw(SCALE / 2)).div(c.sub(Cplx::one()));
            let inner = c2.scale(Fix::from_int(8)).sub(c.scale(Fix::from_int(6))).add(
                Cplx::from_int(4, 0),
            );
            let disc = x0.mul(x0).sub(c.mul(inner)).add(Cplx::one()).sqrt();
            v.push(denom.mul(x0.add(disc).sub(Cplx::one())));
            v.push(denom.mul(x0.sub(disc).sub(Cplx::one())));
            proof {
                assert(v@ =~= quad_rat_cycles_spec(c, period));
            }
            v
        } else if period == 3 {
            let mut coeffs: Vec<Cplx> = Vec::new();
            coeffs.push(int_poly(&vec![0, 0, 0, 1, -7, 18, -20, 8], c));
        coeffs.push(int_poly(&vec![0, 0, -4, 25, -54, 41, 4, -12], c));
        coeffs.push(int_poly(&vec![0, 5, -24, 26, 33, -72, 23, 10], c));
        coeffs.push(int_poly(&vec![-2, 2, 29, -83, 71, -4, -10, -5], c));
        coeffs.push(int_poly(&vec![4, -17, 19, 11, -36, 23, -4, 1], c));
        coeffs.push(int_poly(&vec![-2, 9, -16, 14, -4, -3, 2], c));
        coeffs.push(int_poly(&vec![0, 1, -4, 6, -4, 1], c));
            proof {
                assert(coeffs@ =~= quad_rat_cycle3_coeffs(c));
            }
            crate::roots::solve_polynomial(&coeffs)
        } else if period == 4 {
            let mut coeffs: Vec<Cplx> = Vec::new();
            coeffs.push(int_poly(&vec![0, 0, 0, 0, 0, 0, 0, -1, 12, -61, 170, -280, 272, -144, 32], c));
        coeffs.push(int_poly(&vec![0, 0, 0, 0, 1, -15, 103, -419, 1089, -1817, 1835, -896, -72, 272, -80], c));
        coeffs.push(int_poly(&vec![0, 0, 0, -4, 57, -360, 1300, -2868, 3747, -2293, -527, 1686, -732, -104, 96], c));
        coeffs.push(int_poly(&vec![0, 0, 6, -79, 445, -1345, 2127, -841, -3011, 5721, -3916, 382, 726, -144, -72], c));
        coeffs.push(int_poly(&vec![0, -4, 45, -191, 261, 737, -3856, 7348, -6869, 2028, 1633, -1223, -90, 151, 34], c));
        coeffs.push(int_poly(&vec![1, -6, -21, 322, -1375, 2999, -3272, 469, 3191, -3641, 1294, 192, -105, -41, -9], c));
        coeffs.push(int_poly(&vec![-2, 24, -117, 264, -90, -1028, 2817, -3546, 2169, -238, -392, 115, 26, -3, 1], c));
        coeffs.push(int_poly(&vec![1, -14, 87, -312, 701, -987, 774, -121, -362, 329, -98, 1, -1, 2], c));
        coeffs.push(int_poly(&vec![0, 0, 0, 0, 0, -1, 7, -21, 35, -35, 21, -7, 1], c));
            proof {
                assert(coeffs@ =~= quad_rat_cycle4_coeffs(c));
            }
            let mut rs = crate::roots::solve_polynomial(&coeffs);
            rs.push(Cplx::one());
            rs.push(c);
            rs.push(Cplx::zero());
            proof {
                assert(rs@ =~= quad_rat_cycles_spec(c, period));
            }
            rs
        } else {
            v
        }
    }
}

impl QuadRatPer4 {
    /// The marked-cycle cover of this family. The period-three curve is
    /// parameterized through an elliptic function, which lies outside
    /// the lattice kernel; every period therefore gets the identity
    /// cover over the family's own rectangle.
    pub fn marked_cycle_curve(self, period: u32) -> (r: crate::cover::CoveringMap<QuadRatPer4>)
        ensures
            r.base == self,
            r.kind == crate::cover::CoverKind::Identity,
            r.point_grid == self.point_grid,
    {
        crate::cover::CoveringMap::new(self, crate::cover::CoverKind::Identity, self.point_grid)
    }
}

/// The classifier's starting iterate on this plane is the family's free
/// critical point: the second entry of the critical-point list.
pub proof fn lemma_start_point_is_critical(fam: QuadRatPer4, point: Cplx, c: Cplx)
    ensures
        fam.critical_points_spec(c)[1] == fam.start_point_spec(point, c),
{
}

/// Coefficients of the fixed-point cubic at `c`.
pub open spec fn quad_rat_cycle1_coeffs(c: Cplx) -> Seq<Cplx> {
    let cm1 = c_sub(c, c_one());
    let x3 = c_div(c_sub(c_add(c_mul(c, c), c), c_one()), cm1);
    let x4 = c_div(c_sub(c, c_scale(sfx(2 * SCALE as int), c_mul(c, c))), cm1);
    seq![x4, x3, c_int(-1, 0), c_one()]
}

/// Model of the closed-form period-two pair at `c`.
pub open spec fn quad_rat_cycle2_spec(c: Cplx) -> Seq<Cplx> {
    let c2 = c_mul(c, c);
    let x0 = c_scale(sfx(3 * SCALE as int), c2);
    let denom = c_div(Cplx { re: sfx(SCALE as int / 2), im: sfx(0) }, c_sub(c, c_one()));
    let inner = c_add(
        c_sub(c_scale(sfx(8 * SCALE as int), c2), c_scale(sfx(6 * SCALE as int), c)),
        c_int(4, 0),
    );
    let disc = c_sqrt(c_add(c_sub(c_mul(x0, x0), c_mul(c, inner)), c_one()));
    seq![
        c_mul(denom, c_sub(c_add(x0, disc), c_one())),
        c_mul(denom, c_sub(c_sub(x0, disc), c_one())),
    ]
}

/// Coefficients of the stored period-three polynomial at `c`.
pub open spec fn quad_rat_cycle3_coeffs(c: Cplx) -> Seq<Cplx> {
    seq![
        int_poly_spec(seq![0i64, 0i64, 0i64, 1i64, -7i64, 18i64, -20i64, 8i64], c),
        int_poly_spec(seq![0i64, 0i64, -4i64, 25i64, -54i64, 41i64, 4i64, -12i64], c),
        int_poly_spec(seq![0i64, 5i64, -24i64, 26i64, 33i64, -72i64, 23i64, 10i64], c),
        int_poly_spec(seq![-2i64, 2i64, 29i64, -83i64, 71i64, -4i64, -10i64, -5i64], c),
        int_poly_spec(seq![4i64, -17i64, 19i64, 11i64, -36i64, 23i64, -4i64, 1i64], c),
        int_poly_spec(seq![-2i64, 9i64, -16i64, 14i64, -4i64, -3i64, 2i64], c),
        int_poly_spec(seq![0i64, 1i64, -4i64, 6i64, -4i64, 1i64], c),
    ]
}

/// Coefficients of the stored period-four polynomial at `c`.
pub open spec fn quad_rat_cycle4_coeffs(c: Cplx) -> Seq<Cplx> {
    seq![
        int_poly_spec(seq![0i64, 0i64, 0i64, 0i64, 0i64, 0i64, 0i64, -1i64, 12i64, -61i64, 170i64, -280i64, 272i64, -144i64, 32i64], c),
        int_poly_spec(seq![0i64, 0i64, 0i64, 0i64, 1i64, -15i64, 103i64, -419i64, 1089i64, -1817i64, 1835i64, -896i64, -72i64, 272i64, -80i64], c),
        int_poly_spec(seq![0i64, 0i64, 0i64, -4i64, 57i64, -360i64, 1300i64, -2868i64, 3747i64, -2293i64, -527i64, 1686i64, -732i64, -104i64, 96i64], c),
        int_poly_spec(seq![0i64, 0i64, 6i64, -79i64, 445i64, -1345i64, 2127i64, -841i64, -3011i64, 5721i64, -3916i64, 382i64, 726i64, -144i64, -72i64], c),
        int_poly_spec(seq![0i64, -4i64, 45i64, -191i64, 261i64, 737i64, -3856i64, 7348i64, -6869i64, 2028i64, 1633i64, -1223i64, -90i64, 151i64, 34i64], c),
        int_poly_spec(seq![1i64, -6i64, -21i64, 322i64, -1375i64, 2999i64, -3272i64, 469i64, 3191i64, -3641i64, 1294i64, 192i64, -105i64, -41i64, -9i64], c),
        int_poly_spec(seq![-2i64, 24i64, -117i64, 264i64, -90i64, -1028i64, 2817i64, -3546i64, 2169i64, -238i64, -392i64, 115i64, 26i64, -3i64, 1i64], c),
        int_poly_spec(seq![1i64, -14i64, 87i64, -312i64, 701i64, -987i64, 774i64, -121i64, -362i64, 329i64, -98i64, 1i64, -1i64, 2i64], c),
        int_poly_spec(seq![0i64, 0i64, 0i64, 0i64, 0i64, -1i64, 7i64, -21i64, 35i64, -35i64, 21i64, -7i64, 1i64], c),
    ]
}

/// Model of the cycle query over all periods.
pub open spec fn quad_rat_cycles_spec(c: Cplx, period: u32) -> Seq<Cplx> {
    if period == 1 {
        solve_polynomial_spec(quad_rat_cycle1_coeffs(c))
    } else if period == 2 {
        quad_rat_cycle2_spec(c)
    } else if period == 3 {
        solve_polynomial_spec(quad_rat_cycle3_coeffs(c))
    } else if period == 4 {
        solve_polynomial_spec(quad_rat_cycle4_coeffs(c)) + seq![c_one(), c, crate::cplx::c_zero()]
    } else {
        Seq::empty()
    }
}

/// Model of the multiplier of the return map at infinity.
pub open spec fn quad_rat_escape_coeff_spec(c: Cplx) -> Cplx {
    let c2 = c_mul(c, c);
    let c12 = c_add(c_sub(c2, c_add(c, c)), c_one());
    let d0 = c_sub(c_add(c2, c), c_one());
    let d1 = c_add(c_sub(d0, c_scale(sfx(4 * SCALE as int), c)), c_int(2, 0));
    let d2 = c_add(c_add(c2, c2), d1);
    let sq = c_mul(c2, c12);
    let q_numer = c_mul(
        c_mul(c_mul(c, c_sub(c, c_one())), c_sub(c_add(c, c), c_one())),
        c_mul(sq, sq),
    );
    let dd = c_mul(c_mul(d0, d1), d2);
    c_div(q_numer, c_mul(dd, dd))
}

impl Family for QuadRatPer4 {
    open spec fn map_spec(&self, z: Cplx, c: Cplx) -> Cplx {
        quad_rat_step_spec(z, c).0
    }

    open spec fn deriv_spec(&self, z: Cplx, c: Cplx) -> Cplx {
        quad_rat_step_spec(z, c).1
    }

    open spec fn param_map_spec(&self, point: Cplx) -> Cplx {
        quad_rat_param_spec(point)
    }

    open spec fn start_point_spec(&self, point: Cplx, c: Cplx) -> Cplx {
        quad_rat_start_spec(c)
    }

    open spec fn early_spec(&self, start: Cplx, c: Cplx) -> EscapeState {
        EscapeState::NotYetEscaped
    }

    open spec fn degree_spec(&self) -> u32 {
        2u32
    }

    /// The first return to the neighborhood of infinity takes four
    /// steps: the critical cycle passes through infinity.
    open spec fn escaping_period_spec(&self) -> u32 {
        4u32
    }

    open spec fn escape_radius_sqr_spec(&self) -> Fix {
        sfx(160000 * SCALE as int)
    }

    open spec fn periodicity_tol_sqr_spec(&self) -> Fix {
        sfx(16)
    }

    open spec fn grid_spec(&self) -> PointGrid {
        self.point_grid
    }

    open spec fn max_iter_spec(&self) -> u32 {
        self.max_iter
    }

    open spec fn min_iter_spec(&self) -> u32 {
        0u32
    }

    /// The fixed critical point at the origin and the free critical
    /// point of the chart.
    open spec fn critical_points_spec(&self, c: Cplx) -> Seq<Cplx> {
        seq![crate::cplx::c_zero(), quad_rat_start_spec(c)]
    }

    open spec fn default_bounds_spec(&self) -> Bounds {
        quad_rat_bounds_spec()
    }

    /// The square of radius four about the point two.
    open spec fn default_julia_bounds_spec(&self) -> Bounds {
        crate::grid::rect_spec(sfx(4 * SCALE as int), sfx(4 * SCALE as int), c_int(2, 0))
    }

    fn map(&self, z: Cplx, c: Cplx) -> (r: Cplx) {
        let cm1 = c.sub(Cplx::one());
        let u = cm1.mul(z.mul(z)).inv();
        let two_c = c.add(c);
        z.sub(c).mul(cm1.mul(z).sub(two_c).add(Cplx::one())).mul(u)
    }

    fn map_and_multiplier(&self, z: Cplx, c: Cplx) -> (r: (Cplx, Cplx)) {
        let c2 = c.mul(c);
        let cm1 = c.sub(Cplx::one());
        let u = cm1.mul(z.mul(z)).inv();
        let two_c = c.add(c);
        (
            z.sub(c).mul(cm1.mul(z).sub(two_c).add(Cplx::one())).mul(u),
            c2.add(cm1).sub(c2.scale(Fix::from_int(4)).sub(two_c).div(z)).mul(u),
        )
    }

    fn param_map(&self, point: Cplx) -> (r: Cplx) {
        point.inv().add(Cplx::from_fix(Fix::from_raw(QUAD_RAT_POLE_RAW)))
    }

    fn start_point(&self, point: Cplx, c: Cplx) -> (r: Cplx) {
        let c2 = c.mul(c);
        c2.add(c2).sub(c).scale(Fix::from_int(2)).div(c2.add(c).sub(Cplx::one()))
    }

    fn early_bailout(&self, start: Cplx, c: Cplx) -> (r: EscapeState) {
        EscapeState::NotYetEscaped
    }

    fn degree(&self) -> (r: u32) {
        2
    }

    fn escaping_period(&self) -> (r: u32) {
        4
    }

    fn escape_radius_sqr(&self) -> (r: Fix) {
        Fix::from_raw(160000 * SCALE)
    }

    fn periodicity_tol_sqr(&self) -> (r: Fix) {
        Fix::from_raw(16)
    }

    fn point_grid(&self) -> (r: &PointGrid) {
        &self.point_grid
    }

    fn max_iter(&self) -> (r: u32) {
        self.max_iter
    }

    fn min_iter(&self) -> (r: u32) {
        0
    }

    fn default_bounds(&self) -> (r: Bounds) {
        QuadRatPer4::standard_bounds()
    }

    /// Julia sets of this family fit in a square of radius four about
    /// the point two.
    fn default_julia_bounds(&self) -> (r: Bounds) {
        Bounds::square(Fix::from_int(4), Cplx::from_int(2, 0))
    }

    /// The fixed critical point at the origin and the free critical
    /// point.
    fn critical_points_child(&self, c: Cplx) -> (r: Vec<Cplx>) {
        let mut v: Vec<Cplx> = Vec::new();
        v.push(Cplx::zero());
        let c2 = c.mul(c);
        v.push(c2.add(c2).sub(c).scale(Fix::from_int(2)).div(c2.add(c).sub(Cplx::one())));
        proof {
            assert(v@ =~= self.critical_points_spec(c));
        }
        v
    }

    fn cycles_child(&self, c: Cplx, period: u32) -> (r: Vec<Cplx>) {
        self.cycles_child_points(c, period)
    }
}

} // verus!
