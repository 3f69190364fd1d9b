//! The covering-map adapter: a base family reparameterized by an
//! algebraic substitution, realizing marked-cycle, dynatomic and
//! Misiurewicz curves inside the family's moduli space as first-class
//! families.
//!
//! The substitution is applied to the sampled coordinate before the
//! base family's parameter map; the base family itself is untouched,
//! only the sampling rectangle is replaced by one fitting the curve.
use vstd::prelude::*;

use crate::cplx::{c_add, c_div, c_inv, c_int, c_mul, c_neg, c_one, c_scale, c_sub, Cplx};
use crate::escape::EscapeState;
use crate::family::Family;
use crate::fix::{sfx, Fix, SCALE};
use crate::grid::{Bounds, PointGrid};

verus! {

/// The algebraic substitutions realized by the covers of the quadratic
/// family: marked-cycle curves, dynatomic curves and Misiurewicz curves
/// of small combinatorics, plus the identity cover.
#[derive(Clone, Copy, Debug, PartialEq, Eq, Structural)]
pub enum CoverKind {
    Identity,
    /// Multiplier coordinate of the fixed point: `c = 1/4 - t^2`.
    MarkedCycleOne,
    /// The marked three-cycle curve: `c = -7/4 (1 + 7 t^2)`.
    MarkedCycleThree,
    /// The marked four-cycle curve: `c = -t^2/4 - 3/4 - 1/t`.
    MarkedCycleFour,
    /// The period-two dynatomic curve: `c = 9 (t - 1) / t^2 - 3`.
    DynatomicTwo,
    /// The period-three dynatomic curve, a rational map of degree four.
    DynatomicThree,
    /// The Misiurewicz curve of preperiod two onto the fixed point.
    MisiurewiczTwoOne,
    /// The Misiurewicz curve of preperiod two onto the two-cycle.
    MisiurewiczTwoTwo,
}

/// Model of a substitution: the reparameterized coordinate and the
/// substitution's derivative.
pub open spec fn cover_apply_spec(kind: CoverKind, t: Cplx) -> (Cplx, Cplx) {
    match kind {
        CoverKind::Identity => (t, c_one()),
        CoverKind::MarkedCycleOne => (
            c_sub(Cplx { re: sfx(SCALE as int / 4), im: sfx(0) }, c_mul(t, t)),
            c_neg(c_add(t, t)),
        ),
        CoverKind::MarkedCycleThree => (
            c_scale(
                sfx(-29360128),
                c_add(c_one(), c_scale(sfx(7 * SCALE as int), c_mul(t, t))),
            ),
            c_scale(sfx(-411041792), t),
        ),
        CoverKind::MarkedCycleFour => (
            c_sub(
                c_sub(
                    c_scale(sfx(-(SCALE as int / 4)), c_mul(t, t)),
                    Cplx { re: sfx(3 * (SCALE as int / 4)), im: sfx(0) },
                ),
                c_inv(t),
            ),
            c_sub(c_inv(c_mul(t, t)), c_scale(sfx(SCALE as int / 2), t)),
        ),
        CoverKind::DynatomicTwo => {
            let u = c_div(c_int(9, 0), c_mul(t, t));
            (
                c_sub(c_mul(c_sub(t, c_one()), u), c_int(3, 0)),
                c_div(c_mul(c_sub(c_int(2, 0), t), u), t),
            )
        },
        CoverKind::DynatomicThree => {
            let t2 = c_mul(t, t);
            let v = c_add(
                c_sub(c_mul(t2, c_add(c_sub(t2, c_scale(sfx(3 * SCALE as int), t)), c_int(6, 0))), c_add(t, t)),
                c_int(2, 0),
            );
            let dv = c_add(
                c_sub(
                    c_add(c_int(-2, 0), c_scale(sfx(12 * SCALE as int), t)),
                    c_scale(sfx(9 * SCALE as int), t2),
                ),
                c_scale(sfx(4 * SCALE as int), c_mul(t2, t)),
            );
            let w = c_inv(c_sub(t2, t));
            let dw = c_mul(c_sub(c_one(), c_add(t, t)), c_mul(w, w));
            let u = c_add(v, w);
            let du = c_add(dv, dw);
            let mq = sfx(-(SCALE as int / 4));
            (c_scale(mq, c_mul(u, w)), c_scale(mq, c_add(c_mul(du, w), c_mul(u, dw))))
        },
        CoverKind::MisiurewiczTwoOne => {
            let t2 = c_mul(t, t);
            let u = c_inv(c_sub(t2, c_one()));
            let u2 = c_mul(u, u);
            (
                c_scale(sfx(-2 * SCALE as int), c_mul(c_add(t2, c_one()), u2)),
                c_scale(sfx(4 * SCALE as int), c_mul(c_mul(t, c_add(t2, c_int(3, 0))), c_mul(u2, u))),
            )
        },
        CoverKind::MisiurewiczTwoTwo => {
            let c2 = c_mul(t, t);
            let numer = c_add(
                c_sub(c_mul(c2, c_add(c2, c_add(c_add(t, t), c_int(2, 0)))), c_add(t, t)),
                c_one(),
            );
            let dnum = c_mul(c_add(c_add(c2, t), c_int(-1, 0)), c_add(c2, c_one()));
            (
                c_neg(c_div(numer, c_scale(sfx(4 * SCALE as int), c2))),
                c_neg(c_scale(sfx(SCALE as int / 2), c_div(dnum, c_mul(c2, t)))),
            )
        },
    }
}

/// Apply a substitution: the reparameterized coordinate and the
/// substitution's derivative.
pub fn cover_apply(kind: &CoverKind, t: Cplx) -> (r: (Cplx, Cplx))
    ensures
        r == cover_apply_spec(*kind, t),
{
    match kind {
        CoverKind::Identity => (t, Cplx::one()),
        CoverKind::MarkedCycleOne => (
            Cplx::from_fix(Fix::from_raw(SCALE / 4)).sub(t.mul(t)),
            t.add(t).neg(),
        ),
        CoverKind::MarkedCycleThree => (
            Cplx::one().add(t.mul(t).scale(Fix::from_int(7))).scale(Fix::from_raw(-29360128)),
            t.scale(Fix::from_raw(-411041792)),
        ),
        CoverKind::MarkedCycleFour => (
            t.mul(t).scale(Fix::from_raw(-(SCALE / 4))).sub(
                Cplx::from_fix(Fix::from_raw(3 * (SCALE / 4))),
            ).sub(t.inv()),
            t.mul(t).inv().sub(t.scale(Fix::from_raw(SCALE / 2))),
        ),
        CoverKind::DynatomicTwo => {
            let u = Cplx::from_int(9, 0).div(t.mul(t));
            (
                t.sub(Cplx::one()).mul(u).sub(Cplx::from_int(3, 0)),
                Cplx::from_int(2, 0).sub(t).mul(u).div(t),
            )
        },
        CoverKind::DynatomicThree => {
            let t2 = t.mul(t);
            let v = t2.mul(t2.sub(t.scale(Fix::from_int(3))).add(Cplx::from_int(6, 0))).sub(
                t.add(t),
            ).add(Cplx::from_int(2, 0));
            let dv = Cplx::from_int(-2, 0).add(t.scale(Fix::from_int(12))).sub(
                t2.scale(Fix::from_int(9)),
            ).add(t2.mul(t).scale(Fix::from_int(4)));
            let w = t2.sub(t).inv();
            let dw = Cplx::one().sub(t.add(t)).mul(w.mul(w));
            let u = v.add(w);
            let du = dv.add(dw);
            let mq = Fix::from_raw(-(SCALE / 4));
            (u.mul(w).scale(mq), du.mul(w).add(u.mul(dw)).scale(mq))
        },
        CoverKind::MisiurewiczTwoOne => {
            let t2 = t.mul(t);
            let u = t2.sub(Cplx::one()).inv();
            let u2 = u.mul(u);
            (
                t2.add(Cplx::one()).mul(u2).scale(Fix::from_int(-2)),
                t.mul(t2.add(Cplx::from_int(3, 0))).mul(u2.mul(u)).scale(Fix::from_int(4)),
            )
        },
        CoverKind::MisiurewiczTwoTwo => {
            let c2 = t.mul(t);
            let numer = c2.mul(c2.add(t.add(t).add(Cplx::from_int(2, 0)))).sub(t.add(t)).add(
                Cplx::one(),
            );
            let dnum = c2.add(t).add(Cplx::from_int(-1, 0)).mul(c2.add(Cplx::one()));
            (
                numer.div(c2.scale(Fix::from_int(4))).neg(),
                dnum.div(c2.mul(t)).scale(Fix::from_raw(SCALE / 2)).neg(),
            )
        },
    }
}

/// A base family reparameterized by a substitution, over its own
/// sampling rectangle.
#[derive(Clone, Copy, Debug)]
pub struct CoveringMap<T: Family> {
    pub base: T,
    pub kind: CoverKind,
    pub point_grid: PointGrid,
}

impl<T: Family + Copy> CoveringMap<T> {
    /// Wrap a base family with a substitution over the given grid.
    pub fn new(base: T, kind: CoverKind, point_grid: PointGrid) -> (r: CoveringMap<T>)
        ensures
            r.base == base,
            r.kind == kind,
            r.point_grid == point_grid,
    {
        CoveringMap { base, kind, point_grid }
    }
}

impl<T: Family + Copy> Family for CoveringMap<T> {
    open spec fn map_spec(&self, z: Cplx, c: Cplx) -> Cplx {
        self.base.map_spec(z, c)
    }

    open spec fn deriv_spec(&self, z: Cplx, c: Cplx) -> Cplx {
        self.base.deriv_spec(z, c)
    }

    /// The substitution runs before the base family's parameter map.
    open spec fn param_map_spec(&self, point: Cplx) -> Cplx {
        self.base.param_map_spec(cover_apply_spec(self.kind, point).0)
    }

    open spec fn start_point_spec(&self, point: Cplx, c: Cplx) -> Cplx {
        self.base.start_point_spec(point, c)
    }

    open spec fn early_spec(&self, start: Cplx, c: Cplx) -> EscapeState {
        self.base.early_spec(start, c)
    }

    open spec fn degree_spec(&self) -> u32 {
        self.base.degree_spec()
    }

    open spec fn escaping_period_spec(&self) -> u32 {
        self.base.escaping_period_spec()
    }

    open spec fn escape_radius_sqr_spec(&self) -> Fix {
        self.base.escape_radius_sqr_spec()
    }

    open spec fn periodicity_tol_sqr_spec(&self) -> Fix {
        self.base.periodicity_tol_sqr_spec()
    }

    open spec fn grid_spec(&self) -> PointGrid {
        self.point_grid
    }

    open spec fn max_iter_spec(&self) -> u32 {
        self.base.max_iter_spec()
    }

    open spec fn min_iter_spec(&self) -> u32 {
        self.base.min_iter_spec()
    }

    /// The base family's critical points: the cover reparameterizes the
    /// plane, not the dynamics.
    open spec fn critical_points_spec(&self, c: Cplx) -> Seq<Cplx> {
        self.base.critical_points_spec(c)
    }

    open spec fn default_bounds_spec(&self) -> Bounds {
        self.base.default_bounds_spec()
    }

    open spec fn default_julia_bounds_spec(&self) -> Bounds {
        self.base.default_julia_bounds_spec()
    }

    fn map(&self, z: Cplx, c: Cplx) -> (r: Cplx) {
        self.base.map(z, c)
    }

    fn map_and_multiplier(&self, z: Cplx, c: Cplx) -> (r: (Cplx, Cplx)) {
        self.base.map_and_multiplier(z, c)
    }

    fn param_map(&self, point: Cplx) -> (r: Cplx) {
        let g = cover_apply(&self.kind, point);
        self.base.param_map(g.0)
    }

    fn start_point(&self, point: Cplx, c: Cplx) -> (r: Cplx) {
        self.base.start_point(point, c)
    }

    fn early_bailout(&self, start: Cplx, c: Cplx) -> (r: EscapeState) {
        self.base.early_bailout(start, c)
    }

    fn degree(&self) -> (r: u32) {
        self.base.degree()
    }

    fn escaping_period(&self) -> (r: u32) {
        self.base.escaping_period()
    }

    fn escape_radius_sqr(&self) -> (r: Fix) {
        self.base.escape_radius_sqr()
    }

    fn periodicity_tol_sqr(&self) -> (r: Fix) {
        self.base.periodicity_tol_sqr()
    }

    fn point_grid(&self) -> (r: &PointGrid) {
        &self.point_grid
    }

    fn max_iter(&self) -> (r: u32) {
        self.base.max_iter()
    }

    fn min_iter(&self) -> (r: u32) {
        self.base.min_iter()
    }

    fn default_bounds(&self) -> (r: Bounds) {
        self.base.default_bounds()
    }

    fn default_julia_bounds(&self) -> (r: Bounds) {
        self.base.default_julia_bounds()
    }

    fn critical_points_child(&self, c: Cplx) -> (r: Vec<Cplx>) {
        self.base.critical_points_child(c)
    }

    fn cycles_child(&self, c: Cplx, period: u32) -> (r: Vec<Cplx>) {
        self.base.cycles_child(c, period)
    }
}

} // verus!
