//! The capability contract every concrete dynamical family implements.
//!
//! Each executable method is pinned to a spec-level model, so the
//! classifier and the ray tracer can be specified exactly over any
//! family. A family is cheap value data: it may be cloned freely and its
//! map must be a pure function of its arguments and its own fields.
use vstd::prelude::*;

use crate::cplx::Cplx;
use crate::escape::EscapeState;
use crate::fix::Fix;
use crate::grid::{Bounds, PointGrid};

verus! {

pub trait Family: Sized {
    /// Model of one iteration step `z -> f(z, c)`.
    spec fn map_spec(&self, z: Cplx, c: Cplx) -> Cplx;

    /// Model of the step derivative `df/dz (z, c)`.
    spec fn deriv_spec(&self, z: Cplx, c: Cplx) -> Cplx;

    /// Model of the map taking a sampled plane point to the family's
    /// algebraic parameter.
    spec fn param_map_spec(&self, point: Cplx) -> Cplx;

    /// Model of the initial iterate for a sample point and parameter.
    spec fn start_point_spec(&self, point: Cplx, c: Cplx) -> Cplx;

    /// Model of the analytic shortcut taken before iterating;
    /// `NotYetEscaped` means no shortcut applies.
    spec fn early_spec(&self, start: Cplx, c: Cplx) -> EscapeState;

    /// Degree of the map; zero stands for an undefined degree.
    spec fn degree_spec(&self) -> u32;

    /// Model of the period of the first-return map at infinity.
    spec fn escaping_period_spec(&self) -> u32;

    /// Model of the squared escape radius.
    spec fn escape_radius_sqr_spec(&self) -> Fix;

    /// Model of the squared periodicity tolerance.
    spec fn periodicity_tol_sqr_spec(&self) -> Fix;

    /// Model of the sampling grid the instance owns.
    spec fn grid_spec(&self) -> PointGrid;

    /// Model of the iteration budget.
    spec fn max_iter_spec(&self) -> u32;

    /// Model of the least iteration count before the escape test fires.
    spec fn min_iter_spec(&self) -> u32;

    /// Model of the family's critical points at a parameter.
    spec fn critical_points_spec(&self, c: Cplx) -> Seq<Cplx>;

    /// Model of the default sampling rectangle of the family's plane.
    spec fn default_bounds_spec(&self) -> Bounds;

    /// Model of the default rectangle of a derived dynamical plane.
    spec fn default_julia_bounds_spec(&self) -> Bounds;

    /// One iteration step.
    fn map(&self, z: Cplx, c: Cplx) -> (r: Cplx)
        ensures
            r == self.map_spec(z, c),
    ;

    /// One iteration step together with the step derivative.
    fn map_and_multiplier(&self, z: Cplx, c: Cplx) -> (r: (Cplx, Cplx))
        ensures
            r.0 == self.map_spec(z, c),
            r.1 == self.deriv_spec(z, c),
    ;

    /// Take a sampled plane point to the family's parameter.
    fn param_map(&self, point: Cplx) -> (r: Cplx)
        ensures
            r == self.param_map_spec(point),
    ;

    /// The initial iterate for a sample point under a fixed parameter.
    fn start_point(&self, point: Cplx, c: Cplx) -> (r: Cplx)
        ensures
            r == self.start_point_spec(point, c),
    ;

    /// An analytic shortcut that may classify a point without iterating;
    /// it must agree with what full iteration would report.
    fn early_bailout(&self, start: Cplx, c: Cplx) -> (r: EscapeState)
        ensures
            r == self.early_spec(start, c),
    ;

    /// Degree of the map; zero stands for an undefined degree.
    fn degree(&self) -> (r: u32)
        ensures
            r == self.degree_spec(),
    ;

    /// Period of the first-return map at infinity.
    fn escaping_period(&self) -> (r: u32)
        ensures
            r == self.escaping_period_spec(),
    ;

    /// Squared escape radius used by the classifier.
    fn escape_radius_sqr(&self) -> (r: Fix)
        ensures
            r == self.escape_radius_sqr_spec(),
    ;

    /// Squared distance below which an orbit counts as returned.
    fn periodicity_tol_sqr(&self) -> (r: Fix)
        ensures
            r == self.periodicity_tol_sqr_spec(),
    ;

    /// The sampling grid the instance owns.
    fn point_grid(&self) -> (r: &PointGrid)
        ensures
            *r == self.grid_spec(),
    ;

    /// The iteration budget.
    fn max_iter(&self) -> (r: u32)
        ensures
            r == self.max_iter_spec(),
    ;

    /// Least iteration count before the escape test fires.
    fn min_iter(&self) -> (r: u32)
        ensures
            r == self.min_iter_spec(),
    ;

    /// The default sampling rectangle of the family's plane.
    fn default_bounds(&self) -> (r: Bounds)
        ensures
            r == self.default_bounds_spec(),
    ;

    /// The default sampling rectangle for a dynamical (Julia) plane
    /// derived from this family.
    fn default_julia_bounds(&self) -> (r: Bounds)
        ensures
            r == self.default_julia_bounds_spec(),
    ;

    /// Critical points of the map at the given parameter.
    fn critical_points_child(&self, c: Cplx) -> (r: Vec<Cplx>)
        ensures
            r@ == self.critical_points_spec(c),
    ;

    /// Periodic points of the given period at the given parameter; empty
    /// when no closed form is known.
    fn cycles_child(&self, c: Cplx, period: u32) -> (r: Vec<Cplx>);
}

} // verus!
