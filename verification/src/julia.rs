//! The dynamical (Julia-type) plane of a family: a derived family that
//! fixes one parameter of a parent family and samples the variable.
//!
//! The wrapper owns one parent-family value and one concrete parameter;
//! every step of the map delegates to the parent at that fixed parameter,
//! while the starting point becomes the sampled coordinate itself. No
//! state is shared with the parent: the wrapper is plain value data.
use vstd::prelude::*;

use crate::cplx::Cplx;
use crate::escape::EscapeState;
use crate::family::Family;
use crate::fix::Fix;
use crate::grid::{Bounds, PointGrid};

verus! {

/// A dynamical plane derived from a parent family at a fixed parameter.
#[derive(Clone, Copy, Debug)]
pub struct JuliaSet<T: Family> {
    pub point_grid: PointGrid,
    pub max_iter: u32,
    pub min_iter: u32,
    pub parent: T,
    pub local_param: Cplx,
    pub parent_selection: Cplx,
}

impl<T: Family + Copy> JuliaSet<T> {
    /// Derive the dynamical plane of `parent` at the plane point
    /// `parent_selection`: the parameter is fixed to the parent's
    /// parameter at that point, and the sampling grid adopts the
    /// parent's customary Julia rectangle at the parent grid's height.
    pub fn new(parent: T, parent_selection: Cplx, max_iter: u32) -> (r: JuliaSet<T>)
        ensures
            r.parent == parent,
            r.parent_selection == parent_selection,
            r.max_iter == max_iter,
            r.min_iter == parent.min_iter_spec(),
            r.local_param == parent.param_map_spec(parent_selection),
            r.point_grid == (PointGrid {
                res_x: crate::grid::infer_width_spec(
                    parent.grid_spec().res_y as int,
                    parent.default_julia_bounds_spec(),
                ) as usize,
                res_y: parent.grid_spec().res_y,
                bounds: parent.default_julia_bounds_spec(),
            }),
    {
        let local_param = parent.param_map(parent_selection);
        let bounds = parent.default_julia_bounds();
        let point_grid = parent.point_grid().new_with_same_height(bounds);
        JuliaSet {
            point_grid,
            max_iter,
            min_iter: parent.min_iter(),
            parent,
            local_param,
            parent_selection,
        }
    }

    /// One step of the parent's map at this plane's fixed parameter,
    /// with its derivative.
    pub fn map_and_multiplier_lazy(&self, z: Cplx) -> (r: (Cplx, Cplx))
        ensures
            r.0 == self.parent.map_spec(z, self.local_param),
            r.1 == self.parent.deriv_spec(z, self.local_param),
    {
        self.parent.map_and_multiplier(z, self.local_param)
    }

    /// The external ray of this dynamical plane at the given angle.
    pub fn external_ray(&self, theta: Fix) -> (r: Option<Vec<Cplx>>)
        requires
            self.grid_spec().res_x > 0,
            self.escaping_period_spec() <= 0x0800_0000,
        ensures
            (r is Some) == (self.degree_spec() != 0),
            r is Some ==> (r->Some_0)@ == crate::ray::external_ray_spec(
                self,
                self.local_param,
                theta,
            ),
            r is Some ==> (r->Some_0)@.len() >= 1 && (r->Some_0)@[0]
                == crate::ray::ray_base_spec(theta),
    {
        crate::ray::external_ray(self, self.local_param, theta)
    }
}

impl<T: Family + Copy> Family for JuliaSet<T> {
    open spec fn map_spec(&self, z: Cplx, c: Cplx) -> Cplx {
        self.parent.map_spec(z, c)
    }

    open spec fn deriv_spec(&self, z: Cplx, c: Cplx) -> Cplx {
        self.parent.deriv_spec(z, c)
    }

    /// Every sampled point of a dynamical plane shares the one fixed
    /// parameter.
    open spec fn param_map_spec(&self, point: Cplx) -> Cplx {
        self.local_param
    }

    /// The sampled coordinate is the starting iterate itself.
    open spec fn start_point_spec(&self, point: Cplx, c: Cplx) -> Cplx {
        point
    }

    /// The parent's shortcut speaks of its parameter plane, not of this
    /// dynamical plane: no shortcut applies here.
    open spec fn early_spec(&self, start: Cplx, c: Cplx) -> EscapeState {
        EscapeState::NotYetEscaped
    }

    open spec fn degree_spec(&self) -> u32 {
        self.parent.degree_spec()
    }

    open spec fn escaping_period_spec(&self) -> u32 {
        self.parent.escaping_period_spec()
    }

    open spec fn escape_radius_sqr_spec(&self) -> Fix {
        self.parent.escape_radius_sqr_spec()
    }

    open spec fn periodicity_tol_sqr_spec(&self) -> Fix {
        self.parent.periodicity_tol_sqr_spec()
    }

    open spec fn grid_spec(&self) -> PointGrid {
        self.point_grid
    }

    open spec fn max_iter_spec(&self) -> u32 {
        self.max_iter
    }

    open spec fn min_iter_spec(&self) -> u32 {
        self.min_iter
    }

    /// The parent's critical points at this plane's fixed parameter.
    open spec fn critical_points_spec(&self, c: Cplx) -> Seq<Cplx> {
        self.parent.critical_points_spec(self.local_param)
    }

    open spec fn default_bounds_spec(&self) -> Bounds {
        self.parent.default_julia_bounds_spec()
    }

    open spec fn default_julia_bounds_spec(&self) -> Bounds {
        self.parent.default_julia_bounds_spec()
    }

    fn map(&self, z: Cplx, c: Cplx) -> (r: Cplx) {
        self.parent.map(z, c)
    }

    fn map_and_multiplier(&self, z: Cplx, c: Cplx) -> (r: (Cplx, Cplx)) {
        self.parent.map_and_multiplier(z, c)
    }

    fn param_map(&self, point: Cplx) -> (r: Cplx) {
        self.local_param
    }

    fn start_point(&self, point: Cplx, c: Cplx) -> (r: Cplx) {
        point
    }

    fn early_bailout(&self, start: Cplx, c: Cplx) -> (r: EscapeState) {
        EscapeState::NotYetEscaped
    }

    fn degree(&self) -> (r: u32) {
        self.parent.degree()
    }

    fn escaping_period(&self) -> (r: u32) {
        self.parent.escaping_period()
    }

    fn escape_radius_sqr(&self) -> (r: Fix) {
        self.parent.escape_radius_sqr()
    }

    fn periodicity_tol_sqr(&self) -> (r: Fix) {
        self.parent.periodicity_tol_sqr()
    }

    fn point_grid(&self) -> (r: &PointGrid) {
        &self.point_grid
    }

    fn max_iter(&self) -> (r: u32) {
        self.max_iter
    }

    fn min_iter(&self) -> (r: u32) {
        self.min_iter
    }

    fn default_bounds(&self) -> (r: Bounds) {
        self.parent.default_julia_bounds()
    }

    fn default_julia_bounds(&self) -> (r: Bounds) {
        self.parent.default_julia_bounds()
    }

    /// The parent's critical points at this plane's fixed parameter.
    fn critical_points_child(&self, c: Cplx) -> (r: Vec<Cplx>) {
        self.parent.critical_points_child(self.local_param)
    }

    /// Cycles of the parent's map at this plane's fixed parameter.
    fn cycles_child(&self, c: Cplx, period: u32) -> (r: Vec<Cplx>) {
        self.parent.cycles_child(self.local_param, period)
    }
}

} // verus!
