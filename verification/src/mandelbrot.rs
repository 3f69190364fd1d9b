//! The moduli space of quadratic polynomials, parameterized as
//! `f_c(z) = z^2 + c`. Every such map has a fixed critical point at
//! infinity and a free critical point at the origin; a parameter is
//! classified by the fate of the free critical orbit.
use vstd::prelude::*;

use crate::cover::{CoverKind, CoveringMap};
use crate::cplx::{c_add, c_int, c_mul, c_norm, c_norm_sqr, c_one, c_scale, c_sqrt, c_sub, Cplx};
use crate::escape::{EscapeState, OrbitSchema, PointInfoPeriodic};
use crate::family::Family;
use crate::fix::{f_add, f_div, f_mul, f_sub, sfx, Fix, SCALE};
use crate::grid::{Bounds, PointGrid};
use crate::logexp::f_log2;
use crate::roots::{int_poly, int_poly_spec, solve_polynomial_spec};

verus! {

/// One quadratic step: `z^2 + c`.
pub open spec fn f_spec(z: Cplx, c: Cplx) -> Cplx {
    c_add(c_mul(z, z), c)
}

/// Derivative of the quadratic step: `2 z`.
pub open spec fn df_dz_spec(z: Cplx, c: Cplx) -> Cplx {
    c_add(z, z)
}

/// One quadratic step: `z^2 + c`.
pub fn f(z: Cplx, c: Cplx) -> (r: Cplx)
    ensures
        r == f_spec(z, c),
{
    z.mul(z).add(c)
}

/// Derivative of the quadratic step: `2 z`.
pub fn df_dz(z: Cplx, c: Cplx) -> (r: Cplx)
    ensures
        r == df_dz_spec(z, c),
{
    z.add(z)
}

/// A truncated, clamped iteration count read off a fixed-point value.
pub open spec fn fix_to_u32_spec(a: Fix) -> u32 {
    if a.raw <= 0 {
        0u32
    } else if a.raw as int / SCALE as int > u32::MAX as int {
        u32::MAX
    } else {
        (a.raw as int / SCALE as int) as u32
    }
}

/// Truncate a fixed-point value to a clamped iteration count.
pub fn fix_to_u32(a: Fix) -> (r: u32)
    ensures
        r == fix_to_u32_spec(a),
{
    if a.raw <= 0 {
        0
    } else {
        let q: u64 = (a.raw as u64) / (SCALE as u64);
        if q > u32::MAX as u64 {
            u32::MAX
        } else {
            q as u32
        }
    }
}

/// Residual recorded by the analytic shortcut (about `1e-6`).
pub const EARLY_ERROR_RAW: i64 = 17;

/// Model of the analytic shortcut of the quadratic family: a closed-form
/// membership test for the main cardioid (an attracting fixed point) and
/// the period-two disk, with the attractor, its multiplier and a
/// potential-derived preperiod computed in closed form.
pub open spec fn mandel_early_spec(c: Cplx) -> EscapeState {
    let four_c = c_scale(sfx(4 * SCALE as int), c);
    let y2 = f_mul(four_c.im, four_c.im);
    let temp = f_sub(four_c.re, sfx(SCALE as int));
    let mu_norm2 = f_add(f_mul(temp, temp), y2);
    let a = f_mul(mu_norm2, f_add(f_mul(mu_norm2, sfx(SCALE as int / 4)), temp));
    if a.raw < y2.raw {
        let multiplier = c_sub(c_one(), c_sqrt(c_sub(c_one(), four_c)));
        let fixed_point = c_scale(sfx(SCALE as int / 2), multiplier);
        let decay = c_norm(multiplier);
        let init_dist = c_norm_sqr(c_sub(c, fixed_point));
        let potential = f_div(f_log2(init_dist), f_log2(decay));
        EscapeState::Periodic {
            data: PointInfoPeriodic {
                value: fixed_point,
                period: 1u32,
                preperiod: if init_dist.raw == 0 {
                    0u32
                } else {
                    fix_to_u32_spec(potential)
                },
                multiplier,
                final_error: sfx(EARLY_ERROR_RAW as int),
            },
        }
    } else {
        let mu2 = c_add(four_c, c_int(4, 0));
        if c_norm_sqr(mu2).raw < SCALE {
            let decay = c_norm(mu2);
            let half = sfx(SCALE as int / 2);
            let root = c_sqrt(c_sub(c_scale(sfx(-(SCALE as int)), four_c), c_int(3, 0)));
            let fixed_point = c_sub(c_scale(sfx(-(SCALE as int / 2)), c_one()), c_scale(half, root));
            let init_dist = c_norm_sqr(c_sub(c, fixed_point));
            let potential = f_div(f_add(f_log2(init_dist), f_log2(init_dist)), f_log2(decay));
            EscapeState::Periodic {
                data: PointInfoPeriodic {
                    value: fixed_point,
                    period: 2u32,
                    preperiod: if init_dist.raw == 0 {
                        0u32
                    } else {
                        fix_to_u32_spec(potential)
                    },
                    multiplier: mu2,
                    final_error: sfx(EARLY_ERROR_RAW as int),
                },
            }
        } else {
            EscapeState::NotYetEscaped
        }
    }
}

/// The quadratic (Mandelbrot) family.
#[derive(Clone, Copy, Debug, PartialEq, Eq, Structural)]
pub struct Mandelbrot {
    pub point_grid: PointGrid,
    pub max_iter: u32,
}

impl Mandelbrot {
    /// Build over a grid with an iteration budget.
    pub fn new(point_grid: PointGrid, max_iter: u32) -> (r: Mandelbrot)
        ensures
            r == (Mandelbrot { point_grid, max_iter }),
    {
        Mandelbrot { point_grid, max_iter }
    }

    /// The family's customary sampling rectangle,
    /// `[-2.1, 0.55] x [-1.25, 1.25]`.
    pub fn standard_bounds() -> (r: Bounds)
        ensures
            r == mandel_bounds_spec(),
    {
        Bounds {
            min_x: Fix::from_raw(-35232154),
            max_x: Fix::from_raw(9227469),
            min_y: Fix::from_raw(-20971520),
            max_y: Fix::from_raw(20971520),
        }
    }
}

/// The customary rectangle of the quadratic parameter plane.
pub open spec fn mandel_bounds_spec() -> Bounds {
    Bounds {
        min_x: sfx(-35232154),
        max_x: sfx(9227469),
        min_y: sfx(-20971520),
        max_y: sfx(20971520),
    }
}

impl Default for Mandelbrot {
    /// The family over its customary rectangle at width 1024.
    fn default() -> (r: Mandelbrot)
        ensures
            r.point_grid == (PointGrid {
                res_x: 1024usize,
                res_y: crate::grid::infer_height_spec(1024, mandel_bounds_spec()) as usize,
                bounds: mandel_bounds_spec(),
            }),
            r.max_iter == 1024u32,
    {
        Mandelbrot {
            point_grid: PointGrid::new_by_res_x(1024, Mandelbrot::standard_bounds()),
            max_iter: 1024,
        }
    }
}

impl Family for Mandelbrot {
    open spec fn map_spec(&self, z: Cplx, c: Cplx) -> Cplx {
        f_spec(z, c)
    }

    open spec fn deriv_spec(&self, z: Cplx, c: Cplx) -> Cplx {
        df_dz_spec(z, c)
    }

    open spec fn param_map_spec(&self, point: Cplx) -> Cplx {
        point
    }

    open spec fn start_point_spec(&self, point: Cplx, c: Cplx) -> Cplx {
        crate::cplx::c_zero()
    }

    open spec fn early_spec(&self, start: Cplx, c: Cplx) -> EscapeState {
        mandel_early_spec(c)
    }

    open spec fn degree_spec(&self) -> u32 {
        2u32
    }

    open spec fn escaping_period_spec(&self) -> u32 {
        1u32
    }

    open spec fn escape_radius_sqr_spec(&self) -> Fix {
        sfx(160000 * SCALE as int)
    }

    open spec fn periodicity_tol_sqr_spec(&self) -> Fix {
        sfx(16)
    }

    open spec fn grid_spec(&self) -> PointGrid {
        self.point_grid
    }

    open spec fn max_iter_spec(&self) -> u32 {
        self.max_iter
    }

    open spec fn min_iter_spec(&self) -> u32 {
        0u32
    }

    /// The one free critical point of every quadratic map: the origin.
    open spec fn critical_points_spec(&self, c: Cplx) -> Seq<Cplx> {
        seq![crate::cplx::c_zero()]
    }

    open spec fn default_bounds_spec(&self) -> Bounds {
        mandel_bounds_spec()
    }

    /// The square of radius `2.2` about the origin.
    open spec fn default_julia_bounds_spec(&self) -> Bounds {
        Bounds {
            min_x: crate::fix::f_neg(sfx(36909875)),
            max_x: sfx(36909875),
            min_y: crate::fix::f_neg(sfx(36909875)),
            max_y: sfx(36909875),
        }
    }

    fn map(&self, z: Cplx, c: Cplx) -> (r: Cplx) {
        f(z, c)
    }

    fn map_and_multiplier(&self, z: Cplx, c: Cplx) -> (r: (Cplx, Cplx)) {
        (f(z, c), df_dz(z, c))
    }

    fn param_map(&self, point: Cplx) -> (r: Cplx) {
        point
    }

    fn start_point(&self, point: Cplx, c: Cplx) -> (r: Cplx) {
        Cplx::zero()
    }

    fn early_bailout(&self, start: Cplx, c: Cplx) -> (r: EscapeState) {
        let four_c = c.scale(Fix::from_int(4));
        let y2 = four_c.im.mul(four_c.im);
        let temp = four_c.re.sub(Fix::one());
        let mu_norm2 = temp.mul(temp).add(y2);
        let quarter = Fix::from_raw(SCALE / 4);
        let a = mu_norm2.mul(mu_norm2.mul(quarter).add(temp));
        if a.raw < y2.raw {
            let multiplier = Cplx::one().sub(Cplx::one().sub(four_c).sqrt());
            let fixed_point = multiplier.scale(Fix::from_raw(SCALE / 2));
            let decay = multiplier.norm();
            let init_dist = c.sub(fixed_point).norm_sqr();
            let potential = init_dist.log2().div(decay.log2());
            return EscapeState::Periodic {
                data: PointInfoPeriodic {
                    value: fixed_point,
                    period: 1,
                    preperiod: if init_dist.raw == 0 {
                        0
                    } else {
                        fix_to_u32(potential)
                    },
                    multiplier,
                    final_error: Fix::from_raw(EARLY_ERROR_RAW),
                },
            };
        }
        let mu2 = four_c.add(Cplx::from_int(4, 0));
        if mu2.norm_sqr().raw < SCALE {
            let decay = mu2.norm();
            let half = Fix::from_raw(SCALE / 2);
            let root = four_c.scale(Fix::from_raw(-SCALE)).sub(Cplx::from_int(3, 0)).sqrt();
            let fixed_point = Cplx::one().scale(Fix::from_raw(-(SCALE / 2))).sub(root.scale(half));
            let init_dist = c.sub(fixed_point).norm_sqr();
            let l = init_dist.log2();
            let potential = l.add(l).div(decay.log2());
            return EscapeState::Periodic {
                data: PointInfoPeriodic {
                    value: fixed_point,
                    period: 2,
                    preperiod: if init_dist.raw == 0 {
                        0
                    } else {
                        fix_to_u32(potential)
                    },
                    multiplier: mu2,
                    final_error: Fix::from_raw(EARLY_ERROR_RAW),
                },
            };
        }
        EscapeState::NotYetEscaped
    }

    fn degree(&self) -> (r: u32) {
        2
    }

    fn escaping_period(&self) -> (r: u32) {
        1
    }

    fn escape_radius_sqr(&self) -> (r: Fix) {
        Fix::from_raw(160000 * SCALE)
    }

    fn periodicity_tol_sqr(&self) -> (r: Fix) {
        Fix::from_raw(16)
    }

    fn point_grid(&self) -> (r: &PointGrid) {
        &self.point_grid
    }

    fn max_iter(&self) -> (r: u32) {
        self.max_iter
    }

    fn min_iter(&self) -> (r: u32) {
        0
    }

    fn default_bounds(&self) -> (r: Bounds) {
        Mandelbrot::standard_bounds()
    }

    /// Julia sets of quadratic maps fit in a square of radius `2.2`.
    fn default_julia_bounds(&self) -> (r: Bounds) {
        Bounds::centered_square(Fix::from_raw(36909875))
    }

    /// The free critical point of every quadratic map is the origin.
    fn critical_points_child(&self, c: Cplx) -> (r: Vec<Cplx>) {
        let mut v: Vec<Cplx> = Vec::new();
        v.push(Cplx::zero());
        proof {
            assert(v@ =~= self.critical_points_spec(c));
        }
        v
    }

    fn cycles_child(&self, c: Cplx, period: u32) -> (r: Vec<Cplx>) {
        mandel_cycles_child(c, period)
    }
}

/// The classifier's starting iterate on this plane is the family's free
/// critical point: the head of the critical-point list.
pub proof fn lemma_start_point_is_critical(fam: Mandelbrot, point: Cplx, c: Cplx)
    ensures
        fam.critical_points_spec(c)[0] == fam.start_point_spec(point, c),
{
}

/// Model of the two fixed points of `z^2 + c`: the roots of
/// `z^2 - z + c = 0`, namely `(1 +/- sqrt(1 - 4c)) / 2`.
pub open spec fn fixed_points_spec(c: Cplx) -> (Cplx, Cplx) {
    let u = c_sqrt(c_sub(c_one(), c_scale(sfx(4 * SCALE as int), c)));
    let half = sfx(SCALE as int / 2);
    (c_scale(half, c_add(c_one(), u)), c_scale(half, c_sub(c_one(), u)))
}

/// Model of the period-two cycle of `z^2 + c`: the roots of
/// `z^2 + z + c + 1 = 0`, namely `(-1 +/- sqrt(-3 - 4c)) / 2`.
pub open spec fn two_cycle_spec(c: Cplx) -> (Cplx, Cplx) {
    let u = c_sqrt(c_sub(c_int(-3, 0), c_scale(sfx(4 * SCALE as int), c)));
    let half = sfx(SCALE as int / 2);
    (c_scale(half, c_add(c_int(-1, 0), u)), c_scale(half, c_sub(c_int(-1, 0), u)))
}

impl Mandelbrot {
    /// Cycle centers of the parameter plane: parameters whose critical
    /// orbit is periodic of the given period, as roots of the stored
    /// center polynomials; periods without a stored polynomial give an
    /// empty set.
    pub fn cycles(&self, period: u32) -> (r: Vec<Cplx>)
        ensures
            r@ == mandel_cycles_spec(period),
    {
        let mut v: Vec<Cplx> = Vec::new();
        if period == 1 {
            v.push(Cplx::zero());
            proof {
                assert(v@ =~= seq![crate::cplx::c_zero()]);
            }
            v
        } else if period == 2 {
            v.push(Cplx::from_int(-1, 0));
            proof {
                assert(v@ =~= seq![c_int(-1, 0)]);
            }
            v
        } else if period == 3 {
            let coeffs: Vec<i64> = vec![1, 1, 2, 1];
            let cs = int_coeff_cplx(&coeffs);
            proof {
                assert(cs@ =~= int_seq_cplx(seq![1i64, 1i64, 2i64, 1i64]));
            }
            crate::roots::solve_polynomial(&cs)
        } else if period == 4 {
            let coeffs: Vec<i64> = vec![1, 2, 3, 3, 3, 1];
            let cs = int_coeff_cplx(&coeffs);
            proof {
                assert(cs@ =~= int_seq_cplx(seq![1i64, 2i64, 3i64, 3i64, 3i64, 1i64]));
            }
            crate::roots::solve_polynomial(&cs)
        } else if period == 5 {
            let coeffs: Vec<i64> = vec![
                1,
                1,
                2,
                5,
                14,
                26,
                44,
                69,
                94,
                114,
                116,
                94,
                60,
                28,
                8,
                1,
            ];
            let cs = int_coeff_cplx(&coeffs);
            proof {
                assert(cs@ =~= int_seq_cplx(
                    seq![
                        1i64,
                        1i64,
                        2i64,
                        5i64,
                        14i64,
                        26i64,
                        44i64,
                        69i64,
                        94i64,
                        114i64,
                        116i64,
                        94i64,
                        60i64,
                        28i64,
                        8i64,
                        1i64,
                    ],
                ));
            }
            crate::roots::solve_polynomial(&cs)
        } else {
            v
        }
    }

    /// Strictly preperiodic points of the quadratic map at parameter
    /// `c`, for the stored combinatorial classes; other classes give an
    /// empty set. Each preimage comes with its negative, since the map
    /// is even in `z`.
    pub fn precycles_child(&self, c: Cplx, orbit_schema: OrbitSchema) -> (r: Vec<Cplx>)
        ensures
            r@ == mandel_precycles_spec(c, orbit_schema),
    {
        let half = Fix::from_raw(SCALE / 2);
        let mut v: Vec<Cplx> = Vec::new();
        if orbit_schema.preperiod == 2 && orbit_schema.period == 1 {
            let u = Cplx::one().sub(c.scale(Fix::from_int(4))).sqrt().scale(half);
            let mh = Cplx::from_fix(half).neg();
            let v0 = mh.add(u).sub(c).sqrt();
            let v1 = mh.sub(u).sub(c).sqrt();
            v.push(v0);
            v.push(v0.neg());
            v.push(v1);
            v.push(v1.neg());
            proof {
                assert(v@ =~= mandel_precycles_spec(c, orbit_schema));
            }
            v
        } else if orbit_schema.preperiod == 2 && orbit_schema.period == 2 {
            let u = Cplx::from_int(-3, 0).sub(c.scale(Fix::from_int(4))).sqrt().scale(half);
            let h = Cplx::from_fix(half);
            let v0 = h.add(u).sub(c).sqrt();
            let v1 = h.sub(u).sub(c).sqrt();
            v.push(v0);
            v.push(v0.neg());
            v.push(v1);
            v.push(v1.neg());
            proof {
                assert(v@ =~= mandel_precycles_spec(c, orbit_schema));
            }
            v
        } else if orbit_schema.preperiod == 2 && orbit_schema.period == 3 {
            let c2 = c.mul(c);
            let mut coeffs: Vec<Cplx> = Vec::new();
            let row0: Vec<i64> = vec![1, 0, 1, 2, 2, 2, 1];
        proof {
            assert(row0@ =~= seq![1i64, 0i64, 1i64, 2i64, 2i64, 2i64, 1i64]);
        }
        coeffs.push(int_poly(&row0, c));
            let row1: Vec<i64> = vec![-1, 0, 2, 4, 7, 6];
        proof {
            assert(row1@ =~= seq![-1i64, 0i64, 2i64, 4i64, 7i64, 6i64]);
        }
        coeffs.push(int_poly(&row1, c));
            let row2: Vec<i64> = vec![1, 0, 3, 8, 15];
        proof {
            assert(row2@ =~= seq![1i64, 0i64, 3i64, 8i64, 15i64]);
        }
        coeffs.push(int_poly(&row2, c));
            let row3: Vec<i64> = vec![-1, 2, 2, 20];
        proof {
            assert(row3@ =~= seq![-1i64, 2i64, 2i64, 20i64]);
        }
        coeffs.push(int_poly(&row3, c));
            let row4: Vec<i64> = vec![1, -2, 15];
        proof {
            assert(row4@ =~= seq![1i64, -2i64, 15i64]);
        }
        coeffs.push(int_poly(&row4, c));
            let row5: Vec<i64> = vec![-1, 6];
        proof {
            assert(row5@ =~= seq![-1i64, 6i64]);
        }
        coeffs.push(int_poly(&row5, c));
            coeffs.push(Cplx::one());
            proof {
                reveal(precycle_23_coeffs);
                assert(coeffs@ =~= precycle_23_coeffs(c));
            }
            let zs = crate::roots::solve_polynomial(&coeffs);
            sqrt_fan_out(&zs)
        } else if orbit_schema.preperiod == 3 && orbit_schema.period == 3 {
            let mut coeffs: Vec<Cplx> = Vec::new();
            let row6: Vec<i64> = vec![1, 0, 0, 2, 5, 6, 10, 16, 18, 18, 14, 6, 1];
        proof {
            assert(row6@ =~= seq![1i64, 0i64, 0i64, 2i64, 5i64, 6i64, 10i64, 16i64, 18i64, 18i64, 14i64, 6i64, 1i64]);
        }
        coeffs.push(int_poly(&row6, c));
            coeffs.push(
                int_poly(&vec![0, -2, 0, 8, 8, 20, 56, 80, 104, 110, 60, 12], c),
            );
            let row7: Vec<i64> = vec![-1, 0, 8, 4, 10, 84, 148, 244, 375, 270, 66];
        proof {
            assert(row7@ =~= seq![-1i64, 0i64, 8i64, 4i64, 10i64, 84i64, 148i64, 244i64, 375i64, 270i64, 66i64]);
        }
        coeffs.push(int_poly(&row7, c));
            let row8: Vec<i64> = vec![0, 4, 0, -8, 72, 156, 288, 720, 720, 220];
        proof {
            assert(row8@ =~= seq![0i64, 4i64, 0i64, -8i64, 72i64, 156i64, 288i64, 720i64, 720i64, 220i64]);
        }
        coeffs.push(int_poly(&row8, c));
            let row9: Vec<i64> = vec![1, 0, -12, 38, 115, 160, 840, 1260, 495];
        proof {
            assert(row9@ =~= seq![1i64, 0i64, -12i64, 38i64, 115i64, 160i64, 840i64, 1260i64, 495i64]);
        }
        coeffs.push(int_poly(&row9, c));
            let row10: Vec<i64> = vec![0, -6, 12, 68, 8, 588, 1512, 792];
        proof {
            assert(row10@ =~= seq![0i64, -6i64, 12i64, 68i64, 8i64, 588i64, 1512i64, 792i64]);
        }
        coeffs.push(int_poly(&row10, c));
            let row11: Vec<i64> = vec![-1, 2, 30, -36, 210, 1260, 924];
        proof {
            assert(row11@ =~= seq![-1i64, 2i64, 30i64, -36i64, 210i64, 1260i64, 924i64]);
        }
        coeffs.push(int_poly(&row11, c));
            let row12: Vec<i64> = vec![0, 8, -16, 0, 720, 792];
        proof {
            assert(row12@ =~= seq![0i64, 8i64, -16i64, 0i64, 720i64, 792i64]);
        }
        coeffs.push(int_poly(&row12, c));
            let row13: Vec<i64> = vec![1, -2, -30, 270, 495];
        proof {
            assert(row13@ =~= seq![1i64, -2i64, -30i64, 270i64, 495i64]);
        }
        coeffs.push(int_poly(&row13, c));
            let row14: Vec<i64> = vec![0, -10, 60, 220];
        proof {
            assert(row14@ =~= seq![0i64, -10i64, 60i64, 220i64]);
        }
        coeffs.push(int_poly(&row14, c));
            let row15: Vec<i64> = vec![-1, 6, 66];
        proof {
            assert(row15@ =~= seq![-1i64, 6i64, 66i64]);
        }
        coeffs.push(int_poly(&row15, c));
            let row16: Vec<i64> = vec![0, 12];
        proof {
            assert(row16@ =~= seq![0i64, 12i64]);
        }
        coeffs.push(int_poly(&row16, c));
            coeffs.push(Cplx::one());
            proof {
                reveal(precycle_33_coeffs);
                assert(coeffs@ =~= precycle_33_coeffs(c));
            }
            let zs = crate::roots::solve_polynomial(&coeffs);
            sqrt_fan_out(&zs)
        } else if orbit_schema.preperiod == 2 && orbit_schema.period == 4 {
            let coeffs = precycle_24_build(c);
            let zs = crate::roots::solve_polynomial(&coeffs);
            sqrt_fan_out(&zs)
        } else if orbit_schema.preperiod == 3 && orbit_schema.period == 4 {
            let coeffs = precycle_34_build(c);
            let zs = crate::roots::solve_polynomial(&coeffs);
            sqrt_fan_out(&zs)
        } else {
            v
        }
    }

    /// The marked-cycle curve of the given period as a covering family;
    /// periods without a stored substitution give the identity cover.
    pub fn marked_cycle_curve(self, period: u32) -> (r: CoveringMap<Mandelbrot>)
        ensures
            r.base == self,
            r.kind == marked_cycle_kind(period),
            r.point_grid == (PointGrid {
                res_x: crate::grid::infer_width_spec(
                    self.point_grid.res_y as int,
                    marked_cycle_bounds_spec(period, self.point_grid.bounds),
                ) as usize,
                res_y: self.point_grid.res_y,
                bounds: marked_cycle_bounds_spec(period, self.point_grid.bounds),
            }),
    {
        let kind = if period == 1 {
            CoverKind::MarkedCycleOne
        } else if period == 3 {
            CoverKind::MarkedCycleThree
        } else if period == 4 {
            CoverKind::MarkedCycleFour
        } else {
            CoverKind::Identity
        };
        let bounds = if period == 1 {
            Bounds {
                min_x: Fix::from_raw(-30198989),
                max_x: Fix::from_raw(30198989),
                min_y: Fix::from_int(-1),
                max_y: Fix::from_int(1),
            }
        } else if period == 3 {
            Bounds {
                min_x: Fix::from_raw(-5033165),
                max_x: Fix::from_raw(5033165),
                min_y: Fix::from_raw(-8388608),
                max_y: Fix::from_raw(8388608),
            }
        } else if period == 4 {
            Bounds {
                min_x: Fix::from_raw(-48653107),
                max_x: Fix::from_raw(35232154),
                min_y: Fix::from_raw(-52009370),
                max_y: Fix::from_raw(52009370),
            }
        } else {
            self.point_grid.bounds
        };
        let grid = self.point_grid.new_with_same_height(bounds);
        CoveringMap::new(self, kind, grid)
    }

    /// The dynatomic curve of the given period as a covering family;
    /// periods without a stored substitution give the identity cover.
    pub fn dynatomic_curve(self, period: u32) -> (r: CoveringMap<Mandelbrot>)
        ensures
            r.base == self,
            r.kind == dynatomic_kind(period),
            r.point_grid == (PointGrid {
                res_x: crate::grid::infer_width_spec(
                    self.point_grid.res_y as int,
                    dynatomic_bounds_spec(period, self.point_grid.bounds),
                ) as usize,
                res_y: self.point_grid.res_y,
                bounds: dynatomic_bounds_spec(period, self.point_grid.bounds),
            }),
    {
        let kind = if period == 1 {
            CoverKind::MarkedCycleOne
        } else if period == 2 {
            CoverKind::DynatomicTwo
        } else if period == 3 {
            CoverKind::DynatomicThree
        } else {
            CoverKind::Identity
        };
        let bounds = if period == 1 {
            Bounds {
                min_x: Fix::from_raw(-30198989),
                max_x: Fix::from_raw(30198989),
                min_y: Fix::from_int(-1),
                max_y: Fix::from_int(1),
            }
        } else if period == 2 {
            Bounds {
                min_x: Fix::from_raw(8388608),
                max_x: Fix::from_raw(139250893),
                min_y: Fix::from_raw(-45298483),
                max_y: Fix::from_raw(45298483),
            }
        } else if period == 3 {
            Bounds {
                min_x: Fix::from_raw(-41943040),
                max_x: Fix::from_raw(58720256),
                min_y: Fix::from_int(-3),
                max_y: Fix::from_int(3),
            }
        } else {
            self.point_grid.bounds
        };
        let grid = self.point_grid.new_with_same_height(bounds);
        CoveringMap::new(self, kind, grid)
    }

    /// The Misiurewicz curve of the given combinatorics as a covering
    /// family; classes without a stored substitution give the identity
    /// cover.
    pub fn misiurewicz_curve(self, preperiod: u32, period: u32) -> (r: CoveringMap<Mandelbrot>)
        ensures
            r.base == self,
            r.kind == misiurewicz_kind(preperiod, period),
            r.point_grid == (PointGrid {
                res_x: crate::grid::infer_width_spec(
                    self.point_grid.res_y as int,
                    misiurewicz_bounds_spec(preperiod, period, self.point_grid.bounds),
                ) as usize,
                res_y: self.point_grid.res_y,
                bounds: misiurewicz_bounds_spec(preperiod, period, self.point_grid.bounds),
            }),
    {
        let kind = if preperiod == 2 && period == 1 {
            CoverKind::MisiurewiczTwoOne
        } else if preperiod == 2 && period == 2 {
            CoverKind::MisiurewiczTwoTwo
        } else {
            CoverKind::Identity
        };
        let bounds = if preperiod == 2 && period == 1 {
            Bounds {
                min_x: Fix::from_raw(-58720256),
                max_x: Fix::from_raw(58720256),
                min_y: Fix::from_int(-3),
                max_y: Fix::from_int(3),
            }
        } else if preperiod == 2 && period == 2 {
            Bounds {
                min_x: Fix::from_int(-4),
                max_x: Fix::from_raw(40265318),
                min_y: Fix::from_raw(-41943040),
                max_y: Fix::from_raw(41943040),
            }
        } else {
            self.point_grid.bounds
        };
        let grid = self.point_grid.new_with_same_height(bounds);
        CoveringMap::new(self, kind, grid)
    }
}

/// The rectangle a marked-cycle period adopts; unsupported periods keep
/// the family's own.
pub open spec fn marked_cycle_bounds_spec(period: u32, fallback: Bounds) -> Bounds {
    if period == 1 {
        Bounds {
            min_x: sfx(-30198989),
            max_x: sfx(30198989),
            min_y: sfx(-(SCALE as int)),
            max_y: sfx(SCALE as int),
        }
    } else if period == 3 {
        Bounds { min_x: sfx(-5033165), max_x: sfx(5033165), min_y: sfx(-8388608), max_y: sfx(8388608) }
    } else if period == 4 {
        Bounds {
            min_x: sfx(-48653107),
            max_x: sfx(35232154),
            min_y: sfx(-52009370),
            max_y: sfx(52009370),
        }
    } else {
        fallback
    }
}

/// The rectangle a dynatomic period adopts; unsupported periods keep the
/// family's own.
pub open spec fn dynatomic_bounds_spec(period: u32, fallback: Bounds) -> Bounds {
    if period == 1 {
        Bounds {
            min_x: sfx(-30198989),
            max_x: sfx(30198989),
            min_y: sfx(-(SCALE as int)),
            max_y: sfx(SCALE as int),
        }
    } else if period == 2 {
        Bounds {
            min_x: sfx(8388608),
            max_x: sfx(139250893),
            min_y: sfx(-45298483),
            max_y: sfx(45298483),
        }
    } else if period == 3 {
        Bounds {
            min_x: sfx(-41943040),
            max_x: sfx(58720256),
            min_y: sfx(-(3 * SCALE as int)),
            max_y: sfx(3 * SCALE as int),
        }
    } else {
        fallback
    }
}

/// The rectangle a Misiurewicz class adopts; unsupported classes keep
/// the family's own.
pub open spec fn misiurewicz_bounds_spec(preperiod: u32, period: u32, fallback: Bounds) -> Bounds {
    if preperiod == 2 && period == 1 {
        Bounds {
            min_x: sfx(-58720256),
            max_x: sfx(58720256),
            min_y: sfx(-(3 * SCALE as int)),
            max_y: sfx(3 * SCALE as int),
        }
    } else if preperiod == 2 && period == 2 {
        Bounds {
            min_x: sfx(-(4 * SCALE as int)),
            max_x: sfx(40265318),
            min_y: sfx(-41943040),
            max_y: sfx(41943040),
        }
    } else {
        fallback
    }
}

/// The substitution a marked-cycle period selects.
pub open spec fn marked_cycle_kind(period: u32) -> CoverKind {
    if period == 1 {
        CoverKind::MarkedCycleOne
    } else if period == 3 {
        CoverKind::MarkedCycleThree
    } else if period == 4 {
        CoverKind::MarkedCycleFour
    } else {
        CoverKind::Identity
    }
}

/// The substitution a dynatomic period selects.
pub open spec fn dynatomic_kind(period: u32) -> CoverKind {
    if period == 1 {
        CoverKind::MarkedCycleOne
    } else if period == 2 {
        CoverKind::DynatomicTwo
    } else if period == 3 {
        CoverKind::DynatomicThree
    } else {
        CoverKind::Identity
    }
}

/// The substitution a Misiurewicz class selects.
pub open spec fn misiurewicz_kind(preperiod: u32, period: u32) -> CoverKind {
    if preperiod == 2 && period == 1 {
        CoverKind::MisiurewiczTwoOne
    } else if preperiod == 2 && period == 2 {
        CoverKind::MisiurewiczTwoTwo
    } else {
        CoverKind::Identity
    }
}

/// A sequence of integers lifted to real complex coefficients.
pub open spec fn int_seq_cplx(a: Seq<i64>) -> Seq<Cplx> {
    a.map(|i: int, x: i64| c_int(x as int, 0))
}

/// Lift integer coefficients to complex ones.
fn int_coeff_cplx(a: &Vec<i64>) -> (r: Vec<Cplx>)
    requires
        forall|i: int| 0 <= i < a@.len() ==> -0x8000_0000 < #[trigger] a@[i] < 0x8000_0000,
    ensures
        r@ == int_seq_cplx(a@),
{
    let mut out: Vec<Cplx> = Vec::new();
    let mut i: usize = 0;
    while i < a.len()
        invariant
            i <= a@.len(),
            forall|j: int| 0 <= j < a@.len() ==> -0x8000_0000 < #[trigger] a@[j] < 0x8000_0000,
            out@ =~= int_seq_cplx(a@.subrange(0, i as int)),
        decreases a@.len() - i,
    {
        let x: i64 = a[i];
        out.push(Cplx::new(Fix::from_raw(x * SCALE), Fix::zero()));
        proof {
            assert(out@ =~= int_seq_cplx(a@.subrange(0, i + 1)));
        }
        i = i + 1;
    }
    proof {
        assert(a@.subrange(0, a@.len() as int) =~= a@);
    }
    out
}

/// Model of the stored cycle-center polynomials of the parameter plane.
pub open spec fn mandel_cycles_spec(period: u32) -> Seq<Cplx> {
    if period == 1 {
        seq![crate::cplx::c_zero()]
    } else if period == 2 {
        seq![c_int(-1, 0)]
    } else if period == 3 {
        solve_polynomial_spec(int_seq_cplx(seq![1i64, 1i64, 2i64, 1i64]))
    } else if period == 4 {
        solve_polynomial_spec(int_seq_cplx(seq![1i64, 2i64, 3i64, 3i64, 3i64, 1i64]))
    } else if period == 5 {
        solve_polynomial_spec(
            int_seq_cplx(
                seq![
                    1i64,
                    1i64,
                    2i64,
                    5i64,
                    14i64,
                    26i64,
                    44i64,
                    69i64,
                    94i64,
                    114i64,
                    116i64,
                    94i64,
                    60i64,
                    28i64,
                    8i64,
                    1i64,
                ],
            ),
        )
    } else {
        Seq::empty()
    }
}

/// Model of the preimage fan-out: every root together with its negative
/// square root pair.
pub open spec fn sqrt_fan_out_spec(zs: Seq<Cplx>) -> Seq<Cplx>
    decreases zs.len(),
{
    if zs.len() == 0 {
        Seq::empty()
    } else {
        let w = crate::cplx::c_sqrt(zs[0]);
        seq![w, crate::cplx::c_neg(w)] + sqrt_fan_out_spec(zs.subrange(1, zs.len() as int))
    }
}

/// Fan each root out into its two square-root preimages.
fn sqrt_fan_out(zs: &Vec<Cplx>) -> (r: Vec<Cplx>)
    ensures
        r@ == sqrt_fan_out_spec(zs@),
{
    let mut out: Vec<Cplx> = Vec::new();
    let mut i: usize = 0;
    while i < zs.len()
        invariant
            i <= zs@.len(),
            out@ =~= sqrt_fan_out_spec(zs@.subrange(0, i as int)),
        decreases zs@.len() - i,
    {
        let w = zs[i].sqrt();
        out.push(w);
        out.push(w.neg());
        proof {
            lemma_sqrt_fan_out_snoc(zs@.subrange(0, i + 1));
            assert(zs@.subrange(0, i + 1).drop_last() =~= zs@.subrange(0, i as int));
            assert(out@ =~= sqrt_fan_out_spec(zs@.subrange(0, i + 1)));
        }
        i = i + 1;
    }
    proof {
        assert(zs@.subrange(0, zs@.len() as int) =~= zs@);
    }
    out
}

/// Unrolling the fan-out from the back.
proof fn lemma_sqrt_fan_out_snoc(zs: Seq<Cplx>)
    requires
        zs.len() >= 1,
    ensures
        sqrt_fan_out_spec(zs) == sqrt_fan_out_spec(zs.drop_last()) + seq![
            crate::cplx::c_sqrt(zs.last()),
            crate::cplx::c_neg(crate::cplx::c_sqrt(zs.last())),
        ],
    decreases zs.len(),
{
    if zs.len() == 1 {
        assert(zs.drop_last() =~= Seq::<Cplx>::empty());
        assert(zs.subrange(1, zs.len() as int) =~= Seq::<Cplx>::empty());
        assert(sqrt_fan_out_spec(zs) =~= sqrt_fan_out_spec(zs.drop_last()) + seq![
            crate::cplx::c_sqrt(zs.last()),
            crate::cplx::c_neg(crate::cplx::c_sqrt(zs.last())),
        ]);
    } else {
        let tail = zs.subrange(1, zs.len() as int);
        lemma_sqrt_fan_out_snoc(tail);
        assert(tail.drop_last() =~= zs.drop_last().subrange(1, zs.drop_last().len() as int));
        assert(tail.last() == zs.last());
        assert(sqrt_fan_out_spec(zs) =~= sqrt_fan_out_spec(zs.drop_last()) + seq![
            crate::cplx::c_sqrt(zs.last()),
            crate::cplx::c_neg(crate::cplx::c_sqrt(zs.last())),
        ]);
    }
}

/// Model of the stored preperiodic-point polynomials.
pub open spec fn mandel_precycles_spec(c: Cplx, schema: OrbitSchema) -> Seq<Cplx> {
    if schema.preperiod == 2 && schema.period == 1 {
        let u = c_scale(sfx(SCALE as int / 2), c_sqrt(c_sub(c_one(), c_scale(sfx(4 * SCALE as int), c))));
        let mh = crate::cplx::c_neg(Cplx { re: sfx(SCALE as int / 2), im: sfx(0) });
        let v0 = c_sqrt(c_sub(c_add(mh, u), c));
        let v1 = c_sqrt(c_sub(c_sub(mh, u), c));
        seq![v0, crate::cplx::c_neg(v0), v1, crate::cplx::c_neg(v1)]
    } else if schema.preperiod == 2 && schema.period == 2 {
        let u = c_scale(
            sfx(SCALE as int / 2),
            c_sqrt(c_sub(c_int(-3, 0), c_scale(sfx(4 * SCALE as int), c))),
        );
        let h = Cplx { re: sfx(SCALE as int / 2), im: sfx(0) };
        let v0 = c_sqrt(c_sub(c_add(h, u), c));
        let v1 = c_sqrt(c_sub(c_sub(h, u), c));
        seq![v0, crate::cplx::c_neg(v0), v1, crate::cplx::c_neg(v1)]
    } else if schema.preperiod == 2 && schema.period == 3 {
        sqrt_fan_out_spec(solve_polynomial_spec(precycle_23_coeffs(c)))
    } else if schema.preperiod == 3 && schema.period == 3 {
        sqrt_fan_out_spec(solve_polynomial_spec(precycle_33_coeffs(c)))
    } else if schema.preperiod == 2 && schema.period == 4 {
        sqrt_fan_out_spec(solve_polynomial_spec(precycle_24_coeffs(c)))
    } else if schema.preperiod == 3 && schema.period == 4 {
        sqrt_fan_out_spec(solve_polynomial_spec(precycle_34_coeffs(c)))
    } else {
        Seq::empty()
    }
}

/// Coefficients (in the squared variable) of the preperiod-two points
/// onto the three-cycle.
#[verifier::opaque]
pub open spec fn precycle_23_coeffs(c: Cplx) -> Seq<Cplx> {
    seq![
        int_poly_spec(seq![1i64, 0i64, 1i64, 2i64, 2i64, 2i64, 1i64], c),
        int_poly_spec(seq![-1i64, 0i64, 2i64, 4i64, 7i64, 6i64], c),
        int_poly_spec(seq![1i64, 0i64, 3i64, 8i64, 15i64], c),
        int_poly_spec(seq![-1i64, 2i64, 2i64, 20i64], c),
        int_poly_spec(seq![1i64, -2i64, 15i64], c),
        int_poly_spec(seq![-1i64, 6i64], c),
        c_one(),
    ]
}

/// Coefficients (in the squared variable) of the preperiod-three points
/// onto the three-cycle.
#[verifier::opaque]
pub open spec fn precycle_33_coeffs(c: Cplx) -> Seq<Cplx> {
    seq![
        int_poly_spec(
            seq![1i64, 0i64, 0i64, 2i64, 5i64, 6i64, 10i64, 16i64, 18i64, 18i64, 14i64, 6i64, 1i64],
            c,
        ),
        int_poly_spec(
            seq![0i64, -2i64, 0i64, 8i64, 8i64, 20i64, 56i64, 80i64, 104i64, 110i64, 60i64, 12i64],
            c,
        ),
        int_poly_spec(
            seq![-1i64, 0i64, 8i64, 4i64, 10i64, 84i64, 148i64, 244i64, 375i64, 270i64, 66i64],
            c,
        ),
        int_poly_spec(seq![0i64, 4i64, 0i64, -8i64, 72i64, 156i64, 288i64, 720i64, 720i64, 220i64], c),
        int_poly_spec(seq![1i64, 0i64, -12i64, 38i64, 115i64, 160i64, 840i64, 1260i64, 495i64], c),
        int_poly_spec(seq![0i64, -6i64, 12i64, 68i64, 8i64, 588i64, 1512i64, 792i64], c),
        int_poly_spec(seq![-1i64, 2i64, 30i64, -36i64, 210i64, 1260i64, 924i64], c),
        int_poly_spec(seq![0i64, 8i64, -16i64, 0i64, 720i64, 792i64], c),
        int_poly_spec(seq![1i64, -2i64, -30i64, 270i64, 495i64], c),
        int_poly_spec(seq![0i64, -10i64, 60i64, 220i64], c),
        int_poly_spec(seq![-1i64, 6i64, 66i64], c),
        int_poly_spec(seq![0i64, 12i64], c),
        c_one(),
    ]
}

/// Periodic points of the quadratic map at parameter `c` in closed form;
/// periods without a stored polynomial give an empty set.
pub fn mandel_cycles_child(c: Cplx, period: u32) -> (r: Vec<Cplx>)
    ensures
        period == 1 ==> r@.len() == 2 && r@[0] == fixed_points_spec(c).0 && r@[1]
            == fixed_points_spec(c).1,
        period == 2 ==> r@.len() == 2 && r@[0] == two_cycle_spec(c).0 && r@[1] == two_cycle_spec(
            c,
        ).1,
        period == 3 ==> r@ == solve_polynomial_spec(cycle_3_coeffs(c)),
        period == 4 ==> r@ == solve_polynomial_spec(cycle_4_coeffs(c)),
        period == 5 ==> r@ == solve_polynomial_spec(cycle_5_coeffs(c)),
        period == 6 ==> r@ == solve_polynomial_spec(cycle_6_coeffs(c)),
        period > 6 ==> r@.len() == 0,
{
    let mut v: Vec<Cplx> = Vec::new();
    if period == 1 {
        let u = Cplx::one().sub(c.scale(Fix::from_int(4))).sqrt();
        let half = Fix::from_raw(SCALE / 2);
        v.push(Cplx::one().add(u).scale(half));
        v.push(Cplx::one().sub(u).scale(half));
        v
    } else if period == 2 {
        let u = Cplx::from_int(-3, 0).sub(c.scale(Fix::from_int(4))).sqrt();
        let half = Fix::from_raw(SCALE / 2);
        v.push(Cplx::from_int(-1, 0).add(u).scale(half));
        v.push(Cplx::from_int(-1, 0).sub(u).scale(half));
        v
    } else if period == 3 {
        let mut coeffs: Vec<Cplx> = Vec::new();
        let row17: Vec<i64> = vec![1, 1, 2, 1];
        proof {
            assert(row17@ =~= seq![1i64, 1i64, 2i64, 1i64]);
        }
        coeffs.push(int_poly(&row17, c));
        let row18: Vec<i64> = vec![1, 2, 1];
        proof {
            assert(row18@ =~= seq![1i64, 2i64, 1i64]);
        }
        coeffs.push(int_poly(&row18, c));
        let row19: Vec<i64> = vec![1, 3, 3];
        proof {
            assert(row19@ =~= seq![1i64, 3i64, 3i64]);
        }
        coeffs.push(int_poly(&row19, c));
        let row20: Vec<i64> = vec![1, 2];
        proof {
            assert(row20@ =~= seq![1i64, 2i64]);
        }
        coeffs.push(int_poly(&row20, c));
        let row21: Vec<i64> = vec![1, 3];
        proof {
            assert(row21@ =~= seq![1i64, 3i64]);
        }
        coeffs.push(int_poly(&row21, c));
        coeffs.push(Cplx::one());
        coeffs.push(Cplx::one());
        proof {
            reveal(cycle_3_coeffs);
            assert(coeffs@ =~= cycle_3_coeffs(c));
        }
        crate::roots::solve_polynomial(&coeffs)
    } else if period == 4 {
        let mut coeffs: Vec<Cplx> = Vec::new();
        let row22: Vec<i64> = vec![1, 0, 2, 3, 3, 3, 1];
        proof {
            assert(row22@ =~= seq![1i64, 0i64, 2i64, 3i64, 3i64, 3i64, 1i64]);
        }
        coeffs.push(int_poly(&row22, c));
        let row23: Vec<i64> = vec![0, 2, 1, 2, 1];
        proof {
            assert(row23@ =~= seq![0i64, 2i64, 1i64, 2i64, 1i64]);
        }
        coeffs.push(int_poly(&row23, c));
        let row24: Vec<i64> = vec![0, 1, 5, 6, 12, 6];
        proof {
            assert(row24@ =~= seq![0i64, 1i64, 5i64, 6i64, 12i64, 6i64]);
        }
        coeffs.push(int_poly(&row24, c));
        let row25: Vec<i64> = vec![1, 0, 4, 4];
        proof {
            assert(row25@ =~= seq![1i64, 0i64, 4i64, 4i64]);
        }
        coeffs.push(int_poly(&row25, c));
        let row26: Vec<i64> = vec![0, 4, 3, 18, 15];
        proof {
            assert(row26@ =~= seq![0i64, 4i64, 3i64, 18i64, 15i64]);
        }
        coeffs.push(int_poly(&row26, c));
        let row27: Vec<i64> = vec![0, 2, 6];
        proof {
            assert(row27@ =~= seq![0i64, 2i64, 6i64]);
        }
        coeffs.push(int_poly(&row27, c));
        let row28: Vec<i64> = vec![1, 0, 12, 20];
        proof {
            assert(row28@ =~= seq![1i64, 0i64, 12i64, 20i64]);
        }
        coeffs.push(int_poly(&row28, c));
        let row29: Vec<i64> = vec![0, 4];
        proof {
            assert(row29@ =~= seq![0i64, 4i64]);
        }
        coeffs.push(int_poly(&row29, c));
        let row30: Vec<i64> = vec![0, 3, 15];
        proof {
            assert(row30@ =~= seq![0i64, 3i64, 15i64]);
        }
        coeffs.push(int_poly(&row30, c));
        coeffs.push(Cplx::one());
        let row31: Vec<i64> = vec![0, 6];
        proof {
            assert(row31@ =~= seq![0i64, 6i64]);
        }
        coeffs.push(int_poly(&row31, c));
        coeffs.push(Cplx::zero());
        coeffs.push(Cplx::one());
        proof {
            reveal(cycle_4_coeffs);
            assert(coeffs@ =~= cycle_4_coeffs(c));
        }
        crate::roots::solve_polynomial(&coeffs)
    } else if period == 5 {
        let coeffs = cycle_5_build(c);
        crate::roots::solve_polynomial(&coeffs)
    } else if period == 6 {
        let coeffs = cycle_6_build(c);
        crate::roots::solve_polynomial(&coeffs)
    } else {
        v
    }
}


/// Coefficients of the stored period-five cycle polynomial at `c`.
#[verifier::opaque]
pub open spec fn cycle_5_coeffs(c: Cplx) -> Seq<Cplx> {
    seq![
        int_poly_spec(seq![1i64, 1i64, 2i64, 5i64, 14i64, 26i64, 44i64, 69i64, 94i64, 114i64, 116i64, 94i64, 60i64, 28i64, 8i64, 1i64], c),
        int_poly_spec(seq![1i64, 2i64, 5i64, 14i64, 26i64, 44i64, 69i64, 94i64, 114i64, 116i64, 94i64, 60i64, 28i64, 8i64, 1i64], c),
        int_poly_spec(seq![1i64, 3i64, 9i64, 28i64, 66i64, 137i64, 265i64, 436i64, 642i64, 794i64, 766i64, 576i64, 316i64, 105i64, 15i64], c),
        int_poly_spec(seq![1i64, 4i64, 14i64, 40i64, 93i64, 196i64, 342i64, 528i64, 678i64, 672i64, 516i64, 288i64, 97i64, 14i64], c),
        int_poly_spec(seq![1i64, 5i64, 20i64, 67i64, 179i64, 437i64, 876i64, 1572i64, 2398i64, 2790i64, 2496i64, 1629i64, 637i64, 105i64], c),
        int_poly_spec(seq![1i64, 6i64, 27i64, 86i64, 241i64, 534i64, 1044i64, 1720i64, 2118i64, 1980i64, 1341i64, 540i64, 91i64], c),
        int_poly_spec(seq![1i64, 7i64, 35i64, 126i64, 401i64, 1000i64, 2196i64, 4200i64, 5990i64, 6445i64, 5071i64, 2366i64, 455i64], c),
        int_poly_spec(seq![1i64, 8i64, 40i64, 160i64, 466i64, 1152i64, 2480i64, 3872i64, 4465i64, 3730i64, 1826i64, 364i64], c),
        int_poly_spec(seq![1i64, 9i64, 50i64, 221i64, 712i64, 1932i64, 4712i64, 8415i64, 11025i64, 10615i64, 6006i64, 1365i64], c),
        int_poly_spec(seq![1i64, 10i64, 61i64, 246i64, 780i64, 2232i64, 4543i64, 6560i64, 6885i64, 4180i64, 1001i64], c),
        int_poly_spec(seq![1i64, 11i64, 73i64, 324i64, 1116i64, 3527i64, 8113i64, 13140i64, 15741i64, 11011i64, 3003i64], c),
        int_poly_spec(seq![1i64, 12i64, 78i64, 336i64, 1295i64, 3570i64, 6580i64, 8856i64, 6831i64, 2002i64], c),
        int_poly_spec(seq![1i64, 13i64, 92i64, 427i64, 1779i64, 5467i64, 11172i64, 16962i64, 15015i64, 5005i64], c),
        int_poly_spec(seq![1i64, 14i64, 91i64, 484i64, 1897i64, 4592i64, 8106i64, 8184i64, 3003i64], c),
        int_poly_spec(seq![1i64, 15i64, 105i64, 598i64, 2565i64, 6822i64, 13398i64, 15444i64, 6435i64], c),
        int_poly_spec(seq![1i64, 14i64, 114i64, 668i64, 2230i64, 5292i64, 7260i64, 3432i64], c),
        int_poly_spec(seq![1i64, 15i64, 130i64, 815i64, 2970i64, 7722i64, 12012i64, 6435i64], c),
        int_poly_spec(seq![1i64, 16i64, 147i64, 740i64, 2430i64, 4752i64, 3003i64], c),
        int_poly_spec(seq![1i64, 17i64, 165i64, 900i64, 3190i64, 7007i64, 5005i64], c),
        int_poly_spec(seq![1i64, 18i64, 160i64, 760i64, 2255i64, 2002i64], c),
        int_poly_spec(seq![1i64, 19i64, 180i64, 913i64, 3003i64, 3003i64], c),
        int_poly_spec(seq![1i64, 20i64, 153i64, 748i64, 1001i64], c),
        int_poly_spec(seq![1i64, 21i64, 171i64, 910i64, 1365i64], c),
        int_poly_spec(seq![1i64, 18i64, 162i64, 364i64], c),
        int_poly_spec(seq![1i64, 19i64, 182i64, 455i64], c),
        int_poly_spec(seq![1i64, 20i64, 91i64], c),
        int_poly_spec(seq![1i64, 21i64, 105i64], c),
        int_poly_spec(seq![1i64, 14i64], c),
        int_poly_spec(seq![1i64, 15i64], c),
        int_poly_spec(seq![1i64], c),
        int_poly_spec(seq![1i64], c),
    ]
}

/// Build the coefficient list of `cycle_5_coeffs` at `c`.
#[verifier::rlimit(100)]
#[verifier::spinoff_prover]
fn cycle_5_build(c: Cplx) -> (r: Vec<Cplx>)
    ensures
        r@ == cycle_5_coeffs(c),
{
    let mut coeffs: Vec<Cplx> = Vec::new();
    let row32: Vec<i64> = vec![1, 1, 2, 5, 14, 26, 44, 69, 94, 114, 116, 94, 60, 28, 8, 1];
        proof {
            assert(row32@ =~= seq![1i64, 1i64, 2i64, 5i64, 14i64, 26i64, 44i64, 69i64, 94i64, 114i64, 116i64, 94i64, 60i64, 28i64, 8i64, 1i64]);
        }
        coeffs.push(int_poly(&row32, c));
    let row33: Vec<i64> = vec![1, 2, 5, 14, 26, 44, 69, 94, 114, 116, 94, 60, 28, 8, 1];
        proof {
            assert(row33@ =~= seq![1i64, 2i64, 5i64, 14i64, 26i64, 44i64, 69i64, 94i64, 114i64, 116i64, 94i64, 60i64, 28i64, 8i64, 1i64]);
        }
        coeffs.push(int_poly(&row33, c));
    let row34: Vec<i64> = vec![1, 3, 9, 28, 66, 137, 265, 436, 642, 794, 766, 576, 316, 105, 15];
        proof {
            assert(row34@ =~= seq![1i64, 3i64, 9i64, 28i64, 66i64, 137i64, 265i64, 436i64, 642i64, 794i64, 766i64, 576i64, 316i64, 105i64, 15i64]);
        }
        coeffs.push(int_poly(&row34, c));
    let row35: Vec<i64> = vec![1, 4, 14, 40, 93, 196, 342, 528, 678, 672, 516, 288, 97, 14];
        proof {
            assert(row35@ =~= seq![1i64, 4i64, 14i64, 40i64, 93i64, 196i64, 342i64, 528i64, 678i64, 672i64, 516i64, 288i64, 97i64, 14i64]);
        }
        coeffs.push(int_poly(&row35, c));
    let row36: Vec<i64> = vec![1, 5, 20, 67, 179, 437, 876, 1572, 2398, 2790, 2496, 1629, 637, 105];
        proof {
            assert(row36@ =~= seq![1i64, 5i64, 20i64, 67i64, 179i64, 437i64, 876i64, 1572i64, 2398i64, 2790i64, 2496i64, 1629i64, 637i64, 105i64]);
        }
        coeffs.push(int_poly(&row36, c));
    let row37: Vec<i64> = vec![1, 6, 27, 86, 241, 534, 1044, 1720, 2118, 1980, 1341, 540, 91];
        proof {
            assert(row37@ =~= seq![1i64, 6i64, 27i64, 86i64, 241i64, 534i64, 1044i64, 1720i64, 2118i64, 1980i64, 1341i64, 540i64, 91i64]);
        }
        coeffs.push(int_poly(&row37, c));
    let row38: Vec<i64> = vec![1, 7, 35, 126, 401, 1000, 2196, 4200, 5990, 6445, 5071, 2366, 455];
        proof {
            assert(row38@ =~= seq![1i64, 7i64, 35i64, 126i64, 401i64, 1000i64, 2196i64, 4200i64, 5990i64, 6445i64, 5071i64, 2366i64, 455i64]);
        }
        coeffs.push(int_poly(&row38, c));
    let row39: Vec<i64> = vec![1, 8, 40, 160, 466, 1152, 2480, 3872, 4465, 3730, 1826, 364];
        proof {
            assert(row39@ =~= seq![1i64, 8i64, 40i64, 160i64, 466i64, 1152i64, 2480i64, 3872i64, 4465i64, 3730i64, 1826i64, 364i64]);
        }
        coeffs.push(int_poly(&row39, c));
    let row40: Vec<i64> = vec![1, 9, 50, 221, 712, 1932, 4712, 8415, 11025, 10615, 6006, 1365];
        proof {
            assert(row40@ =~= seq![1i64, 9i64, 50i64, 221i64, 712i64, 1932i64, 4712i64, 8415i64, 11025i64, 10615i64, 6006i64, 1365i64]);
        }
        coeffs.push(int_poly(&row40, c));
    let row41: Vec<i64> = vec![1, 10, 61, 246, 780, 2232, 4543, 6560, 6885, 4180, 1001];
        proof {
            assert(row41@ =~= seq![1i64, 10i64, 61i64, 246i64, 780i64, 2232i64, 4543i64, 6560i64, 6885i64, 4180i64, 1001i64]);
        }
        coeffs.push(int_poly(&row41, c));
    let row42: Vec<i64> = vec![1, 11, 73, 324, 1116, 3527, 8113, 13140, 15741, 11011, 3003];
        proof {
            assert(row42@ =~= seq![1i64, 11i64, 73i64, 324i64, 1116i64, 3527i64, 8113i64, 13140i64, 15741i64, 11011i64, 3003i64]);
        }
        coeffs.push(int_poly(&row42, c));
    let row43: Vec<i64> = vec![1, 12, 78, 336, 1295, 3570, 6580, 8856, 6831, 2002];
        proof {
            assert(row43@ =~= seq![1i64, 12i64, 78i64, 336i64, 1295i64, 3570i64, 6580i64, 8856i64, 6831i64, 2002i64]);
        }
        coeffs.push(int_poly(&row43, c));
    let row44: Vec<i64> = vec![1, 13, 92, 427, 1779, 5467, 11172, 16962, 15015, 5005];
        proof {
            assert(row44@ =~= seq![1i64, 13i64, 92i64, 427i64, 1779i64, 5467i64, 11172i64, 16962i64, 15015i64, 5005i64]);
        }
        coeffs.push(int_poly(&row44, c));
    let row45: Vec<i64> = vec![1, 14, 91, 484, 1897, 4592, 8106, 8184, 3003];
        proof {
            assert(row45@ =~= seq![1i64, 14i64, 91i64, 484i64, 1897i64, 4592i64, 8106i64, 8184i64, 3003i64]);
        }
        coeffs.push(int_poly(&row45, c));
    let row46: Vec<i64> = vec![1, 15, 105, 598, 2565, 6822, 13398, 15444, 6435];
        proof {
            assert(row46@ =~= seq![1i64, 15i64, 105i64, 598i64, 2565i64, 6822i64, 13398i64, 15444i64, 6435i64]);
        }
        coeffs.push(int_poly(&row46, c));
    let row47: Vec<i64> = vec![1, 14, 114, 668, 2230, 5292, 7260, 3432];
        proof {
            assert(row47@ =~= seq![1i64, 14i64, 114i64, 668i64, 2230i64, 5292i64, 7260i64, 3432i64]);
        }
        coeffs.push(int_poly(&row47, c));
    let row48: Vec<i64> = vec![1, 15, 130, 815, 2970, 7722, 12012, 6435];
        proof {
            assert(row48@ =~= seq![1i64, 15i64, 130i64, 815i64, 2970i64, 7722i64, 12012i64, 6435i64]);
        }
        coeffs.push(int_poly(&row48, c));
    let row49: Vec<i64> = vec![1, 16, 147, 740, 2430, 4752, 3003];
        proof {
            assert(row49@ =~= seq![1i64, 16i64, 147i64, 740i64, 2430i64, 4752i64, 3003i64]);
        }
        coeffs.push(int_poly(&row49, c));
    let row50: Vec<i64> = vec![1, 17, 165, 900, 3190, 7007, 5005];
        proof {
            assert(row50@ =~= seq![1i64, 17i64, 165i64, 900i64, 3190i64, 7007i64, 5005i64]);
        }
        coeffs.push(int_poly(&row50, c));
    let row51: Vec<i64> = vec![1, 18, 160, 760, 2255, 2002];
        proof {
            assert(row51@ =~= seq![1i64, 18i64, 160i64, 760i64, 2255i64, 2002i64]);
        }
        coeffs.push(int_poly(&row51, c));
    let row52: Vec<i64> = vec![1, 19, 180, 913, 3003, 3003];
        proof {
            assert(row52@ =~= seq![1i64, 19i64, 180i64, 913i64, 3003i64, 3003i64]);
        }
        coeffs.push(int_poly(&row52, c));
    let row53: Vec<i64> = vec![1, 20, 153, 748, 1001];
        proof {
            assert(row53@ =~= seq![1i64, 20i64, 153i64, 748i64, 1001i64]);
        }
        coeffs.push(int_poly(&row53, c));
    let row54: Vec<i64> = vec![1, 21, 171, 910, 1365];
        proof {
            assert(row54@ =~= seq![1i64, 21i64, 171i64, 910i64, 1365i64]);
        }
        coeffs.push(int_poly(&row54, c));
    let row55: Vec<i64> = vec![1, 18, 162, 364];
        proof {
            assert(row55@ =~= seq![1i64, 18i64, 162i64, 364i64]);
        }
        coeffs.push(int_poly(&row55, c));
    let row56: Vec<i64> = vec![1, 19, 182, 455];
        proof {
            assert(row56@ =~= seq![1i64, 19i64, 182i64, 455i64]);
        }
        coeffs.push(int_poly(&row56, c));
    let row57: Vec<i64> = vec![1, 20, 91];
        proof {
            assert(row57@ =~= seq![1i64, 20i64, 91i64]);
        }
        coeffs.push(int_poly(&row57, c));
    let row58: Vec<i64> = vec![1, 21, 105];
        proof {
            assert(row58@ =~= seq![1i64, 21i64, 105i64]);
        }
        coeffs.push(int_poly(&row58, c));
    let row59: Vec<i64> = vec![1, 14];
        proof {
            assert(row59@ =~= seq![1i64, 14i64]);
        }
        coeffs.push(int_poly(&row59, c));
    let row60: Vec<i64> = vec![1, 15];
        proof {
            assert(row60@ =~= seq![1i64, 15i64]);
        }
        coeffs.push(int_poly(&row60, c));
    let row61: Vec<i64> = vec![1];
        proof {
            assert(row61@ =~= seq![1i64]);
        }
        coeffs.push(int_poly(&row61, c));
    let row62: Vec<i64> = vec![1];
        proof {
            assert(row62@ =~= seq![1i64]);
        }
        coeffs.push(int_poly(&row62, c));
    proof {
        reveal(cycle_5_coeffs);
        assert(coeffs@ =~= cycle_5_coeffs(c));
    }
    coeffs
}

/// The low-order half of the stored period-six coefficients at `c`.
#[verifier::opaque]
pub open spec fn cycle_6_coeffs_lo(c: Cplx) -> Seq<Cplx> {
    seq![
        int_poly_spec(seq![1i64, -1i64, 1i64, 3i64, 7i64, 17i64, 35i64, 76i64, 155i64, 298i64, 536i64, 927i64, 1525i64, 2331i64, 3310i64, 4346i64, 5258i64, 5843i64, 5892i64, 5313i64, 4219i64, 2892i64, 1672i64, 792i64, 293i64, 78i64, 13i64, 1i64], c),
        int_poly_spec(seq![-1i64, 2i64, 1i64, 2i64, 1i64, 8i64, 16i64, 18i64, 26i64, 32i64, 31i64, -16i64, -149i64, -384i64, -730i64, -1164i64, -1635i64, -2032i64, -2201i64, -2050i64, -1614i64, -1052i64, -554i64, -226i64, -66i64, -12i64, -1i64], c),
        int_poly_spec(seq![0i64, -1i64, 1i64, 2i64, 20i64, 38i64, 118i64, 336i64, 830i64, 1789i64, 3675i64, 7278i64, 13177i64, 21870i64, 33146i64, 45768i64, 57763i64, 65879i64, 66831i64, 59408i64, 45336i64, 29012i64, 15146i64, 6156i64, 1793i64, 325i64, 27i64], c),
        int_poly_spec(seq![1i64, 0i64, 4i64, -4i64, 8i64, 50i64, 62i64, 112i64, 181i64, 342i64, 426i64, 12i64, -1202i64, -3608i64, -7396i64, -12632i64, -18711i64, -23728i64, -25494i64, -22864i64, -16778i64, -9862i64, -4466i64, -1440i64, -287i64, -26i64], c),
        int_poly_spec(seq![-1i64, 2i64, -3i64, 26i64, 33i64, 84i64, 364i64, 1166i64, 2932i64, 6726i64, 15798i64, 33828i64, 65816i64, 115718i64, 182688i64, 262556i64, 340280i64, 390387i64, 390678i64, 333800i64, 237612i64, 137324i64, 61590i64, 19710i64, 3900i64, 351i64], c),
        int_poly_spec(seq![0i64, 2i64, -2i64, -10i64, 62i64, 90i64, 190i64, 296i64, 764i64, 1772i64, 1900i64, -148i64, -6726i64, -19956i64, -42692i64, -77016i64, -116249i64, -145938i64, -150666i64, -125470i64, -82824i64, -41866i64, -14982i64, -3288i64, -325i64], c),
        int_poly_spec(seq![1i64, -4i64, 14i64, 28i64, 6i64, 202i64, 966i64, 3128i64, 7588i64, 20584i64, 52104i64, 119292i64, 245646i64, 444356i64, 728148i64, 1077208i64, 1405041i64, 1592556i64, 1533190i64, 1220740i64, 784784i64, 390258i64, 137862i64, 29900i64, 2925i64], c),
        int_poly_spec(seq![0i64, 2i64, -14i64, 36i64, 80i64, 212i64, 328i64, 672i64, 3104i64, 5500i64, 5416i64, -3512i64, -28760i64, -81704i64, -185472i64, -340960i64, -508344i64, -612114i64, -584050i64, -435980i64, -247500i64, -98868i64, -24012i64, -2600i64], c),
        int_poly_spec(seq![-1i64, 3i64, 21i64, -17i64, 63i64, 463i64, 2390i64, 6152i64, 18021i64, 53705i64, 144586i64, 354856i64, 738994i64, 1379504i64, 2338720i64, 3486132i64, 4503660i64, 4920750i64, 4409715i64, 3170035i64, 1756986i64, 688666i64, 164450i64, 17550i64], c),
        int_poly_spec(seq![1i64, -6i64, 7i64, 46i64, 131i64, 368i64, 76i64, 2940i64, 8045i64, 13180i64, 8944i64, -20888i64, -94332i64, -285488i64, -662360i64, -1198620i64, -1712196i64, -1894170i64, -1611725i64, -1034550i64, -464310i64, -125488i64, -14950i64], c),
        int_poly_spec(seq![0i64, 7i64, -7i64, 2i64, 97i64, 1220i64, 4040i64, 11356i64, 39435i64, 122452i64, 368668i64, 894960i64, 1895936i64, 3694012i64, 6322848i64, 9368184i64, 11712477i64, 11898351i64, 9619643i64, 5976432i64, 2613996i64, 690690i64, 80730i64], c),
        int_poly_spec(seq![-1i64, 0i64, 16i64, 36i64, 348i64, -268i64, 1424i64, 7344i64, 16828i64, 23760i64, 592i64, -61208i64, -283360i64, -886396i64, -2009148i64, -3484176i64, -4538121i64, -4442796i64, -3249114i64, -1650264i64, -499422i64, -65780i64], c),
        int_poly_spec(seq![1i64, 0i64, -6i64, 10i64, 308i64, 2266i64, 5484i64, 21820i64, 73304i64, 281624i64, 821580i64, 1961932i64, 4397120i64, 8677956i64, 14827548i64, 21411444i64, 24864744i64, 22751949i64, 15943774i64, 7831362i64, 2302300i64, 296010i64], c),
        int_poly_spec(seq![0i64, 2i64, 2i64, 188i64, -142i64, 12i64, 4540i64, 13504i64, 30788i64, 19872i64, -10472i64, -162932i64, -814772i64, -2436252i64, -5304348i64, -8306280i64, -9462183i64, -7951614i64, -4608450i64, -1572648i64, -230230i64], c),
        int_poly_spec(seq![0i64, -2i64, 6i64, -36i64, 998i64, 2204i64, 9676i64, 30960i64, 156468i64, 586996i64, 1569376i64, 4035152i64, 9213996i64, 18219084i64, 30707820i64, 41178216i64, 42945111i64, 34177770i64, 18987650i64, 6249100i64, 888030i64], c),
        int_poly_spec(seq![0i64, 0i64, 48i64, 40i64, -456i64, 2016i64, 6928i64, 26416i64, 27624i64, 17396i64, -17732i64, -480040i64, -2112240i64, -6098352i64, -11838720i64, -15916896i64, -15519504i64, -10360548i64, -4018652i64, -657800i64], c),
        int_poly_spec(seq![0i64, 2i64, -38i64, 282i64, 826i64, 3525i64, 9658i64, 59106i64, 330417i64, 991776i64, 2898731i64, 7687317i64, 17576754i64, 34973940i64, 54838260i64, 65702076i64, 59828967i64, 37898388i64, 14060475i64, 2220075i64], c),
        int_poly_spec(seq![0i64, 4i64, 52i64, -302i64, 667i64, 2132i64, 15620i64, 25434i64, 16512i64, 56936i64, -125345i64, -1228656i64, -5239728i64, -13253280i64, -21432240i64, -24515700i64, -19058292i64, -8479548i64, -1562275i64], c),
        int_poly_spec(seq![0i64, -6i64, 28i64, 302i64, 955i64, 2930i64, 11652i64, 145028i64, 505753i64, 1646205i64, 5107179i64, 13387088i64, 31794360i64, 59241260i64, 82287480i64, 86437384i64, 63005349i64, 26558675i64, 4686825i64], c),
        int_poly_spec(seq![0i64, 14i64, -88i64, 148i64, 340i64, 6058i64, 17970i64, 7176i64, 54549i64, 58630i64, -366080i64, -3212352i64, -11638120i64, -23264500i64, -31621700i64, -28992480i64, -14954577i64, -3124550i64], c),
        int_poly_spec(seq![0i64, -5i64, 92i64, 136i64, 1180i64, -1198i64, 47134i64, 212514i64, 742148i64, 2740947i64, 8069776i64, 23034804i64, 52124176i64, 84859852i64, 103733388i64, 87929644i64, 42493880i64, 8436285i64], c),
        int_poly_spec(seq![1i64, -10i64, 6i64, 46i64, 1274i64, 9578i64, 2598i64, 25256i64, 79871i64, 75504i64, -1189760i64, -7897396i64, -20394764i64, -33440836i64, -36709596i64, -22227568i64, -5311735i64], c),
        int_poly_spec(seq![-1i64, 16i64, -6i64, 440i64, -1474i64, 9726i64, 74522i64, 264788i64, 1207569i64, 3868332i64, 13175656i64, 37340160i64, 72239596i64, 103725636i64, 103500828i64, 57946200i64, 13037895i64], c),
        int_poly_spec(seq![0i64, -6i64, 30i64, -4i64, 3636i64, 1756i64, 5404i64, 43240i64, 136968i64, -9204i64, -3967652i64, -14389752i64, -28989896i64, -38798760i64, -27992472i64, -7726160i64], c),
        int_poly_spec(seq![1i64, -3i64, 99i64, -375i64, 488i64, 21490i64, 74074i64, 441546i64, 1502124i64, 5827640i64, 21663746i64, 50749114i64, 86415420i64, 102965940i64, 67603900i64, 17383860i64], c),
        int_poly_spec(seq![-1i64, 10i64, -75i64, 922i64, 1198i64, -616i64, 14882i64, 63804i64, 311844i64, -1290380i64, -8091694i64, -20507916i64, -34213452i64, -29953728i64, -9657700i64], c),
        int_poly_spec(seq![0i64, 9i64, -23i64, -384i64, 4788i64, 16198i64, 132426i64, 497400i64, 1912410i64, 10054650i64, 29340674i64, 59798928i64, 86532992i64, 67603900i64, 20058300i64], c),
        int_poly_spec(seq![1i64, -16i64, 142i64, 496i64, -742i64, 3640i64, 11340i64, 218736i64, -92910i64, -3555040i64, -11724900i64, -25069968i64, -27249572i64, -10400600i64], c),
    ]
}

/// The high-order half of the stored period-six coefficients at `c`.
#[verifier::opaque]
pub open spec fn cycle_6_coeffs_hi(c: Cplx) -> Seq<Cplx> {
    seq![
        int_poly_spec(seq![0i64, 7i64, -126i64, 734i64, 2860i64, 30822i64, 152436i64, 425820i64, 3641400i64, 13892230i64, 34151436i64, 61244676i64, 57946200i64, 20058300i64], c),
        int_poly_spec(seq![-1i64, 10i64, 118i64, -188i64, 590i64, -1860i64, 81084i64, 180120i64, -1170450i64, -5329500i64, -15135780i64, -21038928i64, -9657700i64], c),
        int_poly_spec(seq![1i64, -18i64, 66i64, 428i64, 4962i64, 44436i64, 49620i64, 974712i64, 5350818i64, 15931652i64, 36283236i64, 42493880i64, 17383860i64], c),
        int_poly_spec(seq![0i64, 16i64, -16i64, 16i64, -1248i64, 15552i64, 126288i64, -257856i64, -1875984i64, -7418664i64, -13728792i64, -7726160i64], c),
        int_poly_spec(seq![-1i64, 3i64, 47i64, 444i64, 11067i64, -576i64, 165036i64, 1662804i64, 5979699i64, 17814742i64, 26558675i64, 13037895i64], c),
        int_poly_spec(seq![1i64, 0i64, -16i64, -174i64, 30i64, 47724i64, -19278i64, -490314i64, -2877930i64, -7518148i64, -5311735i64], c),
        int_poly_spec(seq![0i64, 2i64, 12i64, 1968i64, 120i64, 4392i64, 412566i64, 1768140i64, 7138395i64, 14060475i64, 8436285i64], c),
        int_poly_spec(seq![0i64, -2i64, 6i64, -720i64, 11370i64, 11754i64, -89034i64, -842688i64, -3417777i64, -3124550i64], c),
        int_poly_spec(seq![0i64, 0i64, 202i64, 660i64, -6620i64, 80256i64, 400862i64, 2278518i64, 6249100i64, 4686825i64], c),
        int_poly_spec(seq![0i64, 2i64, -150i64, 1570i64, 6220i64, -10450i64, -166782i64, -1269048i64, -1562275i64], c),
        int_poly_spec(seq![0i64, 8i64, 210i64, -2020i64, 11660i64, 67914i64, 556094i64, 2302300i64, 2220075i64], c),
        int_poly_spec(seq![0i64, -10i64, 70i64, 1700i64, -1100i64, -13860i64, -375452i64, -657800i64], c),
        int_poly_spec(seq![0i64, 26i64, -285i64, 1067i64, 8778i64, 95634i64, 690690i64, 888030i64], c),
        int_poly_spec(seq![0i64, -10i64, 291i64, -286i64, 3234i64, -85008i64, -230230i64], c),
        int_poly_spec(seq![1i64, -17i64, 11i64, 1056i64, 9108i64, 164450i64, 296010i64], c),
        int_poly_spec(seq![-1i64, 28i64, -66i64, 1320i64, -13662i64, -65780i64], c),
        int_poly_spec(seq![0i64, -11i64, 150i64, -230i64, 29900i64, 80730i64], c),
        int_poly_spec(seq![1i64, -6i64, 198i64, -1288i64, -14950i64], c),
        int_poly_spec(seq![-1i64, 18i64, -198i64, 3900i64, 17550i64], c),
        int_poly_spec(seq![0i64, 12i64, -12i64, -2600i64], c),
        int_poly_spec(seq![1i64, -24i64, 325i64, 2925i64], c),
        int_poly_spec(seq![0i64, 12i64, -325i64], c),
        int_poly_spec(seq![-1i64, 13i64, 351i64], c),
        int_poly_spec(seq![1i64, -26i64], c),
        int_poly_spec(seq![0i64, 27i64], c),
        int_poly_spec(seq![-1i64], c),
        int_poly_spec(seq![1i64], c),
    ]
}

/// Coefficients of the stored period-six cycle polynomial at `c`.
pub open spec fn cycle_6_coeffs(c: Cplx) -> Seq<Cplx> {
    cycle_6_coeffs_lo(c) + cycle_6_coeffs_hi(c)
}

/// Build the low-order half of the period-six coefficients.
#[verifier::rlimit(100)]
#[verifier::spinoff_prover]
fn cycle_6_build_lo(c: Cplx) -> (r: Vec<Cplx>)
    ensures
        r@ == cycle_6_coeffs_lo(c),
{
    let mut coeffs: Vec<Cplx> = Vec::new();
    let row1000: Vec<i64> = vec![1, -1, 1, 3, 7, 17, 35, 76, 155, 298, 536, 927, 1525, 2331, 3310, 4346, 5258, 5843, 5892, 5313, 4219, 2892, 1672, 792, 293, 78, 13, 1];
    proof {
        assert(row1000@ =~= seq![1i64, -1i64, 1i64, 3i64, 7i64, 17i64, 35i64, 76i64, 155i64, 298i64, 536i64, 927i64, 1525i64, 2331i64, 3310i64, 4346i64, 5258i64, 5843i64, 5892i64, 5313i64, 4219i64, 2892i64, 1672i64, 792i64, 293i64, 78i64, 13i64, 1i64]);
    }
    coeffs.push(int_poly(&row1000, c));
    let row1001: Vec<i64> = vec![-1, 2, 1, 2, 1, 8, 16, 18, 26, 32, 31, -16, -149, -384, -730, -1164, -1635, -2032, -2201, -2050, -1614, -1052, -554, -226, -66, -12, -1];
    proof {
        assert(row1001@ =~= seq![-1i64, 2i64, 1i64, 2i64, 1i64, 8i64, 16i64, 18i64, 26i64, 32i64, 31i64, -16i64, -149i64, -384i64, -730i64, -1164i64, -1635i64, -2032i64, -2201i64, -2050i64, -1614i64, -1052i64, -554i64, -226i64, -66i64, -12i64, -1i64]);
    }
    coeffs.push(int_poly(&row1001, c));
    let row1002: Vec<i64> = vec![0, -1, 1, 2, 20, 38, 118, 336, 830, 1789, 3675, 7278, 13177, 21870, 33146, 45768, 57763, 65879, 66831, 59408, 45336, 29012, 15146, 6156, 1793, 325, 27];
    proof {
        assert(row1002@ =~= seq![0i64, -1i64, 1i64, 2i64, 20i64, 38i64, 118i64, 336i64, 830i64, 1789i64, 3675i64, 7278i64, 13177i64, 21870i64, 33146i64, 45768i64, 57763i64, 65879i64, 66831i64, 59408i64, 45336i64, 29012i64, 15146i64, 6156i64, 1793i64, 325i64, 27i64]);
    }
    coeffs.push(int_poly(&row1002, c));
    let row1003: Vec<i64> = vec![1, 0, 4, -4, 8, 50, 62, 112, 181, 342, 426, 12, -1202, -3608, -7396, -12632, -18711, -23728, -25494, -22864, -16778, -9862, -4466, -1440, -287, -26];
    proof {
        assert(row1003@ =~= seq![1i64, 0i64, 4i64, -4i64, 8i64, 50i64, 62i64, 112i64, 181i64, 342i64, 426i64, 12i64, -1202i64, -3608i64, -7396i64, -12632i64, -18711i64, -23728i64, -25494i64, -22864i64, -16778i64, -9862i64, -4466i64, -1440i64, -287i64, -26i64]);
    }
    coeffs.push(int_poly(&row1003, c));
    let row1004: Vec<i64> = vec![-1, 2, -3, 26, 33, 84, 364, 1166, 2932, 6726, 15798, 33828, 65816, 115718, 182688, 262556, 340280, 390387, 390678, 333800, 237612, 137324, 61590, 19710, 3900, 351];
    proof {
        assert(row1004@ =~= seq![-1i64, 2i64, -3i64, 26i64, 33i64, 84i64, 364i64, 1166i64, 2932i64, 6726i64, 15798i64, 33828i64, 65816i64, 115718i64, 182688i64, 262556i64, 340280i64, 390387i64, 390678i64, 333800i64, 237612i64, 137324i64, 61590i64, 19710i64, 3900i64, 351i64]);
    }
    coeffs.push(int_poly(&row1004, c));
    let row1005: Vec<i64> = vec![0, 2, -2, -10, 62, 90, 190, 296, 764, 1772, 1900, -148, -6726, -19956, -42692, -77016, -116249, -145938, -150666, -125470, -82824, -41866, -14982, -3288, -325];
    proof {
        assert(row1005@ =~= seq![0i64, 2i64, -2i64, -10i64, 62i64, 90i64, 190i64, 296i64, 764i64, 1772i64, 1900i64, -148i64, -6726i64, -19956i64, -42692i64, -77016i64, -116249i64, -145938i64, -150666i64, -125470i64, -82824i64, -41866i64, -14982i64, -3288i64, -325i64]);
    }
    coeffs.push(int_poly(&row1005, c));
    let row1006: Vec<i64> = vec![1, -4, 14, 28, 6, 202, 966, 3128, 7588, 20584, 52104, 119292, 245646, 444356, 728148, 1077208, 1405041, 1592556, 1533190, 1220740, 784784, 390258, 137862, 29900, 2925];
    proof {
        assert(row1006@ =~= seq![1i64, -4i64, 14i64, 28i64, 6i64, 202i64, 966i64, 3128i64, 7588i64, 20584i64, 52104i64, 119292i64, 245646i64, 444356i64, 728148i64, 1077208i64, 1405041i64, 1592556i64, 1533190i64, 1220740i64, 784784i64, 390258i64, 137862i64, 29900i64, 2925i64]);
    }
    coeffs.push(int_poly(&row1006, c));
    let row1007: Vec<i64> = vec![0, 2, -14, 36, 80, 212, 328, 672, 3104, 5500, 5416, -3512, -28760, -81704, -185472, -340960, -508344, -612114, -584050, -435980, -247500, -98868, -24012, -2600];
    proof {
        assert(row1007@ =~= seq![0i64, 2i64, -14i64, 36i64, 80i64, 212i64, 328i64, 672i64, 3104i64, 5500i64, 5416i64, -3512i64, -28760i64, -81704i64, -185472i64, -340960i64, -508344i64, -612114i64, -584050i64, -435980i64, -247500i64, -98868i64, -24012i64, -2600i64]);
    }
    coeffs.push(int_poly(&row1007, c));
    let row1008: Vec<i64> = vec![-1, 3, 21, -17, 63, 463, 2390, 6152, 18021, 53705, 144586, 354856, 738994, 1379504, 2338720, 3486132, 4503660, 4920750, 4409715, 3170035, 1756986, 688666, 164450, 17550];
    proof {
        assert(row1008@ =~= seq![-1i64, 3i64, 21i64, -17i64, 63i64, 463i64, 2390i64, 6152i64, 18021i64, 53705i64, 144586i64, 354856i64, 738994i64, 1379504i64, 2338720i64, 3486132i64, 4503660i64, 4920750i64, 4409715i64, 3170035i64, 1756986i64, 688666i64, 164450i64, 17550i64]);
    }
    coeffs.push(int_poly(&row1008, c));
    let row1009: Vec<i64> = vec![1, -6, 7, 46, 131, 368, 76, 2940, 8045, 13180, 8944, -20888, -94332, -285488, -662360, -1198620, -1712196, -1894170, -1611725, -1034550, -464310, -125488, -14950];
    proof {
        assert(row1009@ =~= seq![1i64, -6i64, 7i64, 46i64, 131i64, 368i64, 76i64, 2940i64, 8045i64, 13180i64, 8944i64, -20888i64, -94332i64, -285488i64, -662360i64, -1198620i64, -1712196i64, -1894170i64, -1611725i64, -1034550i64, -464310i64, -125488i64, -14950i64]);
    }
    coeffs.push(int_poly(&row1009, c));
    let row1010: Vec<i64> = vec![0, 7, -7, 2, 97, 1220, 4040, 11356, 39435, 122452, 368668, 894960, 1895936, 3694012, 6322848, 9368184, 11712477, 11898351, 9619643, 5976432, 2613996, 690690, 80730];
    proof {
        assert(row1010@ =~= seq![0i64, 7i64, -7i64, 2i64, 97i64, 1220i64, 4040i64, 11356i64, 39435i64, 122452i64, 368668i64, 894960i64, 1895936i64, 3694012i64, 6322848i64, 9368184i64, 11712477i64, 11898351i64, 9619643i64, 5976432i64, 2613996i64, 690690i64, 80730i64]);
    }
    coeffs.push(int_poly(&row1010, c));
    let row1011: Vec<i64> = vec![-1, 0, 16, 36, 348, -268, 1424, 7344, 16828, 23760, 592, -61208, -283360, -886396, -2009148, -3484176, -4538121, -4442796, -3249114, -1650264, -499422, -65780];
    proof {
        assert(row1011@ =~= seq![-1i64, 0i64, 16i64, 36i64, 348i64, -268i64, 1424i64, 7344i64, 16828i64, 23760i64, 592i64, -61208i64, -283360i64, -886396i64, -2009148i64, -3484176i64, -4538121i64, -4442796i64, -3249114i64, -1650264i64, -499422i64, -65780i64]);
    }
    coeffs.push(int_poly(&row1011, c));
    let row1012: Vec<i64> = vec![1, 0, -6, 10, 308, 2266, 5484, 21820, 73304, 281624, 821580, 1961932, 4397120, 8677956, 14827548, 21411444, 24864744, 22751949, 15943774, 7831362, 2302300, 296010];
    proof {
        assert(row1012@ =~= seq![1i64, 0i64, -6i64, 10i64, 308i64, 2266i64, 5484i64, 21820i64, 73304i64, 281624i64, 821580i64, 1961932i64, 4397120i64, 8677956i64, 14827548i64, 21411444i64, 24864744i64, 22751949i64, 15943774i64, 7831362i64, 2302300i64, 296010i64]);
    }
    coeffs.push(int_poly(&row1012, c));
    let row1013: Vec<i64> = vec![0, 2, 2, 188, -142, 12, 4540, 13504, 30788, 19872, -10472, -162932, -814772, -2436252, -5304348, -8306280, -9462183, -7951614, -4608450, -1572648, -230230];
    proof {
        assert(row1013@ =~= seq![0i64, 2i64, 2i64, 188i64, -142i64, 12i64, 4540i64, 13504i64, 30788i64, 19872i64, -10472i64, -162932i64, -814772i64, -2436252i64, -5304348i64, -8306280i64, -9462183i64, -7951614i64, -4608450i64, -1572648i64, -230230i64]);
    }
    coeffs.push(int_poly(&row1013, c));
    let row1014: Vec<i64> = vec![0, -2, 6, -36, 998, 2204, 9676, 30960, 156468, 586996, 1569376, 4035152, 9213996, 18219084, 30707820, 41178216, 42945111, 34177770, 18987650, 6249100, 888030];
    proof {
        assert(row1014@ =~= seq![0i64, -2i64, 6i64, -36i64, 998i64, 2204i64, 9676i64, 30960i64, 156468i64, 586996i64, 1569376i64, 4035152i64, 9213996i64, 18219084i64, 30707820i64, 41178216i64, 42945111i64, 34177770i64, 18987650i64, 6249100i64, 888030i64]);
    }
    coeffs.push(int_poly(&row1014, c));
    let row1015: Vec<i64> = vec![0, 0, 48, 40, -456, 2016, 6928, 26416, 27624, 17396, -17732, -480040, -2112240, -6098352, -11838720, -15916896, -15519504, -10360548, -4018652, -657800];
    proof {
        assert(row1015@ =~= seq![0i64, 0i64, 48i64, 40i64, -456i64, 2016i64, 6928i64, 26416i64, 27624i64, 17396i64, -17732i64, -480040i64, -2112240i64, -6098352i64, -11838720i64, -15916896i64, -15519504i64, -10360548i64, -4018652i64, -657800i64]);
    }
    coeffs.push(int_poly(&row1015, c));
    let row1016: Vec<i64> = vec![0, 2, -38, 282, 826, 3525, 9658, 59106, 330417, 991776, 2898731, 7687317, 17576754, 34973940, 54838260, 65702076, 59828967, 37898388, 14060475, 2220075];
    proof {
        assert(row1016@ =~= seq![0i64, 2i64, -38i64, 282i64, 826i64, 3525i64, 9658i64, 59106i64, 330417i64, 991776i64, 2898731i64, 7687317i64, 17576754i64, 34973940i64, 54838260i64, 65702076i64, 59828967i64, 37898388i64, 14060475i64, 2220075i64]);
    }
    coeffs.push(int_poly(&row1016, c));
    let row1017: Vec<i64> = vec![0, 4, 52, -302, 667, 2132, 15620, 25434, 16512, 56936, -125345, -1228656, -5239728, -13253280, -21432240, -24515700, -19058292, -8479548, -1562275];
    proof {
        assert(row1017@ =~= seq![0i64, 4i64, 52i64, -302i64, 667i64, 2132i64, 15620i64, 25434i64, 16512i64, 56936i64, -125345i64, -1228656i64, -5239728i64, -13253280i64, -21432240i64, -24515700i64, -19058292i64, -8479548i64, -1562275i64]);
    }
    coeffs.push(int_poly(&row1017, c));
    let row1018: Vec<i64> = vec![0, -6, 28, 302, 955, 2930, 11652, 145028, 505753, 1646205, 5107179, 13387088, 31794360, 59241260, 82287480, 86437384, 63005349, 26558675, 4686825];
    proof {
        assert(row1018@ =~= seq![0i64, -6i64, 28i64, 302i64, 955i64, 2930i64, 11652i64, 145028i64, 505753i64, 1646205i64, 5107179i64, 13387088i64, 31794360i64, 59241260i64, 82287480i64, 86437384i64, 63005349i64, 26558675i64, 4686825i64]);
    }
    coeffs.push(int_poly(&row1018, c));
    let row1019: Vec<i64> = vec![0, 14, -88, 148, 340, 6058, 17970, 7176, 54549, 58630, -366080, -3212352, -11638120, -23264500, -31621700, -28992480, -14954577, -3124550];
    proof {
        assert(row1019@ =~= seq![0i64, 14i64, -88i64, 148i64, 340i64, 6058i64, 17970i64, 7176i64, 54549i64, 58630i64, -366080i64, -3212352i64, -11638120i64, -23264500i64, -31621700i64, -28992480i64, -14954577i64, -3124550i64]);
    }
    coeffs.push(int_poly(&row1019, c));
    let row1020: Vec<i64> = vec![0, -5, 92, 136, 1180, -1198, 47134, 212514, 742148, 2740947, 8069776, 23034804, 52124176, 84859852, 103733388, 87929644, 42493880, 8436285];
    proof {
        assert(row1020@ =~= seq![0i64, -5i64, 92i64, 136i64, 1180i64, -1198i64, 47134i64, 212514i64, 742148i64, 2740947i64, 8069776i64, 23034804i64, 52124176i64, 84859852i64, 103733388i64, 87929644i64, 42493880i64, 8436285i64]);
    }
    coeffs.push(int_poly(&row1020, c));
    let row1021: Vec<i64> = vec![1, -10, 6, 46, 1274, 9578, 2598, 25256, 79871, 75504, -1189760, -7897396, -20394764, -33440836, -36709596, -22227568, -5311735];
    proof {
        assert(row1021@ =~= seq![1i64, -10i64, 6i64, 46i64, 1274i64, 9578i64, 2598i64, 25256i64, 79871i64, 75504i64, -1189760i64, -7897396i64, -20394764i64, -33440836i64, -36709596i64, -22227568i64, -5311735i64]);
    }
    coeffs.push(int_poly(&row1021, c));
    let row1022: Vec<i64> = vec![-1, 16, -6, 440, -1474, 9726, 74522, 264788, 1207569, 3868332, 13175656, 37340160, 72239596, 103725636, 103500828, 57946200, 13037895];
    proof {
        assert(row1022@ =~= seq![-1i64, 16i64, -6i64, 440i64, -1474i64, 9726i64, 74522i64, 264788i64, 1207569i64, 3868332i64, 13175656i64, 37340160i64, 72239596i64, 103725636i64, 103500828i64, 57946200i64, 13037895i64]);
    }
    coeffs.push(int_poly(&row1022, c));
    let row1023: Vec<i64> = vec![0, -6, 30, -4, 3636, 1756, 5404, 43240, 136968, -9204, -3967652, -14389752, -28989896, -38798760, -27992472, -7726160];
    proof {
        assert(row1023@ =~= seq![0i64, -6i64, 30i64, -4i64, 3636i64, 1756i64, 5404i64, 43240i64, 136968i64, -9204i64, -3967652i64, -14389752i64, -28989896i64, -38798760i64, -27992472i64, -7726160i64]);
    }
    coeffs.push(int_poly(&row1023, c));
    let row1024: Vec<i64> = vec![1, -3, 99, -375, 488, 21490, 74074, 441546, 1502124, 5827640, 21663746, 50749114, 86415420, 102965940, 67603900, 17383860];
    proof {
        assert(row1024@ =~= seq![1i64, -3i64, 99i64, -375i64, 488i64, 21490i64, 74074i64, 441546i64, 1502124i64, 5827640i64, 21663746i64, 50749114i64, 86415420i64, 102965940i64, 67603900i64, 17383860i64]);
    }
    coeffs.push(int_poly(&row1024, c));
    let row1025: Vec<i64> = vec![-1, 10, -75, 922, 1198, -616, 14882, 63804, 311844, -1290380, -8091694, -20507916, -34213452, -29953728, -9657700];
    proof {
        assert(row1025@ =~= seq![-1i64, 10i64, -75i64, 922i64, 1198i64, -616i64, 14882i64, 63804i64, 311844i64, -1290380i64, -8091694i64, -20507916i64, -34213452i64, -29953728i64, -9657700i64]);
    }
    coeffs.push(int_poly(&row1025, c));
    let row1026: Vec<i64> = vec![0, 9, -23, -384, 4788, 16198, 132426, 497400, 1912410, 10054650, 29340674, 59798928, 86532992, 67603900, 20058300];
    proof {
        assert(row1026@ =~= seq![0i64, 9i64, -23i64, -384i64, 4788i64, 16198i64, 132426i64, 497400i64, 1912410i64, 10054650i64, 29340674i64, 59798928i64, 86532992i64, 67603900i64, 20058300i64]);
    }
    coeffs.push(int_poly(&row1026, c));
    let row1027: Vec<i64> = vec![1, -16, 142, 496, -742, 3640, 11340, 218736, -92910, -3555040, -11724900, -25069968, -27249572, -10400600];
    proof {
        assert(row1027@ =~= seq![1i64, -16i64, 142i64, 496i64, -742i64, 3640i64, 11340i64, 218736i64, -92910i64, -3555040i64, -11724900i64, -25069968i64, -27249572i64, -10400600i64]);
    }
    coeffs.push(int_poly(&row1027, c));
    proof {
        reveal(cycle_6_coeffs_lo);
        assert(coeffs@ =~= cycle_6_coeffs_lo(c));
    }
    coeffs
}

/// Build the high-order half of the period-six coefficients.
#[verifier::rlimit(100)]
#[verifier::spinoff_prover]
fn cycle_6_build_hi(c: Cplx) -> (r: Vec<Cplx>)
    ensures
        r@ == cycle_6_coeffs_hi(c),
{
    let mut coeffs: Vec<Cplx> = Vec::new();
    let row1028: Vec<i64> = vec![0, 7, -126, 734, 2860, 30822, 152436, 425820, 3641400, 13892230, 34151436, 61244676, 57946200, 20058300];
    proof {
        assert(row1028@ =~= seq![0i64, 7i64, -126i64, 734i64, 2860i64, 30822i64, 152436i64, 425820i64, 3641400i64, 13892230i64, 34151436i64, 61244676i64, 57946200i64, 20058300i64]);
    }
    coeffs.push(int_poly(&row1028, c));
    let row1029: Vec<i64> = vec![-1, 10, 118, -188, 590, -1860, 81084, 180120, -1170450, -5329500, -15135780, -21038928, -9657700];
    proof {
        assert(row1029@ =~= seq![-1i64, 10i64, 118i64, -188i64, 590i64, -1860i64, 81084i64, 180120i64, -1170450i64, -5329500i64, -15135780i64, -21038928i64, -9657700i64]);
    }
    coeffs.push(int_poly(&row1029, c));
    let row1030: Vec<i64> = vec![1, -18, 66, 428, 4962, 44436, 49620, 974712, 5350818, 15931652, 36283236, 42493880, 17383860];
    proof {
        assert(row1030@ =~= seq![1i64, -18i64, 66i64, 428i64, 4962i64, 44436i64, 49620i64, 974712i64, 5350818i64, 15931652i64, 36283236i64, 42493880i64, 17383860i64]);
    }
    coeffs.push(int_poly(&row1030, c));
    let row1031: Vec<i64> = vec![0, 16, -16, 16, -1248, 15552, 126288, -257856, -1875984, -7418664, -13728792, -7726160];
    proof {
        assert(row1031@ =~= seq![0i64, 16i64, -16i64, 16i64, -1248i64, 15552i64, 126288i64, -257856i64, -1875984i64, -7418664i64, -13728792i64, -7726160i64]);
    }
    coeffs.push(int_poly(&row1031, c));
    let row1032: Vec<i64> = vec![-1, 3, 47, 444, 11067, -576, 165036, 1662804, 5979699, 17814742, 26558675, 13037895];
    proof {
        assert(row1032@ =~= seq![-1i64, 3i64, 47i64, 444i64, 11067i64, -576i64, 165036i64, 1662804i64, 5979699i64, 17814742i64, 26558675i64, 13037895i64]);
    }
    coeffs.push(int_poly(&row1032, c));
    let row1033: Vec<i64> = vec![1, 0, -16, -174, 30, 47724, -19278, -490314, -2877930, -7518148, -5311735];
    proof {
        assert(row1033@ =~= seq![1i64, 0i64, -16i64, -174i64, 30i64, 47724i64, -19278i64, -490314i64, -2877930i64, -7518148i64, -5311735i64]);
    }
    coeffs.push(int_poly(&row1033, c));
    let row1034: Vec<i64> = vec![0, 2, 12, 1968, 120, 4392, 412566, 1768140, 7138395, 14060475, 8436285];
    proof {
        assert(row1034@ =~= seq![0i64, 2i64, 12i64, 1968i64, 120i64, 4392i64, 412566i64, 1768140i64, 7138395i64, 14060475i64, 8436285i64]);
    }
    coeffs.push(int_poly(&row1034, c));
    let row1035: Vec<i64> = vec![0, -2, 6, -720, 11370, 11754, -89034, -842688, -3417777, -3124550];
    proof {
        assert(row1035@ =~= seq![0i64, -2i64, 6i64, -720i64, 11370i64, 11754i64, -89034i64, -842688i64, -3417777i64, -3124550i64]);
    }
    coeffs.push(int_poly(&row1035, c));
    let row1036: Vec<i64> = vec![0, 0, 202, 660, -6620, 80256, 400862, 2278518, 6249100, 4686825];
    proof {
        assert(row1036@ =~= seq![0i64, 0i64, 202i64, 660i64, -6620i64, 80256i64, 400862i64, 2278518i64, 6249100i64, 4686825i64]);
    }
    coeffs.push(int_poly(&row1036, c));
    let row1037: Vec<i64> = vec![0, 2, -150, 1570, 6220, -10450, -166782, -1269048, -1562275];
    proof {
        assert(row1037@ =~= seq![0i64, 2i64, -150i64, 1570i64, 6220i64, -10450i64, -166782i64, -1269048i64, -1562275i64]);
    }
    coeffs.push(int_poly(&row1037, c));
    let row1038: Vec<i64> = vec![0, 8, 210, -2020, 11660, 67914, 556094, 2302300, 2220075];
    proof {
        assert(row1038@ =~= seq![0i64, 8i64, 210i64, -2020i64, 11660i64, 67914i64, 556094i64, 2302300i64, 2220075i64]);
    }
    coeffs.push(int_poly(&row1038, c));
    let row1039: Vec<i64> = vec![0, -10, 70, 1700, -1100, -13860, -375452, -657800];
    proof {
        assert(row1039@ =~= seq![0i64, -10i64, 70i64, 1700i64, -1100i64, -13860i64, -375452i64, -657800i64]);
    }
    coeffs.push(int_poly(&row1039, c));
    let row1040: Vec<i64> = vec![0, 26, -285, 1067, 8778, 95634, 690690, 888030];
    proof {
        assert(row1040@ =~= seq![0i64, 26i64, -285i64, 1067i64, 8778i64, 95634i64, 690690i64, 888030i64]);
    }
    coeffs.push(int_poly(&row1040, c));
    let row1041: Vec<i64> = vec![0, -10, 291, -286, 3234, -85008, -230230];
    proof {
        assert(row1041@ =~= seq![0i64, -10i64, 291i64, -286i64, 3234i64, -85008i64, -230230i64]);
    }
    coeffs.push(int_poly(&row1041, c));
    let row1042: Vec<i64> = vec![1, -17, 11, 1056, 9108, 164450, 296010];
    proof {
        assert(row1042@ =~= seq![1i64, -17i64, 11i64, 1056i64, 9108i64, 164450i64, 296010i64]);
    }
    coeffs.push(int_poly(&row1042, c));
    let row1043: Vec<i64> = vec![-1, 28, -66, 1320, -13662, -65780];
    proof {
        assert(row1043@ =~= seq![-1i64, 28i64, -66i64, 1320i64, -13662i64, -65780i64]);
    }
    coeffs.push(int_poly(&row1043, c));
    let row1044: Vec<i64> = vec![0, -11, 150, -230, 29900, 80730];
    proof {
        assert(row1044@ =~= seq![0i64, -11i64, 150i64, -230i64, 29900i64, 80730i64]);
    }
    coeffs.push(int_poly(&row1044, c));
    let row1045: Vec<i64> = vec![1, -6, 198, -1288, -14950];
    proof {
        assert(row1045@ =~= seq![1i64, -6i64, 198i64, -1288i64, -14950i64]);
    }
    coeffs.push(int_poly(&row1045, c));
    let row1046: Vec<i64> = vec![-1, 18, -198, 3900, 17550];
    proof {
        assert(row1046@ =~= seq![-1i64, 18i64, -198i64, 3900i64, 17550i64]);
    }
    coeffs.push(int_poly(&row1046, c));
    let row1047: Vec<i64> = vec![0, 12, -12, -2600];
    proof {
        assert(row1047@ =~= seq![0i64, 12i64, -12i64, -2600i64]);
    }
    coeffs.push(int_poly(&row1047, c));
    let row1048: Vec<i64> = vec![1, -24, 325, 2925];
    proof {
        assert(row1048@ =~= seq![1i64, -24i64, 325i64, 2925i64]);
    }
    coeffs.push(int_poly(&row1048, c));
    let row1049: Vec<i64> = vec![0, 12, -325];
    proof {
        assert(row1049@ =~= seq![0i64, 12i64, -325i64]);
    }
    coeffs.push(int_poly(&row1049, c));
    let row1050: Vec<i64> = vec![-1, 13, 351];
    proof {
        assert(row1050@ =~= seq![-1i64, 13i64, 351i64]);
    }
    coeffs.push(int_poly(&row1050, c));
    let row1051: Vec<i64> = vec![1, -26];
    proof {
        assert(row1051@ =~= seq![1i64, -26i64]);
    }
    coeffs.push(int_poly(&row1051, c));
    let row1052: Vec<i64> = vec![0, 27];
    proof {
        assert(row1052@ =~= seq![0i64, 27i64]);
    }
    coeffs.push(int_poly(&row1052, c));
    let row1053: Vec<i64> = vec![-1];
    proof {
        assert(row1053@ =~= seq![-1i64]);
    }
    coeffs.push(int_poly(&row1053, c));
    let row1054: Vec<i64> = vec![1];
    proof {
        assert(row1054@ =~= seq![1i64]);
    }
    coeffs.push(int_poly(&row1054, c));
    proof {
        reveal(cycle_6_coeffs_hi);
        assert(coeffs@ =~= cycle_6_coeffs_hi(c));
    }
    coeffs
}

/// Build the full period-six coefficient list.
fn cycle_6_build(c: Cplx) -> (r: Vec<Cplx>)
    ensures
        r@ == cycle_6_coeffs(c),
{
    let mut coeffs = cycle_6_build_lo(c);
    let mut hi = cycle_6_build_hi(c);
    let mut i: usize = 0;
    let n: usize = hi.len();
    while i < n
        invariant
            i <= n,
            n == hi@.len(),
            hi@ == cycle_6_coeffs_hi(c),
            coeffs@ =~= cycle_6_coeffs_lo(c) + hi@.subrange(0, i as int),
        decreases n - i,
    {
        let v = hi[i];
        coeffs.push(v);
        proof {
            assert(coeffs@ =~= cycle_6_coeffs_lo(c) + hi@.subrange(0, i + 1));
        }
        i = i + 1;
    }
    proof {
        assert(hi@.subrange(0, hi@.len() as int) =~= hi@);
        assert(coeffs@ =~= cycle_6_coeffs(c));
    }
    coeffs
}

/// Coefficients (in the squared variable) of the preperiod-two points onto the four-cycle.
#[verifier::opaque]
pub open spec fn precycle_24_coeffs(c: Cplx) -> Seq<Cplx> {
    seq![
        int_poly_spec(seq![1i64, 0i64, 0i64, 2i64, 6i64, 8i64, 11i64, 18i64, 23i64, 22i64, 15i64, 6i64, 1i64], c),
        int_poly_spec(seq![0i64, -2i64, -2i64, 8i64, 15i64, 20i64, 54i64, 104i64, 135i64, 120i64, 60i64, 12i64], c),
        int_poly_spec(seq![0i64, -2i64, 5i64, 18i64, 13i64, 54i64, 186i64, 348i64, 420i64, 270i64, 66i64], c),
        int_poly_spec(seq![-1i64, 0i64, 12i64, 8i64, 12i64, 160i64, 484i64, 840i64, 720i64, 220i64], c),
        int_poly_spec(seq![0i64, 4i64, 8i64, -12i64, 55i64, 384i64, 1050i64, 1260i64, 495i64], c),
        int_poly_spec(seq![0i64, 4i64, -6i64, -12i64, 162i64, 840i64, 1512i64, 792i64], c),
        int_poly_spec(seq![1i64, 0i64, -16i64, 20i64, 420i64, 1260i64, 924i64], c),
        int_poly_spec(seq![0i64, -4i64, -12i64, 120i64, 720i64, 792i64], c),
        int_poly_spec(seq![0i64, -6i64, 15i64, 270i64, 495i64], c),
        int_poly_spec(seq![-1i64, 0i64, 60i64, 220i64], c),
        int_poly_spec(seq![0i64, 6i64, 66i64], c),
        int_poly_spec(seq![0i64, 12i64], c),
        int_poly_spec(seq![1i64], c),
    ]
}

/// Build the coefficient list of `precycle_24_coeffs` at `c`.
#[verifier::rlimit(100)]
#[verifier::spinoff_prover]
fn precycle_24_build(c: Cplx) -> (r: Vec<Cplx>)
    ensures
        r@ == precycle_24_coeffs(c),
{
    let mut coeffs: Vec<Cplx> = Vec::new();
    let row118: Vec<i64> = vec![1, 0, 0, 2, 6, 8, 11, 18, 23, 22, 15, 6, 1];
        proof {
            assert(row118@ =~= seq![1i64, 0i64, 0i64, 2i64, 6i64, 8i64, 11i64, 18i64, 23i64, 22i64, 15i64, 6i64, 1i64]);
        }
        coeffs.push(int_poly(&row118, c));
    let row119: Vec<i64> = vec![0, -2, -2, 8, 15, 20, 54, 104, 135, 120, 60, 12];
        proof {
            assert(row119@ =~= seq![0i64, -2i64, -2i64, 8i64, 15i64, 20i64, 54i64, 104i64, 135i64, 120i64, 60i64, 12i64]);
        }
        coeffs.push(int_poly(&row119, c));
    let row120: Vec<i64> = vec![0, -2, 5, 18, 13, 54, 186, 348, 420, 270, 66];
        proof {
            assert(row120@ =~= seq![0i64, -2i64, 5i64, 18i64, 13i64, 54i64, 186i64, 348i64, 420i64, 270i64, 66i64]);
        }
        coeffs.push(int_poly(&row120, c));
    let row121: Vec<i64> = vec![-1, 0, 12, 8, 12, 160, 484, 840, 720, 220];
        proof {
            assert(row121@ =~= seq![-1i64, 0i64, 12i64, 8i64, 12i64, 160i64, 484i64, 840i64, 720i64, 220i64]);
        }
        coeffs.push(int_poly(&row121, c));
    let row122: Vec<i64> = vec![0, 4, 8, -12, 55, 384, 1050, 1260, 495];
        proof {
            assert(row122@ =~= seq![0i64, 4i64, 8i64, -12i64, 55i64, 384i64, 1050i64, 1260i64, 495i64]);
        }
        coeffs.push(int_poly(&row122, c));
    let row123: Vec<i64> = vec![0, 4, -6, -12, 162, 840, 1512, 792];
        proof {
            assert(row123@ =~= seq![0i64, 4i64, -6i64, -12i64, 162i64, 840i64, 1512i64, 792i64]);
        }
        coeffs.push(int_poly(&row123, c));
    let row124: Vec<i64> = vec![1, 0, -16, 20, 420, 1260, 924];
        proof {
            assert(row124@ =~= seq![1i64, 0i64, -16i64, 20i64, 420i64, 1260i64, 924i64]);
        }
        coeffs.push(int_poly(&row124, c));
    let row125: Vec<i64> = vec![0, -4, -12, 120, 720, 792];
        proof {
            assert(row125@ =~= seq![0i64, -4i64, -12i64, 120i64, 720i64, 792i64]);
        }
        coeffs.push(int_poly(&row125, c));
    let row126: Vec<i64> = vec![0, -6, 15, 270, 495];
        proof {
            assert(row126@ =~= seq![0i64, -6i64, 15i64, 270i64, 495i64]);
        }
        coeffs.push(int_poly(&row126, c));
    let row127: Vec<i64> = vec![-1, 0, 60, 220];
        proof {
            assert(row127@ =~= seq![-1i64, 0i64, 60i64, 220i64]);
        }
        coeffs.push(int_poly(&row127, c));
    let row128: Vec<i64> = vec![0, 6, 66];
        proof {
            assert(row128@ =~= seq![0i64, 6i64, 66i64]);
        }
        coeffs.push(int_poly(&row128, c));
    let row129: Vec<i64> = vec![0, 12];
        proof {
            assert(row129@ =~= seq![0i64, 12i64]);
        }
        coeffs.push(int_poly(&row129, c));
    let row130: Vec<i64> = vec![1];
        proof {
            assert(row130@ =~= seq![1i64]);
        }
        coeffs.push(int_poly(&row130, c));
    proof {
        reveal(precycle_24_coeffs);
        assert(coeffs@ =~= precycle_24_coeffs(c));
    }
    coeffs
}

/// Coefficients (in the squared variable) of the preperiod-three points onto the four-cycle.
#[verifier::opaque]
pub open spec fn precycle_34_coeffs(c: Cplx) -> Seq<Cplx> {
    seq![
        int_poly_spec(seq![1i64, 0i64, 0i64, 0i64, 4i64, 14i64, 30i64, 56i64, 102i64, 192i64, 356i64, 626i64, 1015i64, 1494i64, 1982i64, 2336i64, 2415i64, 2166i64, 1658i64, 1062i64, 555i64, 226i64, 66i64, 12i64, 1i64], c),
        int_poly_spec(seq![0i64, 0i64, -4i64, -4i64, 8i64, 44i64, 112i64, 232i64, 504i64, 1150i64, 2536i64, 5096i64, 9096i64, 14412i64, 19984i64, 23952i64, 24624i64, 21390i64, 15408i64, 9000i64, 4080i64, 1320i64, 264i64, 24i64], c),
        int_poly_spec(seq![0i64, -2i64, -2i64, -4i64, 30i64, 128i64, 312i64, 660i64, 1655i64, 4452i64, 11176i64, 24444i64, 46830i64, 77336i64, 108528i64, 129000i64, 128151i64, 104472i64, 68580i64, 34800i64, 12540i64, 2772i64, 276i64], c),
        int_poly_spec(seq![0i64, 0i64, -8i64, 0i64, 72i64, 292i64, 600i64, 1432i64, 4400i64, 13940i64, 37944i64, 89384i64, 178704i64, 297192i64, 412560i64, 472944i64, 439488i64, 326160i64, 186360i64, 75240i64, 18480i64, 2024i64], c),
        int_poly_spec(seq![0i64, -2i64, -10i64, 18i64, 193i64, 454i64, 926i64, 2748i64, 10765i64, 37230i64, 110466i64, 273796i64, 548058i64, 899220i64, 1202340i64, 1284192i64, 1084500i64, 702270i64, 319770i64, 87780i64, 10626i64], c),
        int_poly_spec(seq![0i64, -6i64, 0i64, 72i64, 272i64, 520i64, 1296i64, 5264i64, 23520i64, 91272i64, 291392i64, 717360i64, 1411536i64, 2230200i64, 2764944i64, 2676240i64, 1977984i64, 1023264i64, 316008i64, 42504i64], c),
        int_poly_spec(seq![-1i64, 0i64, 12i64, 120i64, 236i64, 664i64, 1688i64, 9072i64, 49356i64, 218368i64, 683424i64, 1642872i64, 3117492i64, 4540536i64, 5077800i64, 4316640i64, 2558160i64, 895356i64, 134596i64], c),
        int_poly_spec(seq![0i64, 0i64, 32i64, 64i64, 384i64, 512i64, 1632i64, 15168i64, 112992i64, 476856i64, 1436160i64, 3342624i64, 5806944i64, 7572240i64, 7466400i64, 5116320i64, 2046528i64, 346104i64], c),
        int_poly_spec(seq![0i64, 4i64, 8i64, 168i64, 280i64, -156i64, 420i64, 36948i64, 240399i64, 942480i64, 2768832i64, 5853276i64, 8996130i64, 10382580i64, 8314020i64, 3837240i64, 735471i64], c),
        int_poly_spec(seq![0i64, 0i64, 40i64, 160i64, -120i64, -1900i64, 4792i64, 83496i64, 456720i64, 1767700i64, 4674384i64, 8580000i64, 11704160i64, 11085360i64, 5969040i64, 1307504i64], c),
        int_poly_spec(seq![0i64, 4i64, 60i64, -12i64, -894i64, -1844i64, 17220i64, 156024i64, 858066i64, 2954952i64, 6589440i64, 10735296i64, 12193896i64, 7759752i64, 1961256i64], c),
        int_poly_spec(seq![0i64, 12i64, 0i64, -192i64, -1216i64, 672i64, 32592i64, 306864i64, 1467648i64, 4071600i64, 8009040i64, 11085360i64, 8465184i64, 2496144i64], c),
        int_poly_spec(seq![1i64, 0i64, -16i64, -344i64, -672i64, 1260i64, 75180i64, 563472i64, 2014740i64, 4839900i64, 8314020i64, 7759752i64, 2704156i64], c),
        int_poly_spec(seq![0i64, 0i64, 0i64, -56i64, -168i64, -1680i64, 9912i64, 162288i64, 791280i64, 2350080i64, 5116320i64, 5969040i64, 2496144i64], c),
        int_poly_spec(seq![0i64, -4i64, -12i64, -600i64, -540i64, 33192i64, 243000i64, 905760i64, 2558160i64, 3837240i64, 1961256i64], c),
        int_poly_spec(seq![0i64, 0i64, -96i64, -576i64, 4320i64, 56880i64, 272544i64, 1023264i64, 2046528i64, 1307504i64], c),
        int_poly_spec(seq![0i64, -6i64, -138i64, 270i64, 9675i64, 62730i64, 319770i64, 895356i64, 735471i64], c),
        int_poly_spec(seq![0i64, -18i64, 0i64, 1080i64, 10800i64, 75240i64, 316008i64, 346104i64], c),
        int_poly_spec(seq![-1i64, 0i64, 60i64, 1360i64, 12540i64, 87780i64, 134596i64], c),
        int_poly_spec(seq![0i64, 0i64, 120i64, 1320i64, 18480i64, 42504i64], c),
        int_poly_spec(seq![0i64, 6i64, 66i64, 2772i64, 10626i64], c),
        int_poly_spec(seq![0i64, 0i64, 264i64, 2024i64], c),
        int_poly_spec(seq![0i64, 12i64, 276i64], c),
        int_poly_spec(seq![0i64, 24i64], c),
        int_poly_spec(seq![1i64], c),
    ]
}

/// Build the coefficient list of `precycle_34_coeffs` at `c`.
#[verifier::rlimit(100)]
#[verifier::spinoff_prover]
fn precycle_34_build(c: Cplx) -> (r: Vec<Cplx>)
    ensures
        r@ == precycle_34_coeffs(c),
{
    let mut coeffs: Vec<Cplx> = Vec::new();
    let row131: Vec<i64> = vec![1, 0, 0, 0, 4, 14, 30, 56, 102, 192, 356, 626, 1015, 1494, 1982, 2336, 2415, 2166, 1658, 1062, 555, 226, 66, 12, 1];
        proof {
            assert(row131@ =~= seq![1i64, 0i64, 0i64, 0i64, 4i64, 14i64, 30i64, 56i64, 102i64, 192i64, 356i64, 626i64, 1015i64, 1494i64, 1982i64, 2336i64, 2415i64, 2166i64, 1658i64, 1062i64, 555i64, 226i64, 66i64, 12i64, 1i64]);
        }
        coeffs.push(int_poly(&row131, c));
    let row132: Vec<i64> = vec![0, 0, -4, -4, 8, 44, 112, 232, 504, 1150, 2536, 5096, 9096, 14412, 19984, 23952, 24624, 21390, 15408, 9000, 4080, 1320, 264, 24];
        proof {
            assert(row132@ =~= seq![0i64, 0i64, -4i64, -4i64, 8i64, 44i64, 112i64, 232i64, 504i64, 1150i64, 2536i64, 5096i64, 9096i64, 14412i64, 19984i64, 23952i64, 24624i64, 21390i64, 15408i64, 9000i64, 4080i64, 1320i64, 264i64, 24i64]);
        }
        coeffs.push(int_poly(&row132, c));
    let row133: Vec<i64> = vec![0, -2, -2, -4, 30, 128, 312, 660, 1655, 4452, 11176, 24444, 46830, 77336, 108528, 129000, 128151, 104472, 68580, 34800, 12540, 2772, 276];
        proof {
            assert(row133@ =~= seq![0i64, -2i64, -2i64, -4i64, 30i64, 128i64, 312i64, 660i64, 1655i64, 4452i64, 11176i64, 24444i64, 46830i64, 77336i64, 108528i64, 129000i64, 128151i64, 104472i64, 68580i64, 34800i64, 12540i64, 2772i64, 276i64]);
        }
        coeffs.push(int_poly(&row133, c));
    let row134: Vec<i64> = vec![0, 0, -8, 0, 72, 292, 600, 1432, 4400, 13940, 37944, 89384, 178704, 297192, 412560, 472944, 439488, 326160, 186360, 75240, 18480, 2024];
        proof {
            assert(row134@ =~= seq![0i64, 0i64, -8i64, 0i64, 72i64, 292i64, 600i64, 1432i64, 4400i64, 13940i64, 37944i64, 89384i64, 178704i64, 297192i64, 412560i64, 472944i64, 439488i64, 326160i64, 186360i64, 75240i64, 18480i64, 2024i64]);
        }
        coeffs.push(int_poly(&row134, c));
    let row135: Vec<i64> = vec![0, -2, -10, 18, 193, 454, 926, 2748, 10765, 37230, 110466, 273796, 548058, 899220, 1202340, 1284192, 1084500, 702270, 319770, 87780, 10626];
        proof {
            assert(row135@ =~= seq![0i64, -2i64, -10i64, 18i64, 193i64, 454i64, 926i64, 2748i64, 10765i64, 37230i64, 110466i64, 273796i64, 548058i64, 899220i64, 1202340i64, 1284192i64, 1084500i64, 702270i64, 319770i64, 87780i64, 10626i64]);
        }
        coeffs.push(int_poly(&row135, c));
    let row136: Vec<i64> = vec![0, -6, 0, 72, 272, 520, 1296, 5264, 23520, 91272, 291392, 717360, 1411536, 2230200, 2764944, 2676240, 1977984, 1023264, 316008, 42504];
        proof {
            assert(row136@ =~= seq![0i64, -6i64, 0i64, 72i64, 272i64, 520i64, 1296i64, 5264i64, 23520i64, 91272i64, 291392i64, 717360i64, 1411536i64, 2230200i64, 2764944i64, 2676240i64, 1977984i64, 1023264i64, 316008i64, 42504i64]);
        }
        coeffs.push(int_poly(&row136, c));
    let row137: Vec<i64> = vec![-1, 0, 12, 120, 236, 664, 1688, 9072, 49356, 218368, 683424, 1642872, 3117492, 4540536, 5077800, 4316640, 2558160, 895356, 134596];
        proof {
            assert(row137@ =~= seq![-1i64, 0i64, 12i64, 120i64, 236i64, 664i64, 1688i64, 9072i64, 49356i64, 218368i64, 683424i64, 1642872i64, 3117492i64, 4540536i64, 5077800i64, 4316640i64, 2558160i64, 895356i64, 134596i64]);
        }
        coeffs.push(int_poly(&row137, c));
    let row138: Vec<i64> = vec![0, 0, 32, 64, 384, 512, 1632, 15168, 112992, 476856, 1436160, 3342624, 5806944, 7572240, 7466400, 5116320, 2046528, 346104];
        proof {
            assert(row138@ =~= seq![0i64, 0i64, 32i64, 64i64, 384i64, 512i64, 1632i64, 15168i64, 112992i64, 476856i64, 1436160i64, 3342624i64, 5806944i64, 7572240i64, 7466400i64, 5116320i64, 2046528i64, 346104i64]);
        }
        coeffs.push(int_poly(&row138, c));
    let row139: Vec<i64> = vec![0, 4, 8, 168, 280, -156, 420, 36948, 240399, 942480, 2768832, 5853276, 8996130, 10382580, 8314020, 3837240, 735471];
        proof {
            assert(row139@ =~= seq![0i64, 4i64, 8i64, 168i64, 280i64, -156i64, 420i64, 36948i64, 240399i64, 942480i64, 2768832i64, 5853276i64, 8996130i64, 10382580i64, 8314020i64, 3837240i64, 735471i64]);
        }
        coeffs.push(int_poly(&row139, c));
    let row140: Vec<i64> = vec![0, 0, 40, 160, -120, -1900, 4792, 83496, 456720, 1767700, 4674384, 8580000, 11704160, 11085360, 5969040, 1307504];
        proof {
            assert(row140@ =~= seq![0i64, 0i64, 40i64, 160i64, -120i64, -1900i64, 4792i64, 83496i64, 456720i64, 1767700i64, 4674384i64, 8580000i64, 11704160i64, 11085360i64, 5969040i64, 1307504i64]);
        }
        coeffs.push(int_poly(&row140, c));
    let row141: Vec<i64> = vec![0, 4, 60, -12, -894, -1844, 17220, 156024, 858066, 2954952, 6589440, 10735296, 12193896, 7759752, 1961256];
        proof {
            assert(row141@ =~= seq![0i64, 4i64, 60i64, -12i64, -894i64, -1844i64, 17220i64, 156024i64, 858066i64, 2954952i64, 6589440i64, 10735296i64, 12193896i64, 7759752i64, 1961256i64]);
        }
        coeffs.push(int_poly(&row141, c));
    let row142: Vec<i64> = vec![0, 12, 0, -192, -1216, 672, 32592, 306864, 1467648, 4071600, 8009040, 11085360, 8465184, 2496144];
        proof {
            assert(row142@ =~= seq![0i64, 12i64, 0i64, -192i64, -1216i64, 672i64, 32592i64, 306864i64, 1467648i64, 4071600i64, 8009040i64, 11085360i64, 8465184i64, 2496144i64]);
        }
        coeffs.push(int_poly(&row142, c));
    let row143: Vec<i64> = vec![1, 0, -16, -344, -672, 1260, 75180, 563472, 2014740, 4839900, 8314020, 7759752, 2704156];
        proof {
            assert(row143@ =~= seq![1i64, 0i64, -16i64, -344i64, -672i64, 1260i64, 75180i64, 563472i64, 2014740i64, 4839900i64, 8314020i64, 7759752i64, 2704156i64]);
        }
        coeffs.push(int_poly(&row143, c));
    let row144: Vec<i64> = vec![0, 0, 0, -56, -168, -1680, 9912, 162288, 791280, 2350080, 5116320, 5969040, 2496144];
        proof {
            assert(row144@ =~= seq![0i64, 0i64, 0i64, -56i64, -168i64, -1680i64, 9912i64, 162288i64, 791280i64, 2350080i64, 5116320i64, 5969040i64, 2496144i64]);
        }
        coeffs.push(int_poly(&row144, c));
    let row145: Vec<i64> = vec![0, -4, -12, -600, -540, 33192, 243000, 905760, 2558160, 3837240, 1961256];
        proof {
            assert(row145@ =~= seq![0i64, -4i64, -12i64, -600i64, -540i64, 33192i64, 243000i64, 905760i64, 2558160i64, 3837240i64, 1961256i64]);
        }
        coeffs.push(int_poly(&row145, c));
    let row146: Vec<i64> = vec![0, 0, -96, -576, 4320, 56880, 272544, 1023264, 2046528, 1307504];
        proof {
            assert(row146@ =~= seq![0i64, 0i64, -96i64, -576i64, 4320i64, 56880i64, 272544i64, 1023264i64, 2046528i64, 1307504i64]);
        }
        coeffs.push(int_poly(&row146, c));
    let row147: Vec<i64> = vec![0, -6, -138, 270, 9675, 62730, 319770, 895356, 735471];
        proof {
            assert(row147@ =~= seq![0i64, -6i64, -138i64, 270i64, 9675i64, 62730i64, 319770i64, 895356i64, 735471i64]);
        }
        coeffs.push(int_poly(&row147, c));
    let row148: Vec<i64> = vec![0, -18, 0, 1080, 10800, 75240, 316008, 346104];
        proof {
            assert(row148@ =~= seq![0i64, -18i64, 0i64, 1080i64, 10800i64, 75240i64, 316008i64, 346104i64]);
        }
        coeffs.push(int_poly(&row148, c));
    let row149: Vec<i64> = vec![-1, 0, 60, 1360, 12540, 87780, 134596];
        proof {
            assert(row149@ =~= seq![-1i64, 0i64, 60i64, 1360i64, 12540i64, 87780i64, 134596i64]);
        }
        coeffs.push(int_poly(&row149, c));
    let row150: Vec<i64> = vec![0, 0, 120, 1320, 18480, 42504];
        proof {
            assert(row150@ =~= seq![0i64, 0i64, 120i64, 1320i64, 18480i64, 42504i64]);
        }
        coeffs.push(int_poly(&row150, c));
    let row151: Vec<i64> = vec![0, 6, 66, 2772, 10626];
        proof {
            assert(row151@ =~= seq![0i64, 6i64, 66i64, 2772i64, 10626i64]);
        }
        coeffs.push(int_poly(&row151, c));
    let row152: Vec<i64> = vec![0, 0, 264, 2024];
        proof {
            assert(row152@ =~= seq![0i64, 0i64, 264i64, 2024i64]);
        }
        coeffs.push(int_poly(&row152, c));
    let row153: Vec<i64> = vec![0, 12, 276];
        proof {
            assert(row153@ =~= seq![0i64, 12i64, 276i64]);
        }
        coeffs.push(int_poly(&row153, c));
    let row154: Vec<i64> = vec![0, 24];
        proof {
            assert(row154@ =~= seq![0i64, 24i64]);
        }
        coeffs.push(int_poly(&row154, c));
    let row155: Vec<i64> = vec![1];
        proof {
            assert(row155@ =~= seq![1i64]);
        }
        coeffs.push(int_poly(&row155, c));
    proof {
        reveal(precycle_34_coeffs);
        assert(coeffs@ =~= precycle_34_coeffs(c));
    }
    coeffs
}

/// Coefficients of the stored period-three cycle polynomial at `c`.
#[verifier::opaque]
pub open spec fn cycle_3_coeffs(c: Cplx) -> Seq<Cplx> {
    seq![
        int_poly_spec(seq![1i64, 1i64, 2i64, 1i64], c),
        int_poly_spec(seq![1i64, 2i64, 1i64], c),
        int_poly_spec(seq![1i64, 3i64, 3i64], c),
        int_poly_spec(seq![1i64, 2i64], c),
        int_poly_spec(seq![1i64, 3i64], c),
        c_one(),
        c_one(),
    ]
}

/// Coefficients of the stored period-four cycle polynomial at `c`.
#[verifier::opaque]
pub open spec fn cycle_4_coeffs(c: Cplx) -> Seq<Cplx> {
    seq![
        int_poly_spec(seq![1i64, 0i64, 2i64, 3i64, 3i64, 3i64, 1i64], c),
        int_poly_spec(seq![0i64, 2i64, 1i64, 2i64, 1i64], c),
        int_poly_spec(seq![0i64, 1i64, 5i64, 6i64, 12i64, 6i64], c),
        int_poly_spec(seq![1i64, 0i64, 4i64, 4i64], c),
        int_poly_spec(seq![0i64, 4i64, 3i64, 18i64, 15i64], c),
        int_poly_spec(seq![0i64, 2i64, 6i64], c),
        int_poly_spec(seq![1i64, 0i64, 12i64, 20i64], c),
        int_poly_spec(seq![0i64, 4i64], c),
        int_poly_spec(seq![0i64, 3i64, 15i64], c),
        c_one(),
        int_poly_spec(seq![0i64, 6i64], c),
        crate::cplx::c_zero(),
        c_one(),
    ]
}

} // verus!
