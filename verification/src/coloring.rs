//! The outcome encoder: a pure map from a classification record and a
//! palette / interior-algorithm selection to a display color.
//!
//! Colors are handed out in hue-saturation-intensity form; turning them
//! into a device color space is left to the caller. Interior points
//! choose among several algorithms; the numerically delicate smooth
//! variants split into three regimes by the cycle's multiplier norm
//! (superattracting, parabolic, generic attracting), each with its own
//! closed-form luminosity, and every luminosity passes through a
//! hyperbolic-tangent squash to stay in a bounded display range.
use vstd::prelude::*;

use crate::cplx::{c_norm, Cplx};
use crate::escape::{PointInfo, PointInfoPeriodic};
use crate::fix::{f_add, f_div, f_mul, f_neg, f_sub, sfx, Fix, SCALE};
use crate::logexp::{f_log2, fx_atan2, fx_tanh, PI_RAW};

verus! {

/// A color in hue-saturation-intensity form; hue wraps modulo one.
#[derive(Clone, Copy, Debug, PartialEq, Eq, Structural)]
pub struct Hsv {
    pub hue: Fix,
    pub saturation: Fix,
    pub intensity: Fix,
}

/// A cyclic palette for discrete classes (periods): class `k` lands at
/// hue `base_hue + k / num_colors`, wrapped into `[0, 1)`.
#[derive(Clone, Copy, Debug, PartialEq, Eq, Structural)]
pub struct DiscretePalette {
    pub num_colors: Fix,
    pub base_hue: Fix,
    pub saturation: Fix,
}

/// The fractional part of a value: the hue wrap.
pub open spec fn fx_fract(a: Fix) -> Fix {
    sfx(a.raw as int % SCALE as int)
}

/// The fractional part, used to wrap hues into `[0, 1)`.
pub fn fract(a: Fix) -> (r: Fix)
    ensures
        r == fx_fract(a),
{
    let q: i64 = crate::logexp::ediv_i64(a.raw, SCALE);
    proof {
        vstd::arithmetic::div_mod::lemma_fundamental_div_mod(a.raw as int, SCALE as int);
    }
    Fix::from_raw(a.raw - q * SCALE)
}

/// Model of the discrete palette map.
pub open spec fn map_hsv_spec(p: DiscretePalette, hue: Fix, luminosity: Fix) -> Hsv {
    Hsv {
        hue: fx_fract(f_add(p.base_hue, f_div(hue, p.num_colors))),
        saturation: p.saturation,
        intensity: luminosity,
    }
}

impl DiscretePalette {
    /// The color of class `hue` at the given luminosity.
    pub fn map_hsv(&self, hue: Fix, luminosity: Fix) -> (r: Hsv)
        ensures
            r == map_hsv_spec(*self, hue, luminosity),
    {
        Hsv {
            hue: fract(self.base_hue.add(hue.div(self.num_colors))),
            saturation: self.saturation,
            intensity: luminosity,
        }
    }

    /// The customary palette: eight classes around the circle.
    pub fn standard() -> (r: DiscretePalette)
        ensures
            r == (DiscretePalette {
                num_colors: sfx(8 * SCALE as int),
                base_hue: sfx(0),
                saturation: sfx(SCALE as int),
            }),
    {
        DiscretePalette {
            num_colors: Fix::from_int(8),
            base_hue: Fix::zero(),
            saturation: Fix::one(),
        }
    }
}

/// A palette selection: the continuous escape coloring's period and
/// phase, the discrete palette for interior periods, and fixed colors
/// for the bounded and wandering classes.
#[derive(Clone, Copy, Debug, PartialEq, Eq, Structural)]
pub struct ColorPalette {
    pub color_period: Fix,
    pub color_phase: Fix,
    pub period_coloring: DiscretePalette,
    pub in_color: Hsv,
    pub wandering_color: Hsv,
}

impl ColorPalette {
    /// A plain default palette: unit escape period, zero phase, black
    /// interior, gray wandering color.
    pub fn standard() -> (r: ColorPalette)
        ensures
            r.period_coloring == (DiscretePalette {
                num_colors: sfx(8 * SCALE as int),
                base_hue: sfx(0),
                saturation: sfx(SCALE as int),
            }),
            r.color_period == sfx(SCALE as int),
            r.color_phase == sfx(0),
            r.in_color == (Hsv { hue: sfx(0), saturation: sfx(0), intensity: sfx(0) }),
            r.wandering_color == (Hsv {
                hue: sfx(0),
                saturation: sfx(0),
                intensity: sfx(SCALE as int / 2),
            }),
    {
        ColorPalette {
            color_period: Fix::one(),
            color_phase: Fix::zero(),
            period_coloring: DiscretePalette::standard(),
            in_color: Hsv { hue: Fix::zero(), saturation: Fix::zero(), intensity: Fix::zero() },
            wandering_color: Hsv {
                hue: Fix::zero(),
                saturation: Fix::zero(),
                intensity: Fix::from_raw(SCALE / 2),
            },
        }
    }

    /// Model of the continuous escape coloring: hue is the potential
    /// modulo the palette period, shifted by the phase.
    pub fn map_escaping(&self, potential: Fix) -> (r: Hsv)
        ensures
            r == map_escaping_spec(*self, potential),
    {
        Hsv {
            hue: fract(potential.div(self.color_period).add(self.color_phase)),
            saturation: Fix::one(),
            intensity: Fix::one(),
        }
    }
}

/// Model of the continuous escape coloring.
pub open spec fn map_escaping_spec(p: ColorPalette, potential: Fix) -> Hsv {
    Hsv {
        hue: fx_fract(f_add(f_div(potential, p.color_period), p.color_phase)),
        saturation: sfx(SCALE as int),
        intensity: sfx(SCALE as int),
    }
}

/// The interior coloring algorithms: how a periodic point's data turns
/// into a hue and a luminosity.
#[derive(Clone, Copy, Debug, PartialEq, Eq, Structural)]
pub enum ColoringAlgorithm {
    PeriodMultiplier,
    Period,
    Solid,
    PreperiodSmooth { periodicity_tolerance: Fix },
    Preperiod,
    Multiplier,
}

/// The band around norm one within which a cycle counts as parabolic
/// (about `1e-5` on either side).
pub const PARABOLIC_TOL_RAW: i64 = 168;

/// Luminosity fade rate `-log2 |multiplier| / 40` of an attracting
/// cycle, or a fixed large rate for a superattracting one. The lattice
/// cannot hold `1e-10`, so a vanishing norm plays the superattracting
/// case.
pub open spec fn multiplier_coloring_rate_spec(multiplier: Cplx) -> Fix {
    let scaling_rate = c_norm(multiplier);
    if scaling_rate.raw > 0 {
        f_div(f_neg(f_log2(scaling_rate)), sfx(40 * SCALE as int))
    } else {
        sfx(10 * SCALE as int)
    }
}

/// Luminosity fade rate of a cycle from its multiplier.
pub fn multiplier_coloring_rate(multiplier: Cplx) -> (r: Fix)
    ensures
        r == multiplier_coloring_rate_spec(multiplier),
{
    let scaling_rate = multiplier.norm();
    if scaling_rate.raw > 0 {
        scaling_rate.log2().neg().div(Fix::from_int(40))
    } else {
        Fix::from_int(10)
    }
}

/// Model of the luminosity of the smooth preperiod coloring, split into
/// the superattracting, parabolic and generic attracting regimes.
pub open spec fn smooth_luminosity_spec(
    tol: Fix,
    hue: Fix,
    preperiod: u32,
    multiplier: Cplx,
    final_error: Fix,
) -> Fix {
    let mult_norm = c_norm(multiplier);
    let err_sqr = f_mul(final_error, final_error);
    let pre = sfx(preperiod as int * SCALE as int);
    if mult_norm.raw == 0 {
        let w = f_add(
            f_log2(f_div(f_log2(err_sqr), f_log2(tol))),
            f_log2(f_div(f_log2(err_sqr), f_log2(tol))),
        );
        let v = f_sub(pre, f_mul(hue, w));
        fx_tanh(f_div(f_mul(v, sfx(SCALE as int / 10)), hue))
    } else if SCALE - PARABOLIC_TOL_RAW <= mult_norm.raw && mult_norm.raw <= SCALE
        + PARABOLIC_TOL_RAW {
        let w = f_div(err_sqr, tol);
        let v = f_sub(pre, f_mul(hue, w));
        fx_tanh(f_div(f_mul(v, sfx(SCALE as int / 10)), hue))
    } else {
        let rate = multiplier_coloring_rate_spec(multiplier);
        let w0 = f_neg(f_div(f_log2(f_div(err_sqr, tol)), f_log2(mult_norm)));
        let w = if w0.raw as int == crate::fix::SAT_RAW as int || w0.raw as int == -(
        crate::fix::SAT_RAW as int) {
            sfx(-(SCALE as int / 5))
        } else {
            w0
        };
        let v = f_add(pre, f_mul(hue, w));
        fx_tanh(f_div(f_mul(v, rate), hue))
    }
}

/// The luminosity of the smooth preperiod coloring.
pub fn smooth_luminosity(
    tol: Fix,
    hue: Fix,
    preperiod: u32,
    multiplier: Cplx,
    final_error: Fix,
) -> (r: Fix)
    ensures
        r == smooth_luminosity_spec(tol, hue, preperiod, multiplier, final_error),
{
    let mult_norm = multiplier.norm();
    let err_sqr = final_error.mul(final_error);
    let pre = Fix::from_raw((preperiod as i64) * SCALE);
    let tenth = Fix::from_raw(SCALE / 10);
    if mult_norm.raw == 0 {
        let inner = err_sqr.log2().div(tol.log2()).log2();
        let w = inner.add(inner);
        let v = pre.sub(hue.mul(w));
        v.mul(tenth).div(hue).tanh()
    } else if SCALE - PARABOLIC_TOL_RAW <= mult_norm.raw && mult_norm.raw <= SCALE
        + PARABOLIC_TOL_RAW {
        let w = err_sqr.div(tol);
        let v = pre.sub(hue.mul(w));
        v.mul(tenth).div(hue).tanh()
    } else {
        let rate = multiplier_coloring_rate(multiplier);
        let w0 = err_sqr.div(tol).log2().div(mult_norm.log2()).neg();
        let w = if w0.is_huge() {
            Fix::from_raw(-(SCALE / 5))
        } else {
            w0
        };
        let v = pre.add(hue.mul(w));
        v.mul(rate).div(hue).tanh()
    }
}

/// Model of the hue and luminosity a periodic record receives.
pub open spec fn encode_periodic_spec(alg: ColoringAlgorithm, data: PointInfoPeriodic) -> (
    Fix,
    Fix,
) {
    let hue = sfx(data.period as int * SCALE as int);
    match alg {
        ColoringAlgorithm::Solid => (sfx(0), sfx(0)),
        ColoringAlgorithm::Period => (hue, sfx(SCALE as int)),
        ColoringAlgorithm::PeriodMultiplier => (hue, c_norm(data.multiplier)),
        ColoringAlgorithm::Preperiod => (
            hue,
            fx_tanh(
                f_div(
                    f_mul(sfx(data.preperiod as int * SCALE as int), sfx(SCALE as int / 50)),
                    hue,
                ),
            ),
        ),
        ColoringAlgorithm::PreperiodSmooth { periodicity_tolerance } => (
            hue,
            smooth_luminosity_spec(
                periodicity_tolerance,
                hue,
                data.preperiod,
                data.multiplier,
                data.final_error,
            ),
        ),
        ColoringAlgorithm::Multiplier => (
            f_add(
                f_div(fx_atan2(data.multiplier.im, data.multiplier.re), sfx(2 * PI_RAW as int)),
                sfx(SCALE as int / 2),
            ),
            c_norm(data.multiplier),
        ),
    }
}

impl ColoringAlgorithm {
    /// The hue and luminosity a periodic record receives under this
    /// algorithm.
    pub fn encode_periodic(&self, data: &PointInfoPeriodic) -> (r: (Fix, Fix))
        ensures
            r == encode_periodic_spec(*self, *data),
    {
        let hue = Fix::from_raw((data.period as i64) * SCALE);
        match self {
            ColoringAlgorithm::Solid => (Fix::zero(), Fix::zero()),
            ColoringAlgorithm::Period => (hue, Fix::one()),
            ColoringAlgorithm::PeriodMultiplier => (hue, data.multiplier.norm()),
            ColoringAlgorithm::Preperiod => {
                let v = Fix::from_raw((data.preperiod as i64) * SCALE);
                let rate = Fix::from_raw(SCALE / 50);
                (hue, v.mul(rate).div(hue).tanh())
            },
            ColoringAlgorithm::PreperiodSmooth { periodicity_tolerance } => {
                let lum = smooth_luminosity(
                    *periodicity_tolerance,
                    hue,
                    data.preperiod,
                    data.multiplier,
                    data.final_error,
                );
                (hue, lum)
            },
            ColoringAlgorithm::Multiplier => {
                let h = Fix::atan2(data.multiplier.im, data.multiplier.re).div(
                    Fix::from_raw(2 * PI_RAW),
                ).add(Fix::from_raw(SCALE / 2));
                (h, data.multiplier.norm())
            },
        }
    }

    /// The color of a periodic record under this algorithm and palette.
    pub fn color_periodic(&self, palette: &ColorPalette, data: &PointInfoPeriodic) -> (r: Hsv)
        ensures
            r == color_periodic_spec(*self, *palette, *data),
    {
        match self {
            ColoringAlgorithm::Solid => Hsv {
                hue: Fix::zero(),
                saturation: Fix::zero(),
                intensity: Fix::zero(),
            },
            ColoringAlgorithm::Multiplier => {
                let hl = self.encode_periodic(data);
                Hsv { hue: hl.0, saturation: Fix::one(), intensity: hl.1 }
            },
            _ => {
                let hl = self.encode_periodic(data);
                palette.period_coloring.map_hsv(hl.0, hl.1)
            },
        }
    }
}

/// Model of the color a periodic record receives: the solid algorithm is
/// black, the multiplier algorithm colors by the multiplier's argument
/// directly, the rest map hue and luminosity through the discrete
/// palette.
pub open spec fn color_periodic_spec(
    alg: ColoringAlgorithm,
    palette: ColorPalette,
    data: PointInfoPeriodic,
) -> Hsv {
    match alg {
        ColoringAlgorithm::Solid => Hsv { hue: sfx(0), saturation: sfx(0), intensity: sfx(0) },
        ColoringAlgorithm::Multiplier => Hsv {
            hue: encode_periodic_spec(alg, data).0,
            saturation: sfx(SCALE as int),
            intensity: encode_periodic_spec(alg, data).1,
        },
        _ => map_hsv_spec(
            palette.period_coloring,
            encode_periodic_spec(alg, data).0,
            encode_periodic_spec(alg, data).1,
        ),
    }
}

/// The full coloring selection: one interior algorithm and one palette.
#[derive(Clone, Copy, Debug, PartialEq, Eq, Structural)]
pub struct Coloring {
    algorithm: ColoringAlgorithm,
    palette: ColorPalette,
}

/// Model of the color of one classified sample.
pub open spec fn map_point_spec(c: Coloring, info: PointInfo) -> Hsv {
    match info {
        PointInfo::Escaping { potential } => map_escaping_spec(c.palette_spec(), potential),
        PointInfo::Periodic { data } => color_periodic_spec(c.algorithm_spec(), c.palette_spec(), data),
        PointInfo::PeriodicKnownPotential { data, potential } => color_periodic_spec(
            c.algorithm_spec(),
            c.palette_spec(),
            data,
        ),
        PointInfo::Bounded => c.palette_spec().in_color,
        PointInfo::Wandering => c.palette_spec().wandering_color,
        PointInfo::MarkedPoint { class_id, num_point_classes } => Hsv {
            hue: fx_fract(
                f_div(
                    sfx(class_id as int * SCALE as int),
                    sfx(num_point_classes as int * SCALE as int),
                ),
            ),
            saturation: sfx((4 * SCALE as int) / 5),
            intensity: sfx(SCALE as int),
        },
    }
}

impl Coloring {
    /// The view of the selected palette.
    pub closed spec fn palette_spec(&self) -> ColorPalette {
        self.palette
    }

    /// The view of the selected interior algorithm.
    pub closed spec fn algorithm_spec(&self) -> ColoringAlgorithm {
        self.algorithm
    }

    /// Pair an interior algorithm with a palette.
    pub fn new(algorithm: ColoringAlgorithm, palette: ColorPalette) -> (r: Coloring)
        ensures
            r.algorithm_spec() == algorithm,
            r.palette_spec() == palette,
    {
        Coloring { algorithm, palette }
    }

    /// The color of one classified sample: exterior points run through
    /// the continuous palette, interior points through the selected
    /// algorithm, marked classes partition the hue circle evenly.
    pub fn map_point(&self, info: &PointInfo) -> (r: Hsv)
        ensures
            r == map_point_spec(*self, *info),
    {
        match info {
            PointInfo::Escaping { potential } => self.palette.map_escaping(*potential),
            PointInfo::Periodic { data } => self.algorithm.color_periodic(&self.palette, data),
            PointInfo::PeriodicKnownPotential { data, potential } => self.algorithm.color_periodic(
                &self.palette,
                data,
            ),
            PointInfo::Bounded => self.palette.in_color,
            PointInfo::Wandering => self.palette.wandering_color,
            PointInfo::MarkedPoint { class_id, num_point_classes } => {
                let hue = fract(
                    Fix::from_raw((*class_id as i64) * SCALE).div(
                        Fix::from_raw((*num_point_classes as i64) * SCALE),
                    ),
                );
                Hsv {
                    hue,
                    saturation: Fix::from_raw((4 * SCALE) / 5),
                    intensity: Fix::one(),
                }
            },
        }
    }

    /// Adopt a palette that an outside loader may have failed to
    /// produce: the in-memory palette is replaced only on success, a
    /// failed load leaves it untouched.
    pub fn adopt_palette(&mut self, loaded: Option<ColorPalette>)
        ensures
            final(self).algorithm_spec() == old(self).algorithm_spec(),
            match loaded {
                Option::Some(p) => final(self).palette_spec() == p,
                Option::None => final(self).palette_spec() == old(self).palette_spec(),
            },
    {
        match loaded {
            Option::Some(p) => {
                self.palette = p;
            },
            Option::None => {},
        }
    }

    /// Replace the palette.
    pub fn set_palette(&mut self, palette: ColorPalette)
        ensures
            final(self).palette_spec() == palette,
            final(self).algorithm_spec() == old(self).algorithm_spec(),
    {
        self.palette = palette;
    }

    /// The selected palette.
    pub fn get_palette(&self) -> (r: &ColorPalette)
        ensures
            *r == self.palette_spec(),
    {
        &self.palette
    }

    /// The discrete palette used for interior periods.
    pub fn get_period_coloring(&self) -> (r: &DiscretePalette)
        ensures
            *r == self.palette_spec().period_coloring,
    {
        &self.palette.period_coloring
    }

    /// The selected interior algorithm.
    pub fn get_algorithm(&self) -> (r: &ColoringAlgorithm)
        ensures
            *r == self.algorithm_spec(),
    {
        &self.algorithm
    }

    /// The selected interior algorithm, for editing in place.
    pub fn get_algorithm_mut(&mut self) -> (r: &mut ColoringAlgorithm)
        ensures
            *r == old(self).algorithm_spec(),
            final(self).algorithm_spec() == *final(r),
            final(self).palette_spec() == old(self).palette_spec(),
    {
        &mut self.algorithm
    }

    /// Replace the interior algorithm.
    pub fn set_interior_algorithm(&mut self, algorithm: ColoringAlgorithm)
        ensures
            final(self).algorithm_spec() == algorithm,
            final(self).palette_spec() == old(self).palette_spec(),
    {
        self.algorithm = algorithm;
    }
}

} // verus!
