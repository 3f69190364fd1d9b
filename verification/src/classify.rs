//! The escape-time / periodicity classifier.
//!
//! For every sample point the orbit of the family's map is iterated under
//! a fixed parameter. Escape is tested first each step (it takes priority
//! over periodicity, which is numerically unreliable near the escape
//! boundary); then the orbit is compared against a checkpoint that is
//! refreshed at geometrically doubling intervals, so any cycle is found
//! at most a constant factor after it is entered. A saturated value (the
//! stand-in for an IEEE infinity or NaN) escapes immediately with maximal
//! potential. An exhausted budget reports `Bounded`, never
//! `NotYetEscaped`.
use vstd::prelude::*;

use crate::cplx::{c_huge, c_mul, c_norm_sqr, c_one, c_sub, Cplx};
use crate::escape::{EscapeState, PointInfo, PointInfoPeriodic};
use crate::family::Family;
use crate::fix::{f_div, f_sqrt, f_sub, sfx, Fix, SAT_RAW, SCALE};
use crate::grid::{map_pixel_spec, PointGrid, RES_MAX};
use crate::logexp::f_log2;

verus! {

/// Model of the renormalized iteration count of an escaping orbit:
/// `n - log_deg(log |z|^2 / log R^2)`, computed over base-two logarithms.
pub open spec fn escape_potential_spec(n: int, nsq: Fix, rsqr: Fix, deg: u32) -> Fix {
    let lz = f_log2(nsq);
    let lr = f_log2(rsqr);
    let lratio = f_log2(f_div(lz, lr));
    let ldeg = f_log2(sfx(deg as int * SCALE));
    f_sub(sfx(n * SCALE), f_div(lratio, ldeg))
}

/// The renormalized iteration count of an escaping orbit.
pub fn escape_potential(n: u32, nsq: Fix, rsqr: Fix, deg: u32) -> (r: Fix)
    ensures
        r == escape_potential_spec(n as int, nsq, rsqr, deg),
{
    let lz = nsq.log2();
    let lr = rsqr.log2();
    let lratio = lz.div(lr).log2();
    let ldeg = Fix::from_raw((deg as i64) * crate::fix::SCALE).log2();
    Fix::from_raw((n as i64) * crate::fix::SCALE).sub(lratio.div(ldeg))
}

/// Model of the classifier from an arbitrary orbit state: current point
/// `z`, checkpoint `w` taken `k` steps ago and refreshed every `cap`
/// steps, derivative product `d` since the checkpoint, step count `n`,
/// and `fuel` steps left in the budget.
pub open spec fn classify_from<F: Family>(
    f: &F,
    c: Cplx,
    z: Cplx,
    w: Cplx,
    k: u32,
    cap: u32,
    d: Cplx,
    n: u32,
    fuel: nat,
) -> EscapeState
    decreases fuel,
{
    if c_huge(z) {
        EscapeState::Escaping { potential: sfx(SAT_RAW as int) }
    } else if n >= f.min_iter_spec() && c_norm_sqr(z).raw > f.escape_radius_sqr_spec().raw {
        EscapeState::Escaping {
            potential: escape_potential_spec(
                n as int,
                c_norm_sqr(z),
                f.escape_radius_sqr_spec(),
                f.degree_spec(),
            ),
        }
    } else if k >= 1 && c_norm_sqr(c_sub(z, w)).raw <= f.periodicity_tol_sqr_spec().raw {
        EscapeState::Periodic {
            data: PointInfoPeriodic {
                value: z,
                period: k,
                preperiod: (n - k) as u32,
                multiplier: d,
                final_error: f_sqrt(c_norm_sqr(c_sub(z, w))),
            },
        }
    } else if fuel == 0 {
        EscapeState::Bounded
    } else {
        let z1 = f.map_spec(z, c);
        let d1 = c_mul(d, f.deriv_spec(z, c));
        if k + 1 >= cap {
            classify_from(
                f,
                c,
                z1,
                z1,
                0u32,
                if cap <= 0x2000_0000u32 {
                    (2 * cap) as u32
                } else {
                    cap
                },
                c_one(),
                (n + 1) as u32,
                (fuel - 1) as nat,
            )
        } else {
            classify_from(f, c, z1, w, (k + 1) as u32, cap, d1, (n + 1) as u32, (fuel - 1) as nat)
        }
    }
}

/// Model of classifying one starting point: the analytic shortcut is
/// adopted when it gives a decision, else the orbit is iterated.
pub open spec fn classify_start_spec<F: Family>(f: &F, z0: Cplx, c: Cplx) -> EscapeState {
    match f.early_spec(z0, c) {
        EscapeState::NotYetEscaped => classify_from(
            f,
            c,
            z0,
            z0,
            0u32,
            2u32,
            c_one(),
            0u32,
            f.max_iter_spec() as nat,
        ),
        s => s,
    }
}

/// Model of classifying one sampled plane point: translate it to the
/// family's parameter, take the starting iterate, classify.
pub open spec fn classify_point_spec<F: Family>(f: &F, point: Cplx) -> EscapeState {
    let c = f.param_map_spec(point);
    let z0 = f.start_point_spec(point, c);
    classify_start_spec(f, z0, c)
}

/// Classify the orbit of `z0` under the parameter `c`.
pub fn classify_orbit<F: Family>(f: &F, z0: Cplx, c: Cplx) -> (r: EscapeState)
    ensures
        r == classify_from(f, c, z0, z0, 0u32, 2u32, c_one(), 0u32, f.max_iter_spec() as nat),
{
    let max_iter = f.max_iter();
    let min_iter = f.min_iter();
    let rsqr = f.escape_radius_sqr();
    let tolsqr = f.periodicity_tol_sqr();
    let deg = f.degree();
    let mut z = z0;
    let mut w = z0;
    let mut k: u32 = 0;
    let mut cap: u32 = 2;
    let mut d = Cplx::one();
    let mut n: u32 = 0;
    loop
        invariant
            max_iter == f.max_iter_spec(),
            min_iter == f.min_iter_spec(),
            rsqr == f.escape_radius_sqr_spec(),
            tolsqr == f.periodicity_tol_sqr_spec(),
            deg == f.degree_spec(),
            n <= max_iter,
            k <= n,
            1 <= cap <= 0x4000_0000u32,
            k < cap,
            classify_from(f, c, z, w, k, cap, d, n, (max_iter - n) as nat) == classify_from(
                f,
                c,
                z0,
                z0,
                0u32,
                2u32,
                c_one(),
                0u32,
                f.max_iter_spec() as nat,
            ),
        decreases max_iter - n,
    {
        if z.is_huge() {
            return EscapeState::Escaping { potential: Fix::from_raw(SAT_RAW) };
        }
        let nsq = z.norm_sqr();
        if n >= min_iter && nsq.raw > rsqr.raw {
            return EscapeState::Escaping { potential: escape_potential(n, nsq, rsqr, deg) };
        }
        if k >= 1 {
            let err = z.sub(w).norm_sqr();
            if err.raw <= tolsqr.raw {
                return EscapeState::Periodic {
                    data: PointInfoPeriodic {
                        value: z,
                        period: k,
                        preperiod: n - k,
                        multiplier: d,
                        final_error: err.sqrt(),
                    },
                };
            }
        }
        if n == max_iter {
            return EscapeState::Bounded;
        }
        let step = f.map_and_multiplier(z, c);
        let z1 = step.0;
        let d1 = d.mul(step.1);
        if k + 1 >= cap {
            z = z1;
            w = z1;
            k = 0;
            cap = if cap <= 0x2000_0000 {
                2 * cap
            } else {
                cap
            };
            d = Cplx::one();
        } else {
            z = z1;
            k = k + 1;
            d = d1;
        }
        n = n + 1;
    }
}

/// Classify one sampled plane point of the family's plane.
pub fn classify_point<F: Family>(f: &F, point: Cplx) -> (r: EscapeState)
    ensures
        r == classify_point_spec(f, point),
{
    let c = f.param_map(point);
    let z0 = f.start_point(point, c);
    let early = f.early_bailout(z0, c);
    match early {
        EscapeState::NotYetEscaped => classify_orbit(f, z0, c),
        s => s,
    }
}

/// Model of turning a classifier outcome into a rendering-facing record.
/// An undecided outcome is absorbed as `Bounded`; the classifier never
/// produces one, but the encoder is total.
pub open spec fn encode_spec(state: EscapeState) -> PointInfo {
    match state {
        EscapeState::NotYetEscaped => PointInfo::Bounded,
        EscapeState::Escaping { potential } => PointInfo::Escaping { potential },
        EscapeState::Periodic { data } => PointInfo::Periodic { data },
        EscapeState::Bounded => PointInfo::Bounded,
        EscapeState::Wandering => PointInfo::Wandering,
    }
}

/// Turn a classifier outcome into a rendering-facing record.
pub fn encode_escape_result(state: EscapeState) -> (r: PointInfo)
    ensures
        r == encode_spec(state),
{
    match state {
        EscapeState::NotYetEscaped => PointInfo::Bounded,
        EscapeState::Escaping { potential } => PointInfo::Escaping { potential },
        EscapeState::Periodic { data } => PointInfo::Periodic { data },
        EscapeState::Bounded => PointInfo::Bounded,
        EscapeState::Wandering => PointInfo::Wandering,
    }
}

/// Model of the full-grid classification: one record per lattice sample,
/// row-major.
pub open spec fn grid_classify_seq<F: Family>(f: &F) -> Seq<PointInfo> {
    let g = f.grid_spec();
    Seq::new(
        (g.res_x * g.res_y) as nat,
        |i: int|
            encode_spec(
                classify_point_spec(
                    f,
                    map_pixel_spec(g, i % (g.res_x as int), i / (g.res_x as int)),
                ),
            ),
    )
}

/// Classify every lattice sample of the family's grid, row-major.
pub fn classify_grid<F: Family>(f: &F) -> (r: Vec<PointInfo>)
    requires
        0 < f.grid_spec().res_x <= RES_MAX,
        0 < f.grid_spec().res_y <= RES_MAX,
        f.grid_spec().res_x * f.grid_spec().res_y <= usize::MAX,
    ensures
        r@ == grid_classify_seq(f),
{
    let g: PointGrid = *f.point_grid();
    let total: usize = g.res_x * g.res_y;
    let mut out: Vec<PointInfo> = Vec::new();
    let mut i: usize = 0;
    while i < total
        invariant
            total == g.res_x * g.res_y,
            g == f.grid_spec(),
            0 < g.res_x <= RES_MAX,
            0 < g.res_y <= RES_MAX,
            i <= total,
            out@.len() == i,
            forall|j: int|
                0 <= j < i ==> out@[j] == grid_classify_seq(f)[j],
        decreases total - i,
    {
        let x: usize = i % g.res_x;
        let y: usize = i / g.res_x;
        proof {
            assert(x as int == (i as int) % (g.res_x as int));
            assert(y as int == (i as int) / (g.res_x as int));
        }
        let z = g.map_pixel(x, y);
        let state = classify_point(f, z);
        let info = encode_escape_result(state);
        out.push(info);
        i = i + 1;
    }
    proof {
        assert(out@ =~= grid_classify_seq(f));
    }
    out
}

/// The classifier always decides: whatever the orbit state, the outcome
/// is never `NotYetEscaped`. In particular a point still undecided when
/// the budget runs out is reported `Bounded`.
pub proof fn lemma_classifier_decides<F: Family>(
    f: &F,
    c: Cplx,
    z: Cplx,
    w: Cplx,
    k: u32,
    cap: u32,
    d: Cplx,
    n: u32,
    fuel: nat,
)
    ensures
        !(classify_from(f, c, z, w, k, cap, d, n, fuel) is NotYetEscaped),
    decreases fuel,
{
    if !c_huge(z) && !(n >= f.min_iter_spec() && c_norm_sqr(z).raw > f.escape_radius_sqr_spec().raw)
        && !(k >= 1 && c_norm_sqr(c_sub(z, w)).raw <= f.periodicity_tol_sqr_spec().raw) && fuel
        != 0 {
        let z1 = f.map_spec(z, c);
        let d1 = c_mul(d, f.deriv_spec(z, c));
        if k + 1 >= cap {
            lemma_classifier_decides(
                f,
                c,
                z1,
                z1,
                0u32,
                if cap <= 0x2000_0000u32 {
                    (2 * cap) as u32
                } else {
                    cap
                },
                c_one(),
                (n + 1) as u32,
                (fuel - 1) as nat,
            );
        } else {
            lemma_classifier_decides(
                f,
                c,
                z1,
                w,
                (k + 1) as u32,
                cap,
                d1,
                (n + 1) as u32,
                (fuel - 1) as nat,
            );
        }
    }
}

/// A sampled point is always decided, whatever the family's shortcut
/// reports: the classification of a point is never `NotYetEscaped`.
pub proof fn lemma_point_decided<F: Family>(f: &F, point: Cplx)
    ensures
        !(classify_point_spec(f, point) is NotYetEscaped),
{
    let c = f.param_map_spec(point);
    let z0 = f.start_point_spec(point, c);
    if f.early_spec(z0, c) is NotYetEscaped {
        lemma_classifier_decides(f, c, z0, z0, 0u32, 2u32, c_one(), 0u32, f.max_iter_spec() as nat);
    }
}

/// Determinism law of the grid classifier: two full-grid classifications
/// of an unmodified family instance are identical, record for record.
pub proof fn lemma_classify_grid_deterministic<F: Family>(
    f: &F,
    first: Seq<PointInfo>,
    second: Seq<PointInfo>,
)
    requires
        first == grid_classify_seq(f),
        second == grid_classify_seq(f),
    ensures
        first == second,
{
}

} // verus!
