//! The external-ray tracer: a multi-stage Newton continuation.
//!
//! For an external angle `theta` the tracer builds a ladder of target
//! values on concentric approximate equipotentials, each level subdivided
//! into a fixed number of sample radii, and pulls every target back by
//! Newton's method on the iterated map, seeding each solve from the
//! previous solved point. Tracing stops early once a closed-form estimate
//! of the distance to the true ray falls below a fraction of the grid's
//! pixel width; otherwise the full depth is traced and whatever was found
//! comes back — the tracer degrades to a truncated curve, it never fails.
//! No curve at all is produced only when the family's degree is
//! undefined.
use vstd::prelude::*;

use crate::cplx::{c_div, c_mul, c_norm, c_one, c_sub, Cplx};
use crate::family::Family;
use crate::fix::{f_add, f_div, f_mul, f_neg, sfx, Fix, SCALE};
use crate::grid::pixel_width_spec;
use crate::logexp::{f_log2, fx_exp2, fx_sincos, LOG2E_RAW};

verus! {

/// Levels of the equipotential ladder.
pub const RAY_DEPTH: u32 = 16;

/// Sample radii per level.
pub const RAY_SHARPNESS: u32 = 8;

/// Newton iterations per target.
pub const RAY_NEWTON_STEPS: u32 = 20;

/// `ln` of the ray's starting radius (400) on the lattice.
pub const RAY_LN_R_RAW: i64 = 100524205;

/// A full turn on the lattice.
pub const TAU_RAW: i64 = 105414358;

/// Model of the complex exponential `e^(u + i v)`.
pub open spec fn c_exp_spec(u: Fix, v: Fix) -> Cplx {
    let m = fx_exp2(crate::fix::f_mul(u, sfx(LOG2E_RAW as int)));
    let sc = fx_sincos(v);
    Cplx { re: f_mul(m, sc.1), im: f_mul(m, sc.0) }
}

/// The complex exponential `e^(u + i v)`.
pub fn cexp(u: Fix, v: Fix) -> (r: Cplx)
    ensures
        r == c_exp_spec(u, v),
{
    let m = u.mul(Fix::from_raw(LOG2E_RAW)).exp2();
    let sc = v.sincos();
    Cplx { re: m.mul(sc.1), im: m.mul(sc.0) }
}

/// Model of `n` iterations of the map from `z` with the derivative
/// product accumulated along the orbit.
#[verifier::opaque]
pub open spec fn orbit_d_spec<F: Family>(f: &F, c: Cplx, z: Cplx, n: nat) -> (Cplx, Cplx)
    decreases n,
{
    if n == 0 {
        (z, c_one())
    } else {
        let prev = orbit_d_spec(f, c, z, (n - 1) as nat);
        (f.map_spec(prev.0, c), c_mul(prev.1, f.deriv_spec(prev.0, c)))
    }
}

/// Iterate the map `n` times from `z`, accumulating the derivative
/// product along the orbit.
pub fn orbit_d<F: Family>(f: &F, c: Cplx, z: Cplx, n: u32) -> (r: (Cplx, Cplx))
    ensures
        r == orbit_d_spec(f, c, z, n as nat),
{
    let mut zk = z;
    let mut dk = Cplx::one();
    let mut i: u32 = 0;
    proof {
        reveal_with_fuel(orbit_d_spec, 1);
    }
    while i < n
        invariant
            i <= n,
            (zk, dk) == orbit_d_spec(f, c, z, i as nat),
        decreases n - i,
    {
        proof {
            reveal_with_fuel(orbit_d_spec, 2);
        }
        let step = f.map_and_multiplier(zk, c);
        dk = dk.mul(step.1);
        zk = step.0;
        i = i + 1;
    }
    (zk, dk)
}

/// Model of a fixed number of Newton steps on `z -> f^n(z) - target`,
/// followed by one more orbit evaluation at the solution.
#[verifier::opaque]
pub open spec fn newton_run_spec<F: Family>(
    f: &F,
    c: Cplx,
    z0: Cplx,
    target: Cplx,
    n: nat,
    steps: nat,
) -> (Cplx, Cplx, Cplx)
    decreases steps,
{
    if steps == 0 {
        let o = orbit_d_spec(f, c, z0, n);
        (z0, o.0, o.1)
    } else {
        let o = orbit_d_spec(f, c, z0, n);
        let z1 = c_sub(z0, c_div(c_sub(o.0, target), o.1));
        newton_run_spec(f, c, z1, target, n, (steps - 1) as nat)
    }
}

/// A fixed number of Newton steps on `z -> f^n(z) - target`; returns the
/// solution together with its image and derivative under `f^n`.
pub fn newton_run<F: Family>(f: &F, c: Cplx, z0: Cplx, target: Cplx, n: u32) -> (r: (
    Cplx,
    Cplx,
    Cplx,
))
    ensures
        r == newton_run_spec(f, c, z0, target, n as nat, RAY_NEWTON_STEPS as nat),
{
    let mut z = z0;
    let mut s: u32 = 0;
    while s < RAY_NEWTON_STEPS
        invariant
            s <= RAY_NEWTON_STEPS,
            newton_run_spec(f, c, z, target, n as nat, (RAY_NEWTON_STEPS - s) as nat)
                == newton_run_spec(f, c, z0, target, n as nat, RAY_NEWTON_STEPS as nat),
        decreases RAY_NEWTON_STEPS - s,
    {
        proof {
            reveal_with_fuel(newton_run_spec, 2);
        }
        let o = orbit_d(f, c, z, n);
        z = z.sub(o.0.sub(target).div(o.1));
        s = s + 1;
    }
    proof {
        reveal_with_fuel(newton_run_spec, 1);
    }
    let o = orbit_d(f, c, z, n);
    (z, o.0, o.1)
}

/// Model of the closed-form estimate of the distance from a traced point
/// to the true ray: `2 |z_k| log_deg |z_k| / |d_k|`, over base-two
/// logarithms.
pub open spec fn ray_dist_spec(zk: Cplx, dk: Cplx, deg_log2: Fix) -> Fix {
    let nk = c_norm(zk);
    f_div(f_mul(f_add(nk, nk), f_div(f_log2(nk), deg_log2)), c_norm(dk))
}

/// Model of one ladder level: the sample radii from `j` up, each solved
/// by Newton from the previous solution. Returns the extended curve, the
/// last solved point, and whether the stop estimate fired.
pub open spec fn ray_level_spec<F: Family>(
    f: &F,
    c: Cplx,
    n: nat,
    deg_log2: Fix,
    angle_k: Fix,
    z: Cplx,
    pts: Seq<Cplx>,
    j: nat,
    pixel_w: Fix,
) -> (Seq<Cplx>, Cplx, bool)
    decreases RAY_SHARPNESS as nat - j,
{
    if j >= RAY_SHARPNESS as nat {
        (pts, z, false)
    } else {
        let u = f_mul(
            sfx(RAY_LN_R_RAW as int),
            fx_exp2(
                f_div(f_neg(f_mul(sfx(j * SCALE as int), deg_log2)), sfx(
                    RAY_SHARPNESS as int * SCALE as int,
                )),
            ),
        );
        let target = c_exp_spec(u, angle_k);
        let sol = newton_run_spec(f, c, z, target, n, RAY_NEWTON_STEPS as nat);
        let pts1 = pts.push(sol.0);
        let dist = ray_dist_spec(sol.1, sol.2, deg_log2);
        if dist.raw < pixel_w.raw {
            (pts1, sol.0, true)
        } else {
            ray_level_spec(f, c, n, deg_log2, angle_k, sol.0, pts1, j + 1, pixel_w)
        }
    }
}

/// Model of the ladder: levels from `k` down the potential scale, each
/// pulled back by one more composition of the map; stops early when a
/// level's stop estimate fires.
pub open spec fn ray_depth_spec<F: Family>(
    f: &F,
    c: Cplx,
    deg_log2: Fix,
    angle: Fix,
    deg_fix: Fix,
    k: nat,
    deg_k: Fix,
    z: Cplx,
    pts: Seq<Cplx>,
    pixel_w: Fix,
) -> Seq<Cplx>
    decreases RAY_DEPTH as nat - k,
{
    if k >= RAY_DEPTH as nat {
        pts
    } else {
        let level = ray_level_spec(
            f,
            c,
            (k * f.escaping_period_spec()) as nat,
            deg_log2,
            f_mul(angle, deg_k),
            z,
            pts,
            0,
            pixel_w,
        );
        if level.2 {
            level.0
        } else {
            ray_depth_spec(
                f,
                c,
                deg_log2,
                angle,
                deg_fix,
                k + 1,
                f_mul(deg_k, deg_fix),
                level.1,
                level.0,
                pixel_w,
            )
        }
    }
}

/// Model of the degree of the first-return composition,
/// `degree^escaping_period`, saturated at `2^31`.
pub open spec fn deg_pow_spec(d: u32, ep: nat) -> int
    decreases ep,
{
    if ep == 0 {
        1
    } else {
        let p = deg_pow_spec(d, (ep - 1) as nat);
        if p * d > 0x8000_0000 {
            0x8000_0000
        } else {
            p * d
        }
    }
}

/// The degree of the first-return composition, saturated at `2^31`.
pub fn deg_pow(d: u32, ep: u32) -> (r: u64)
    ensures
        r as int == deg_pow_spec(d, ep as nat),
        0 <= r <= 0x8000_0000,
{
    let mut acc: u64 = 1;
    let mut i: u32 = 0;
    proof {
        lemma_deg_pow_bounds(d, 0);
    }
    while i < ep
        invariant
            i <= ep,
            acc as int == deg_pow_spec(d, i as nat),
            acc <= 0x8000_0000,
        decreases ep - i,
    {
        proof {
            lemma_deg_pow_bounds(d, (i + 1) as nat);
            assert((acc as int) * (d as int) <= 0x8000_0000int * 0xffff_ffffint)
                by (nonlinear_arith)
                requires
                    0 <= acc as int <= 0x8000_0000int,
                    0 <= d as int <= 0xffff_ffffint,
            ;
        }
        let next: u64 = acc * (d as u64);
        if next > 0x8000_0000 {
            acc = 0x8000_0000;
        } else {
            acc = next;
        }
        i = i + 1;
    }
    acc
}

proof fn lemma_deg_pow_bounds(d: u32, ep: nat)
    ensures
        0 <= deg_pow_spec(d, ep) <= 0x8000_0000,
    decreases ep,
{
    if ep > 0 {
        lemma_deg_pow_bounds(d, (ep - 1) as nat);
        let p = deg_pow_spec(d, (ep - 1) as nat);
        assert(p * d >= 0) by (nonlinear_arith)
            requires
                p >= 0,
                d >= 0,
        ;
    }
}

/// Model of the base point of a ray: the starting radius at the external
/// angle.
pub open spec fn ray_base_spec(theta: Fix) -> Cplx {
    c_exp_spec(sfx(RAY_LN_R_RAW as int), f_mul(theta, sfx(TAU_RAW as int)))
}

/// Model of the complete external ray at angle `theta` under the fixed
/// parameter `c`.
pub open spec fn external_ray_spec<F: Family>(f: &F, c: Cplx, theta: Fix) -> Seq<Cplx> {
    let angle = f_mul(theta, sfx(TAU_RAW as int));
    let base = ray_base_spec(theta);
    let deg_fix = sfx(deg_pow_spec(f.degree_spec(), f.escaping_period_spec() as nat) * SCALE as int);
    let deg_log2 = f_log2(deg_fix);
    let pixel_w = f_mul(pixel_width_spec(f.grid_spec()), sfx(3 * SCALE as int / 10));
    ray_depth_spec(
        f,
        c,
        deg_log2,
        angle,
        deg_fix,
        0,
        sfx(SCALE as int),
        base,
        seq![base],
        pixel_w,
    )
}

/// Appending levels only extends the curve: the traced prefix stays.
proof fn lemma_ray_level_extends<F: Family>(
    f: &F,
    c: Cplx,
    n: nat,
    deg_log2: Fix,
    angle_k: Fix,
    z: Cplx,
    pts: Seq<Cplx>,
    j: nat,
    pixel_w: Fix,
)
    ensures
        ({
            let out = ray_level_spec(f, c, n, deg_log2, angle_k, z, pts, j, pixel_w).0;
            out.len() >= pts.len() && (forall|i: int| 0 <= i < pts.len() ==> out[i] == pts[i])
        }),
    decreases RAY_SHARPNESS as nat - j,
{
    if j < RAY_SHARPNESS as nat {
        let u = f_mul(
            sfx(RAY_LN_R_RAW as int),
            fx_exp2(
                f_div(f_neg(f_mul(sfx(j * SCALE as int), deg_log2)), sfx(
                    RAY_SHARPNESS as int * SCALE as int,
                )),
            ),
        );
        let target = c_exp_spec(u, angle_k);
        let sol = newton_run_spec(f, c, z, target, n, RAY_NEWTON_STEPS as nat);
        let pts1 = pts.push(sol.0);
        let dist = ray_dist_spec(sol.1, sol.2, deg_log2);
        if dist.raw < pixel_w.raw {
        } else {
            lemma_ray_level_extends(f, c, n, deg_log2, angle_k, sol.0, pts1, j + 1, pixel_w);
        }
    }
}

/// The full ladder only extends the curve.
proof fn lemma_ray_depth_extends<F: Family>(
    f: &F,
    c: Cplx,
    deg_log2: Fix,
    angle: Fix,
    deg_fix: Fix,
    k: nat,
    deg_k: Fix,
    z: Cplx,
    pts: Seq<Cplx>,
    pixel_w: Fix,
)
    ensures
        ({
            let out = ray_depth_spec(f, c, deg_log2, angle, deg_fix, k, deg_k, z, pts, pixel_w);
            out.len() >= pts.len() && (forall|i: int| 0 <= i < pts.len() ==> out[i] == pts[i])
        }),
    decreases RAY_DEPTH as nat - k,
{
    if k < RAY_DEPTH as nat {
        let level = ray_level_spec(
            f,
            c,
            (k * f.escaping_period_spec()) as nat,
            deg_log2,
            f_mul(angle, deg_k),
            z,
            pts,
            0,
            pixel_w,
        );
        lemma_ray_level_extends(
            f,
            c,
            (k * f.escaping_period_spec()) as nat,
            deg_log2,
            f_mul(angle, deg_k),
            z,
            pts,
            0,
            pixel_w,
        );
        if !level.2 {
            lemma_ray_depth_extends(
                f,
                c,
                deg_log2,
                angle,
                deg_fix,
                k + 1,
                f_mul(deg_k, deg_fix),
                level.1,
                level.0,
                pixel_w,
            );
        }
    }
}

/// Trace one ladder level: solve every sample radius in turn, extending
/// the curve; reports the last solved point and whether the stop
/// estimate fired.
#[verifier::loop_isolation(false)]
fn trace_level<F: Family>(
    f: &F,
    c: Cplx,
    n_iter: u32,
    deg_log2: Fix,
    angle_k: Fix,
    z0: Cplx,
    pts: Vec<Cplx>,
    pixel_w: Fix,
) -> (r: (Vec<Cplx>, Cplx, bool))
    ensures
        ({
            let out = ray_level_spec(f, c, n_iter as nat, deg_log2, angle_k, z0, pts@, 0, pixel_w);
            r.0@ == out.0 && r.1 == out.1 && r.2 == out.2
        }),
{
    let ghost pts0 = pts@;
    let mut pts = pts;
    let mut z = z0;
    let mut j: u32 = 0;
    loop
        invariant
            j <= RAY_SHARPNESS,
            ray_level_spec(f, c, n_iter as nat, deg_log2, angle_k, z, pts@, j as nat, pixel_w)
                == ray_level_spec(f, c, n_iter as nat, deg_log2, angle_k, z0, pts0, 0, pixel_w),
        decreases RAY_SHARPNESS - j,
    {
        if j >= RAY_SHARPNESS {
            proof {
                assert(ray_level_spec(
                    f,
                    c,
                    n_iter as nat,
                    deg_log2,
                    angle_k,
                    z,
                    pts@,
                    j as nat,
                    pixel_w,
                ) == (pts@, z, false));
            }
            return (pts, z, false);
        }
        let u = Fix::from_raw(RAY_LN_R_RAW).mul(
            Fix::from_raw((j as i64) * SCALE).mul(deg_log2).neg().div(
                Fix::from_raw((RAY_SHARPNESS as i64) * SCALE),
            ).exp2(),
        );
        let target = cexp(u, angle_k);
        let sol = newton_run(f, c, z, target, n_iter);
        let ghost pts_before = pts@;
        let ghost z_before = z;
        pts.push(sol.0);
        z = sol.0;
        let nk = sol.1.norm();
        let dist = nk.add(nk).mul(nk.log2().div(deg_log2)).div(sol.2.norm());
        proof {
            assert(sol == newton_run_spec(
                f,
                c,
                z_before,
                target,
                n_iter as nat,
                RAY_NEWTON_STEPS as nat,
            ));
            assert(dist == ray_dist_spec(sol.1, sol.2, deg_log2));
        }
        if dist.raw < pixel_w.raw {
            proof {
                assert(ray_level_spec(
                    f,
                    c,
                    n_iter as nat,
                    deg_log2,
                    angle_k,
                    z_before,
                    pts_before,
                    j as nat,
                    pixel_w,
                ) == (pts@, z, true));
            }
            return (pts, z, true);
        }
        j = j + 1;
    }
}

/// Trace the external ray at angle `theta` under the fixed parameter
/// `c`: an ordered polyline from the starting circle toward the boundary
/// of the filled set. No curve comes back only when the family's degree
/// is undefined (zero); otherwise the curve is non-empty and starts at
/// the base point on the starting circle.
#[verifier::rlimit(60)]
#[verifier::loop_isolation(false)]
pub fn external_ray<F: Family>(f: &F, c: Cplx, theta: Fix) -> (r: Option<Vec<Cplx>>)
    requires
        f.grid_spec().res_x > 0,
        f.escaping_period_spec() <= 0x0800_0000,
    ensures
        (r is Some) == (f.degree_spec() != 0),
        r is Some ==> (r->Some_0)@ == external_ray_spec(f, c, theta),
        r is Some ==> (r->Some_0)@.len() >= 1 && (r->Some_0)@[0] == ray_base_spec(theta),
{
    let deg = f.degree();
    if deg == 0 {
        return None;
    }
    let ep = f.escaping_period();
    let dp: u64 = deg_pow(deg, ep);
    let deg_fix = Fix::from_raw((dp as i64) * SCALE);
    let deg_log2 = deg_fix.log2();
    let angle = theta.mul(Fix::from_raw(TAU_RAW));
    let base = cexp(Fix::from_raw(RAY_LN_R_RAW), angle);
    let grid = f.point_grid();
    let pixel_w = grid.pixel_width().mul(Fix::from_raw(3 * SCALE / 10));
    let mut pts: Vec<Cplx> = Vec::new();
    pts.push(base);
    let mut z = base;
    let mut deg_k = Fix::one();
    let mut k: u32 = 0;
    let ghost goal = external_ray_spec(f, c, theta);
    let ghost pts_start = pts@;
    proof {
        assert(pts@ =~= seq![base]);
    }
    while k < RAY_DEPTH
        invariant
            k <= RAY_DEPTH,
            f.grid_spec().res_x > 0,
            deg_fix == sfx(
                deg_pow_spec(f.degree_spec(), f.escaping_period_spec() as nat) * SCALE as int,
            ),
            deg_log2 == f_log2(deg_fix),
            angle == f_mul(theta, sfx(TAU_RAW as int)),
            pixel_w == f_mul(pixel_width_spec(f.grid_spec()), sfx(3 * SCALE as int / 10)),
            ep == f.escaping_period_spec(),
            pts@.len() >= 1,
            pts@[0] == ray_base_spec(theta),
            ray_depth_spec(f, c, deg_log2, angle, deg_fix, k as nat, deg_k, z, pts@, pixel_w)
                == goal,
        decreases RAY_DEPTH - k,
    {
        proof {
            assert((k as int) * (ep as int) <= 16int * 0x0800_0000int) by (nonlinear_arith)
                requires
                    0 <= k as int <= 16,
                    0 <= ep as int <= 0x0800_0000int,
            ;
        }
        let n_iter: u32 = k * ep;
        let angle_k = angle.mul(deg_k);
        let ghost level_pts = pts@;
        let ghost level_z = z;
        let level = trace_level(f, c, n_iter, deg_log2, angle_k, z, pts, pixel_w);
        pts = level.0;
        proof {
            assert((k * ep) as nat == (k as nat) * (f.escaping_period_spec() as nat));
            lemma_ray_level_extends(
                f,
                c,
                n_iter as nat,
                deg_log2,
                angle_k,
                level_z,
                level_pts,
                0,
                pixel_w,
            );
            let lvl = ray_level_spec(
                f,
                c,
                (k as nat) * (f.escaping_period_spec() as nat),
                deg_log2,
                f_mul(angle, deg_k),
                level_z,
                level_pts,
                0,
                pixel_w,
            );
            assert(ray_depth_spec(
                f,
                c,
                deg_log2,
                angle,
                deg_fix,
                k as nat,
                deg_k,
                level_z,
                level_pts,
                pixel_w,
            ) == if lvl.2 {
                lvl.0
            } else {
                ray_depth_spec(
                    f,
                    c,
                    deg_log2,
                    angle,
                    deg_fix,
                    (k + 1) as nat,
                    f_mul(deg_k, deg_fix),
                    lvl.1,
                    lvl.0,
                    pixel_w,
                )
            });
        }
        z = level.1;
        if level.2 {
            return Some(pts);
        }
        deg_k = deg_k.mul(deg_fix);
        k = k + 1;
    }
    Some(pts)
}


/// Model of the equipotential continuation: targets sweep one full
/// image turn on the starting circle, each pulled back through the
/// `n`-fold composition by Newton's method seeded from the previous
/// solution.
pub open spec fn equipotential_from_spec<F: Family>(
    f: &F,
    c: Cplx,
    n: nat,
    samples: u32,
    j: nat,
    z: Cplx,
    pts: Seq<Cplx>,
) -> Seq<Cplx>
    decreases samples as nat - j,
{
    if j >= samples as nat {
        pts
    } else {
        let v = f_mul(
            f_div(sfx(j * SCALE as int), sfx(samples as int * SCALE as int)),
            sfx(TAU_RAW as int),
        );
        let target = c_exp_spec(sfx(RAY_LN_R_RAW as int), v);
        let sol = newton_run_spec(f, c, z, target, n, RAY_NEWTON_STEPS as nat);
        equipotential_from_spec(f, c, n, samples, j + 1, sol.0, pts.push(sol.0))
    }
}

/// Model of the complete equipotential at ladder depth `depth`.
pub open spec fn equipotential_spec<F: Family>(
    f: &F,
    c: Cplx,
    depth: u32,
    samples: u32,
) -> Seq<Cplx> {
    equipotential_from_spec(
        f,
        c,
        (depth * f.escaping_period_spec()) as nat,
        samples,
        0,
        ray_base_spec(sfx(0)),
        Seq::empty(),
    )
}

/// Trace one fundamental sector of the equipotential at ladder depth
/// `depth`, sampled at the given count of image angles: the same Newton
/// continuation as the ray tracer, with targets at a fixed radius
/// instead of a fixed angle.
#[verifier::loop_isolation(false)]
pub fn equipotential<F: Family>(f: &F, c: Cplx, depth: u32, samples: u32) -> (r: Vec<Cplx>)
    requires
        f.escaping_period_spec() <= 0x0800_0000,
        depth <= 16,
    ensures
        r@ == equipotential_spec(f, c, depth, samples),
{
    let ep = f.escaping_period();
    proof {
        assert((depth as int) * (ep as int) <= 16int * 0x0800_0000int) by (nonlinear_arith)
            requires
                0 <= depth as int <= 16,
                0 <= ep as int <= 0x0800_0000int,
        ;
    }
    let n: u32 = depth * ep;
    let mut pts: Vec<Cplx> = Vec::new();
    let mut z = cexp(Fix::from_raw(RAY_LN_R_RAW), Fix::zero().mul(Fix::from_raw(TAU_RAW)));
    proof {
        assert(z == ray_base_spec(sfx(0)));
    }
    let mut j: u32 = 0;
    while j < samples
        invariant
            j <= samples,
            n == depth * ep,
            equipotential_from_spec(f, c, n as nat, samples, j as nat, z, pts@)
                == equipotential_spec(f, c, depth, samples),
        decreases samples - j,
    {
        let v = Fix::from_raw((j as i64) * SCALE).div(
            Fix::from_raw((samples as i64) * SCALE),
        ).mul(Fix::from_raw(TAU_RAW));
        let target = cexp(Fix::from_raw(RAY_LN_R_RAW), v);
        let sol = newton_run(f, c, z, target, n);
        z = sol.0;
        pts.push(sol.0);
        j = j + 1;
    }
    pts
}

} // verus!
