//! Scenario tests of the fixed-point kernel, the grid mapper, the root
//! solver and the classifier.
use dynamo::classify::{classify_grid, classify_point, encode_escape_result};
use dynamo::cplx::Cplx;
use dynamo::escape::{EscapeState, PointInfo};
use dynamo::family::Family;
use dynamo::fix::{Fix, SCALE};
use dynamo::grid::{Bounds, PointGrid};
use dynamo::mandelbrot::Mandelbrot;
use dynamo::roots::{poly_eval, solve_polynomial};

fn fix_of(x: f64) -> Fix {
    Fix::from_raw((x * (SCALE as f64)).round() as i64)
}

fn approx(a: Fix, x: f64, tol: f64) -> bool {
    (a.raw as f64 / SCALE as f64 - x).abs() <= tol
}

fn cplx_of(re: f64, im: f64) -> Cplx {
    Cplx::new(fix_of(re), fix_of(im))
}

fn capprox(a: Cplx, re: f64, im: f64, tol: f64) -> bool {
    approx(a.re, re, tol) && approx(a.im, im, tol)
}

#[test]
fn fix_arithmetic_exact() {
    let a = Fix::from_int(3);
    let b = Fix::from_int(-7);
    assert_eq!(a.add(b).raw, -4 * SCALE);
    assert_eq!(a.mul(b).raw, -21 * SCALE);
    assert_eq!(b.abs().raw, 7 * SCALE);
    assert_eq!(Fix::from_int(10).div(Fix::from_int(4)).raw, (SCALE / 4) * 10);
    assert_eq!(Fix::from_int(9).sqrt().raw, 3 * SCALE);
}

#[test]
fn fix_log2_values() {
    assert_eq!(Fix::one().log2().raw, 0);
    assert_eq!(Fix::from_int(8).log2().raw, 3 * SCALE);
    let l = Fix::from_int(10).log2();
    assert!(approx(l, 3.321928, 1e-4), "log2(10) = {}", l.raw);
}

#[test]
fn complex_arithmetic() {
    let a = cplx_of(1.0, 2.0);
    let b = cplx_of(3.0, -1.0);
    let p = a.mul(b);
    assert!(capprox(p, 5.0, 5.0, 1e-6));
    let q = p.div(b);
    assert!(capprox(q, 1.0, 2.0, 1e-5));
    let s = cplx_of(-4.0, 0.0).sqrt();
    assert!(capprox(s, 0.0, 2.0, 1e-5));
    assert!(approx(cplx_of(3.0, 4.0).norm(), 5.0, 1e-5));
}

#[test]
fn grid_center_round_trip() {
    // The round-trip law on a concrete grid: locating the center and
    // mapping the cell back recovers the center within one cell.
    let bounds = Bounds {
        min_x: fix_of(-2.0),
        max_x: fix_of(1.0),
        min_y: fix_of(-1.5),
        max_y: fix_of(1.5),
    };
    let grid = PointGrid::new(300, 300, bounds);
    let center = grid.center();
    let (x, y) = grid.locate_point_safe(center).expect("center must lie inside");
    let back = grid.map_pixel(x, y);
    let pw = grid.pixel_width().raw as f64 / SCALE as f64;
    let ph = grid.pixel_height().raw as f64 / SCALE as f64;
    assert!((back.re.raw as f64 - center.re.raw as f64).abs() / SCALE as f64 <= pw + 1e-6);
    assert!((back.im.raw as f64 - center.im.raw as f64).abs() / SCALE as f64 <= ph + 1e-6);
}

#[test]
fn grid_resize_keeps_aspect() {
    let bounds = Bounds {
        min_x: fix_of(-2.0),
        max_x: fix_of(1.0),
        min_y: fix_of(-1.0),
        max_y: fix_of(1.0),
    };
    let mut grid = PointGrid::new_by_res_x(600, bounds);
    let before = grid.bounds.aspect_ratio();
    grid.resize_x(901);
    let after = grid.bounds.aspect_ratio();
    assert_eq!(before.raw, after.raw);
    // The paired resolution tracks the rectangle's aspect ratio.
    let ratio = grid.res_y as f64 / grid.res_x as f64;
    assert!((ratio - 2.0 / 3.0).abs() <= 1.0 / 901.0);
}

#[test]
fn solve_known_quadratic() {
    // (x - 1)(x - 2) = x^2 - 3x + 2.
    let coeffs = vec![cplx_of(2.0, 0.0), cplx_of(-3.0, 0.0), cplx_of(1.0, 0.0)];
    let roots = solve_polynomial(&coeffs);
    assert_eq!(roots.len(), 2);
    let mut found_one = false;
    let mut found_two = false;
    for r in &roots {
        if capprox(*r, 1.0, 0.0, 1e-3) {
            found_one = true;
        }
        if capprox(*r, 2.0, 0.0, 1e-3) {
            found_two = true;
        }
    }
    assert!(found_one && found_two, "roots: {:?}", roots);
    for r in &roots {
        let residual = poly_eval(&coeffs, *r).norm();
        assert!(approx(residual, 0.0, 1e-2));
    }
}

#[test]
fn mandelbrot_origin_is_superattracting_fixed_point() {
    // The parameter zero lies at the center of the main cardioid.
    let fam = Mandelbrot::default();
    let state = classify_point(&fam, cplx_of(0.0, 0.0));
    match state {
        EscapeState::Periodic { data } => {
            assert_eq!(data.period, 1);
            assert_eq!(data.preperiod, 0);
            assert!(approx(data.multiplier.norm(), 0.0, 1e-3));
        }
        other => panic!("expected a periodic classification, got {:?}", other),
    }
}

#[test]
fn mandelbrot_basilica_center_has_period_two() {
    let fam = Mandelbrot::default();
    let state = classify_point(&fam, cplx_of(-1.0, 0.0));
    match state {
        EscapeState::Periodic { data } => {
            assert_eq!(data.period, 2);
            // The cycle contains the critical point, so the derivative
            // product along it vanishes.
            assert!(approx(data.multiplier.norm(), 0.0, 1e-3));
        }
        other => panic!("expected a periodic classification, got {:?}", other),
    }
}

#[test]
fn mandelbrot_far_point_escapes() {
    let fam = Mandelbrot::default();
    let state = classify_point(&fam, cplx_of(2.5, 1.5));
    assert!(matches!(state, EscapeState::Escaping { .. }), "got {:?}", state);
}

#[test]
fn classifier_decides_every_grid_point() {
    // A small grid: every sample is decided, none is left undecided.
    let bounds = Bounds {
        min_x: fix_of(-2.0),
        max_x: fix_of(0.6),
        min_y: fix_of(-1.2),
        max_y: fix_of(1.2),
    };
    let fam = Mandelbrot::new(PointGrid::new(24, 20, bounds), 128);
    let infos = classify_grid(&fam);
    assert_eq!(infos.len(), 24 * 20);
    let mut escaping = 0usize;
    let mut interior = 0usize;
    for info in &infos {
        match info {
            PointInfo::Escaping { .. } => escaping += 1,
            PointInfo::Periodic { .. } | PointInfo::Bounded => interior += 1,
            other => panic!("unexpected classification {:?}", other),
        }
    }
    assert!(escaping > 0 && interior > 0);
}

#[test]
fn classifier_is_deterministic_on_the_grid() {
    let bounds = Bounds {
        min_x: fix_of(-2.0),
        max_x: fix_of(0.6),
        min_y: fix_of(-1.2),
        max_y: fix_of(1.2),
    };
    let fam = Mandelbrot::new(PointGrid::new(16, 12, bounds), 96);
    let a = classify_grid(&fam);
    let b = classify_grid(&fam);
    assert_eq!(a, b);
}

#[test]
fn budget_exhaustion_reports_bounded() {
    // A parameter on the boundary circle iterated with a tiny budget:
    // no escape, no cycle found, must come back Bounded.
    let bounds = Bounds {
        min_x: fix_of(-2.0),
        max_x: fix_of(1.0),
        min_y: fix_of(-1.0),
        max_y: fix_of(1.0),
    };
    let fam = Mandelbrot::new(PointGrid::new(10, 10, bounds), 3);
    // A parameter in the period-three bulb: outside both analytic
    // shortcut regions, bounded, and not yet recognizably periodic
    // after three steps.
    let state = classify_point(&fam, cplx_of(-0.12, 0.75));
    assert!(
        !matches!(state, EscapeState::NotYetEscaped),
        "the classifier may never leave a point undecided"
    );
    let info = encode_escape_result(state);
    assert!(matches!(info, PointInfo::Bounded), "got {:?}", info);
}

#[test]
fn fixed_point_cycle_query_matches_algebra() {
    // cycles_child(c, 1) returns the roots of z^2 - z + c at c = -1:
    // (1 +/- sqrt(5)) / 2.
    let fam = Mandelbrot::default();
    let c = cplx_of(-1.0, 0.0);
    let roots = fam.cycles_child(c, 1);
    assert_eq!(roots.len(), 2);
    assert!(capprox(roots[0], 1.6180339887, 0.0, 1e-4), "got {:?}", roots[0]);
    assert!(capprox(roots[1], -0.6180339887, 0.0, 1e-4), "got {:?}", roots[1]);
    // Both satisfy the defining equation within tolerance.
    for z in &roots {
        let residual = z.mul(*z).sub(*z).add(c).norm();
        assert!(approx(residual, 0.0, 1e-3));
    }
}
