//! Scenario tests of the transcendental kernels, the coloring encoder,
//! the derived families and the curve tracers.
use dynamo::chebyshev::{Chebyshev, ChebyshevCoeffTable};
use dynamo::classify::classify_point;
use dynamo::coloring::{Coloring, ColorPalette, ColoringAlgorithm};
use dynamo::cover::{cover_apply, CoverKind};
use dynamo::cplx::Cplx;
use dynamo::escape::{EscapeState, PointInfo, PointInfoPeriodic};
use dynamo::family::Family;
use dynamo::fix::{Fix, SCALE};
use dynamo::grid::PointGrid;
use dynamo::julia::JuliaSet;
use dynamo::mandelbrot::Mandelbrot;
use dynamo::quad_rat_per_4::QuadRatPer4;
use dynamo::ray::equipotential;

fn fix_of(x: f64) -> Fix {
    Fix::from_raw((x * (SCALE as f64)).round() as i64)
}

fn val(a: Fix) -> f64 {
    a.raw as f64 / SCALE as f64
}

fn approx(a: Fix, x: f64, tol: f64) -> bool {
    (val(a) - x).abs() <= tol
}

fn cplx_of(re: f64, im: f64) -> Cplx {
    Cplx::new(fix_of(re), fix_of(im))
}

fn capprox(a: Cplx, re: f64, im: f64, tol: f64) -> bool {
    approx(a.re, re, tol) && approx(a.im, im, tol)
}

#[test]
fn exp2_and_tanh_values() {
    assert!(approx(Fix::zero().exp2(), 1.0, 1e-4));
    assert!(approx(Fix::from_int(3).exp2(), 8.0, 1e-3));
    assert!(approx(Fix::from_int(-2).exp2(), 0.25, 1e-4));
    assert!(approx(Fix::zero().tanh(), 0.0, 1e-4));
    assert!(approx(Fix::one().tanh(), 0.7615941, 1e-3));
    assert!(approx(Fix::from_int(-20).tanh(), -1.0, 1e-3));
}

#[test]
fn sincos_and_atan2_values() {
    let pi = std::f64::consts::PI;
    let (s, c) = fix_of(pi / 6.0).sincos();
    assert!(approx(s, 0.5, 1e-4), "sin(pi/6) = {}", val(s));
    assert!(approx(c, 0.8660254, 1e-4), "cos(pi/6) = {}", val(c));
    let (s2, c2) = fix_of(pi).sincos();
    assert!(approx(s2, 0.0, 1e-4));
    assert!(approx(c2, -1.0, 1e-4));
    let a = Fix::atan2(Fix::one(), Fix::one());
    assert!(approx(a, pi / 4.0, 1e-3), "atan2(1,1) = {}", val(a));
    let b = Fix::atan2(Fix::one(), Fix::from_int(-1));
    assert!(approx(b, 3.0 * pi / 4.0, 1e-3), "atan2(1,-1) = {}", val(b));
}

#[test]
fn coloring_encoder_variants() {
    let data = PointInfoPeriodic {
        value: cplx_of(0.1, 0.0),
        period: 3,
        preperiod: 5,
        multiplier: cplx_of(0.5, 0.0),
        final_error: fix_of(0.001),
    };
    let (h0, l0) = ColoringAlgorithm::Solid.encode_periodic(&data);
    assert_eq!(h0.raw, 0);
    assert_eq!(l0.raw, 0);
    let (h1, l1) = ColoringAlgorithm::Period.encode_periodic(&data);
    assert!(approx(h1, 3.0, 1e-6));
    assert!(approx(l1, 1.0, 1e-6));
    let (h2, l2) = ColoringAlgorithm::PeriodMultiplier.encode_periodic(&data);
    assert!(approx(h2, 3.0, 1e-6));
    assert!(approx(l2, 0.5, 1e-3));
    // A positive real multiplier has argument zero: the hue sits at the
    // half turn.
    let (h3, _l3) = ColoringAlgorithm::Multiplier.encode_periodic(&data);
    assert!(approx(h3, 0.5, 1e-3));
    // The smooth variant stays within the squashed range.
    let alg = ColoringAlgorithm::PreperiodSmooth { periodicity_tolerance: fix_of(1e-4) };
    let (_h4, l4) = alg.encode_periodic(&data);
    assert!(val(l4) <= 1.0 && val(l4) >= -1.0);
}

#[test]
fn coloring_selection_and_marked_points() {
    let mut coloring = Coloring::new(ColoringAlgorithm::Period, ColorPalette::standard());
    assert!(matches!(coloring.get_algorithm(), ColoringAlgorithm::Period));
    coloring.set_interior_algorithm(ColoringAlgorithm::Solid);
    assert!(matches!(coloring.get_algorithm(), ColoringAlgorithm::Solid));
    let bounded = coloring.map_point(&PointInfo::Bounded);
    assert_eq!(bounded.intensity.raw, 0);
    let marked = coloring.map_point(
        &PointInfo::MarkedPoint { class_id: 1, num_point_classes: 4 },
    );
    assert!(approx(marked.hue, 0.25, 1e-4));
    let palette = *coloring.get_palette();
    coloring.adopt_palette(None);
    assert_eq!(*coloring.get_palette(), palette);
}

#[test]
fn palette_failed_load_preserves_state() {
    // A loader that fails hands back nothing; the palette must survive.
    let mut coloring = Coloring::new(ColoringAlgorithm::Period, ColorPalette::standard());
    let before = *coloring.get_palette();
    coloring.adopt_palette(None);
    assert_eq!(*coloring.get_palette(), before);
    // A successful load replaces it.
    let mut other = ColorPalette::standard();
    other.color_phase = fix_of(0.25);
    coloring.adopt_palette(Some(other));
    assert_eq!(coloring.get_palette().color_phase, fix_of(0.25));
}

#[test]
fn chebyshev_table_recurrence() {
    let mut table = ChebyshevCoeffTable::new(4);
    let row2 = table.coefficients(2);
    assert_eq!(row2, vec![-1, 2]);
    let row3 = table.coefficients(3);
    assert_eq!(row3, vec![-3, 4]);
    let row4 = table.coefficients(4);
    assert_eq!(row4, vec![1, -8, 8]);
    let row6 = table.coefficients(6);
    assert_eq!(row6, vec![-1, 18, -48, 32]);
}

#[test]
fn chebyshev_family_map_value() {
    let grid = PointGrid::new(16, 16, Mandelbrot::standard_bounds());
    let cheb = Chebyshev::with_degree(1, grid, 64);
    // Half-degree one flips the sign of T_2, so the map is
    // c * (1 - z^2 / 2); at z = 2, c = 1 it lands on -1.
    let r = cheb.map(cplx_of(2.0, 0.0), cplx_of(1.0, 0.0));
    assert!(capprox(r, -1.0, 0.0, 1e-4), "got {:?}", r);
    let (f, df) = cheb.map_and_multiplier(cplx_of(2.0, 0.0), cplx_of(1.0, 0.0));
    assert!(capprox(f, -1.0, 0.0, 1e-4));
    // The derivative of c (1 - z^2/2) is -c z.
    assert!(capprox(df, -2.0, 0.0, 1e-3), "got {:?}", df);
}

#[test]
fn quad_rat_parameter_chart_and_cycles() {
    let fam = QuadRatPer4::new(PointGrid::new(16, 16, QuadRatPer4::standard_bounds()), 64);
    let c = fam.param_map(cplx_of(-2.0, 0.0));
    assert!(capprox(c, 2.118034, 0.0, 1e-4), "got {:?}", c);
    // Fixed points satisfy f(z) = z.
    let roots = fam.cycles_child(c, 1);
    assert_eq!(roots.len(), 3);
    for z in &roots {
        let fz = fam.map(*z, c);
        let residual = fz.sub(*z).norm();
        assert!(approx(residual, 0.0, 2e-2), "residual {}", val(residual));
    }
    // The known period-four cycle members close the period-four list.
    let four = fam.cycles_child(c, 4);
    let n = four.len();
    assert!(n >= 3);
    assert!(capprox(four[n - 3], 1.0, 0.0, 1e-6));
    assert!(capprox(four[n - 2], val(c.re), val(c.im), 1e-6));
    assert!(capprox(four[n - 1], 0.0, 0.0, 1e-6));
}

#[test]
fn julia_plane_fixes_the_parameter() {
    let parent = Mandelbrot::default();
    let julia = JuliaSet::new(parent, cplx_of(-1.0, 0.0), 256);
    assert!(capprox(julia.local_param, -1.0, 0.0, 1e-6));
    // The origin lies on the superattracting two-cycle of the basilica.
    let state = classify_point(&julia, cplx_of(0.0, 0.0));
    match state {
        EscapeState::Periodic { data } => {
            assert_eq!(data.period, 2);
            assert!(approx(data.multiplier.norm(), 0.0, 1e-3));
        }
        other => panic!("expected a periodic classification, got {:?}", other),
    }
    // Far points of the dynamical plane escape.
    let state2 = classify_point(&julia, cplx_of(2.1, 0.0));
    assert!(matches!(state2, EscapeState::Escaping { .. }), "got {:?}", state2);
}

#[test]
fn external_ray_at_angle_zero() {
    // The zero ray of the Julia set of the squaring map follows the
    // positive real axis from the starting circle in toward the unit
    // circle: non-empty, starts at radius 400 on the real axis, and the
    // moduli decrease monotonically toward the boundary.
    let parent = Mandelbrot::default();
    let julia = JuliaSet::new(parent, cplx_of(0.0, 0.0), 256);
    let ray = julia.external_ray(Fix::zero()).expect("the degree is defined");
    assert!(ray.len() > 1);
    assert!(capprox(ray[0], 400.0, 0.0, 0.1), "base {:?}", ray[0]);
    // The traced prefix approaches the unit circle monotonically; the
    // deepest Newton solves may saturate and degrade to a truncated
    // tail, exactly as the continuation contract allows.
    let moduli: Vec<f64> = ray.iter().map(|z| val(z.norm())).collect();
    let mut prefix = 1usize;
    while prefix < moduli.len() && moduli[prefix] <= moduli[prefix - 1] + 1e-3
        && moduli[prefix] >= 0.99
    {
        prefix += 1;
    }
    assert!(prefix >= 8, "the traced prefix is substantial: {:?}", &moduli[..prefix]);
    assert!(
        moduli[prefix - 1] <= 1.1,
        "the ray approaches the unit circle, reaching {}",
        moduli[prefix - 1]
    );
    for z in ray.iter().take(prefix) {
        assert!(val(z.im.abs()) <= 1e-2, "the zero ray stays on the real axis");
    }
}

#[test]
fn equipotential_of_squaring_map() {
    // One pull-back of the starting circle under the squaring map is the
    // circle of radius twenty.
    let parent = Mandelbrot::default();
    let julia = JuliaSet::new(parent, cplx_of(0.0, 0.0), 256);
    let curve = equipotential(&julia, julia.local_param, 1, 16);
    assert_eq!(curve.len(), 16);
    for z in &curve {
        let m = val(z.norm());
        assert!((m - 20.0).abs() <= 0.5, "expected modulus near twenty, got {}", m);
    }
}

#[test]
fn covering_map_reparameterizes_the_plane() {
    // Under the fixed-point multiplier chart the origin lands on the
    // cusp parameter 1/4; a small multiplier lands deep inside the
    // cardioid and classifies as an attracting fixed point.
    let (g, dg) = cover_apply(&CoverKind::MarkedCycleOne, cplx_of(0.1, 0.0));
    assert!(capprox(g, 0.24, 0.0, 1e-4));
    assert!(capprox(dg, -0.2, 0.0, 1e-4));
    let base = Mandelbrot::default();
    let cover = base.marked_cycle_curve(1);
    let state = classify_point(&cover, cplx_of(0.1, 0.0));
    match state {
        EscapeState::Periodic { data } => assert_eq!(data.period, 1),
        other => panic!("expected a periodic classification, got {:?}", other),
    }
}

#[test]
fn dynatomic_and_misiurewicz_covers_apply() {
    // The period-two dynatomic chart at t = 3 gives c = 9 * 2 / 9 - 3 = -1.
    let (g, _dg) = cover_apply(&CoverKind::DynatomicTwo, cplx_of(3.0, 0.0));
    assert!(capprox(g, -1.0, 0.0, 1e-4), "got {:?}", g);
    // The Misiurewicz chart of preperiod two onto the fixed point sends
    // t = 0 to c = 2... at t = 0: u = -1, value = -2 * 1 * 1 = -2.
    let (m, _dm) = cover_apply(&CoverKind::MisiurewiczTwoOne, cplx_of(0.0, 0.0));
    assert!(capprox(m, -2.0, 0.0, 1e-4), "got {:?}", m);
    let base = Mandelbrot::default();
    let dyn2 = base.dynatomic_curve(2);
    let state = classify_point(&dyn2, cplx_of(3.0, 0.0));
    match state {
        EscapeState::Periodic { data } => assert_eq!(data.period, 2),
        other => panic!("expected a periodic classification, got {:?}", other),
    }
}

#[test]
fn mandelbrot_parameter_cycle_centers() {
    let fam = Mandelbrot::default();
    let ones = fam.cycles(1);
    assert_eq!(ones.len(), 1);
    assert!(capprox(ones[0], 0.0, 0.0, 1e-6));
    let twos = fam.cycles(2);
    assert_eq!(twos.len(), 1);
    assert!(capprox(twos[0], -1.0, 0.0, 1e-6));
    // The period-three centers solve c^3 + 2 c^2 + c + 1 = 0; one is
    // real near -1.7549.
    let threes = fam.cycles(3);
    assert_eq!(threes.len(), 3);
    let mut found_real = false;
    for z in &threes {
        if capprox(*z, -1.7548776, 0.0, 1e-2) {
            found_real = true;
        }
    }
    assert!(found_real, "centers: {:?}", threes);
}

#[test]
fn mandelbrot_preperiodic_points() {
    // At c = 0 the preperiod-two points onto the fixed cycle are the
    // square roots of -1 and of... the four points with z^2 in {1, -1}
    // excluding earlier classes: the stored class gives the four
    // preimages of the two fixed-point preimages.
    let fam = Mandelbrot::default();
    let schema = dynamo::escape::OrbitSchema { preperiod: 2, period: 1 };
    let pts = fam.precycles_child(cplx_of(0.0, 0.0), schema);
    assert_eq!(pts.len(), 4);
    for z in &pts {
        // Two steps later the orbit must be fixed: f(f(z)) = f(f(f(z))).
        let c = cplx_of(0.0, 0.0);
        let z2 = fam.map(fam.map(*z, c), c);
        let z3 = fam.map(z2, c);
        let residual = z3.sub(z2).norm();
        assert!(approx(residual, 0.0, 1e-2), "residual {}", val(residual));
    }
}

#[test]
fn mandelbrot_high_period_tables_have_full_degree() {
    // The stored cycle polynomials have degrees thirty and fifty-four,
    // and the solver returns one root per degree.
    let fam = Mandelbrot::default();
    let c = cplx_of(0.1, 0.1);
    assert_eq!(fam.cycles_child(c, 5).len(), 30);
    assert_eq!(fam.cycles_child(c, 6).len(), 54);
    assert_eq!(fam.cycles_child(c, 7).len(), 0);
    // Each stored preperiodic class doubles its root count through the
    // square-root preimages.
    let s24 = dynamo::escape::OrbitSchema { preperiod: 2, period: 4 };
    assert_eq!(fam.precycles_child(c, s24).len(), 24);
    let s34 = dynamo::escape::OrbitSchema { preperiod: 3, period: 4 };
    assert_eq!(fam.precycles_child(c, s34).len(), 48);
}

#[test]
fn cover_substitution_derivatives() {
    // Each substitution's second component is the derivative of its
    // first, checked by a central difference at a generic point.
    let kinds = [
        CoverKind::MarkedCycleOne,
        CoverKind::MarkedCycleThree,
        CoverKind::MarkedCycleFour,
        CoverKind::DynatomicTwo,
        CoverKind::DynatomicThree,
        CoverKind::MisiurewiczTwoOne,
        CoverKind::MisiurewiczTwoTwo,
    ];
    let h = 1.0 / 256.0;
    let t0 = cplx_of(1.3, 0.4);
    for kind in &kinds {
        let (_v, d) = cover_apply(kind, t0);
        let (vp, _) = cover_apply(kind, cplx_of(1.3 + h, 0.4));
        let (vm, _) = cover_apply(kind, cplx_of(1.3 - h, 0.4));
        let num_re = (val(vp.re) - val(vm.re)) / (2.0 * h);
        let num_im = (val(vp.im) - val(vm.im)) / (2.0 * h);
        assert!(
            (val(d.re) - num_re).abs() <= 0.05 && (val(d.im) - num_im).abs() <= 0.05,
            "{:?}: derivative ({}, {}) against difference ({}, {})",
            kind,
            val(d.re),
            val(d.im),
            num_re,
            num_im
        );
    }
    // The two arms with simple closed forms, at the unit point: the
    // four-cycle chart has derivative -t/2 + 1/t^2, the period-two
    // dynatomic chart -9 (t - 2) / t^3.
    let (_v4, d4) = cover_apply(&CoverKind::MarkedCycleFour, cplx_of(1.0, 0.0));
    assert!(capprox(d4, 0.5, 0.0, 1e-4), "got {:?}", d4);
    let (_v2, d2) = cover_apply(&CoverKind::DynatomicTwo, cplx_of(1.0, 0.0));
    assert!(capprox(d2, 9.0, 0.0, 1e-3), "got {:?}", d2);
}

#[test]
fn unsupported_misiurewicz_class_keeps_the_rectangle() {
    let base = Mandelbrot::default();
    let bounds_before = base.point_grid.bounds;
    let cover = base.misiurewicz_curve(5, 5);
    assert!(matches!(cover.kind, CoverKind::Identity));
    assert_eq!(cover.point_grid.bounds, bounds_before);
}

#[test]
fn period_three_points_of_the_squaring_map_are_roots_of_unity() {
    // At c = 0 the exact period-three points solve
    // 1 + z + ... + z^6 = 0: the six nontrivial seventh roots of unity.
    let fam = Mandelbrot::default();
    let pts = fam.cycles_child(cplx_of(0.0, 0.0), 3);
    assert_eq!(pts.len(), 6);
    for z in &pts {
        assert!(approx(z.norm(), 1.0, 1e-3), "modulus {:?}", z);
        let z2 = z.mul(*z);
        let z4 = z2.mul(z2);
        let z7 = z4.mul(z2).mul(*z);
        assert!(capprox(z7, 1.0, 0.0, 1e-2), "seventh power {:?}", z7);
    }
}
