//! Polynomial root extraction over the fixed-point complex numbers.
//!
//! `solve_polynomial` runs the Durand-Kerner simultaneous iteration: all
//! roots are refined together, each against the product of its distances
//! to the others. The iteration count is fixed, so the whole solver is a
//! deterministic function of the coefficient list, pinned to a spec-level
//! model: the same input always reproduces the same roots. Convergence
//! itself is a numerical property, exercised by the test suite on
//! polynomials with known roots.
use vstd::prelude::*;

use crate::cplx::{c_add, c_div, c_mul, c_one, c_sub, c_zero, Cplx};
use crate::fix::{sfx, Fix};

verus! {

/// Number of simultaneous-iteration sweeps the solver performs.
pub const DK_SWEEPS: u32 = 64;

/// Model of Horner evaluation: `coeffs[0] + z * (coeffs[1] + z * ...)`,
/// coefficients in ascending degree.
pub open spec fn poly_eval_spec(coeffs: Seq<Cplx>, z: Cplx) -> Cplx
    decreases coeffs.len(),
{
    if coeffs.len() == 0 {
        c_zero()
    } else {
        c_add(coeffs[0], c_mul(z, poly_eval_spec(coeffs.subrange(1, coeffs.len() as int), z)))
    }
}

/// Evaluate a polynomial given by ascending coefficients.
pub fn poly_eval(coeffs: &Vec<Cplx>, z: Cplx) -> (r: Cplx)
    ensures
        r == poly_eval_spec(coeffs@, z),
{
    let mut acc = Cplx::zero();
    let mut k: usize = coeffs.len();
    while k > 0
        invariant
            k <= coeffs.len(),
            acc == poly_eval_spec(coeffs@.subrange(k as int, coeffs@.len() as int), z),
        decreases k,
    {
        acc = acc.mul(z).add(coeffs[k - 1]);
        proof {
            let tail = coeffs@.subrange(k - 1, coeffs@.len() as int);
            assert(tail[0] == coeffs@[k - 1]);
            assert(tail.subrange(1, tail.len() as int) =~= coeffs@.subrange(
                k as int,
                coeffs@.len() as int,
            ));
        }
        k = k - 1;
    }
    proof {
        assert(coeffs@.subrange(0, coeffs@.len() as int) =~= coeffs@);
    }
    acc
}

/// Model of the product of distances of `ws[i]` to every other current
/// root estimate, times the leading coefficient.
pub open spec fn dk_denom_spec(lead: Cplx, ws: Seq<Cplx>, i: int, j: nat) -> Cplx
    decreases ws.len() - j,
{
    if j >= ws.len() {
        lead
    } else if j == i {
        dk_denom_spec(lead, ws, i, j + 1)
    } else {
        c_mul(c_sub(ws[i], ws[j as int]), dk_denom_spec(lead, ws, i, j + 1))
    }
}

/// Model of one Durand-Kerner update of the `i`-th estimate.
pub open spec fn dk_step_spec(coeffs: Seq<Cplx>, lead: Cplx, ws: Seq<Cplx>, i: int) -> Cplx {
    let wi = ws[i];
    c_sub(wi, c_div(poly_eval_spec(coeffs, wi), dk_denom_spec(lead, ws, i, 0)))
}

/// Model of one sweep updating estimates `i..` in place, left to right.
pub open spec fn dk_sweep_spec(coeffs: Seq<Cplx>, lead: Cplx, ws: Seq<Cplx>, i: nat) -> Seq<Cplx>
    decreases ws.len() - i,
{
    if i >= ws.len() {
        ws
    } else {
        let wi = dk_step_spec(coeffs, lead, ws, i as int);
        dk_sweep_spec(coeffs, lead, ws.update(i as int, wi), i + 1)
    }
}

/// Model of the fixed number of sweeps.
pub open spec fn dk_run_spec(coeffs: Seq<Cplx>, lead: Cplx, ws: Seq<Cplx>, sweeps: nat) -> Seq<
    Cplx,
>
    decreases sweeps,
{
    if sweeps == 0 {
        ws
    } else {
        dk_run_spec(coeffs, lead, dk_sweep_spec(coeffs, lead, ws, 0), (sweeps - 1) as nat)
    }
}

/// Model of the standard starting estimates: powers of `0.4 + 0.9i`.
pub open spec fn dk_seed_spec(n: nat) -> Seq<Cplx>
    decreases n,
{
    if n == 0 {
        Seq::empty()
    } else {
        dk_seed_spec((n - 1) as nat).push(
            if n == 1 {
                dk_seed_base()
            } else {
                c_mul(dk_seed_spec((n - 1) as nat).last(), dk_seed_base())
            },
        )
    }
}

/// The seed ratio `0.4 + 0.9i`, which is neither real nor on the unit
/// circle, so distinct powers stay distinct.
pub open spec fn dk_seed_base() -> Cplx {
    Cplx { re: sfx(6710886), im: sfx(15099494) }
}

proof fn lemma_dk_seed_len(n: nat)
    ensures
        dk_seed_spec(n).len() == n,
    decreases n,
{
    if n > 0 {
        lemma_dk_seed_len((n - 1) as nat);
    }
}

proof fn lemma_dk_sweep_len(coeffs: Seq<Cplx>, lead: Cplx, ws: Seq<Cplx>, i: nat)
    ensures
        dk_sweep_spec(coeffs, lead, ws, i).len() == ws.len(),
    decreases ws.len() - i,
{
    if i < ws.len() {
        lemma_dk_sweep_len(
            coeffs,
            lead,
            ws.update(i as int, dk_step_spec(coeffs, lead, ws, i as int)),
            i + 1,
        );
    }
}

proof fn lemma_dk_run_len(coeffs: Seq<Cplx>, lead: Cplx, ws: Seq<Cplx>, sweeps: nat)
    ensures
        dk_run_spec(coeffs, lead, ws, sweeps).len() == ws.len(),
    decreases sweeps,
{
    if sweeps > 0 {
        lemma_dk_sweep_len(coeffs, lead, ws, 0);
        lemma_dk_run_len(coeffs, lead, dk_sweep_spec(coeffs, lead, ws, 0), (sweeps - 1) as nat);
    }
}

/// Model of trimming zero leading coefficients (the highest-degree end
/// of the ascending list).
pub open spec fn trim_spec(coeffs: Seq<Cplx>) -> Seq<Cplx>
    decreases coeffs.len(),
{
    if coeffs.len() == 0 {
        coeffs
    } else if coeffs.last().re.raw == 0 && coeffs.last().im.raw == 0 {
        trim_spec(coeffs.drop_last())
    } else {
        coeffs
    }
}

/// Model of the complete solver: trim, seed one estimate per root, run
/// the fixed number of sweeps. A constant or empty polynomial has no
/// roots.
pub open spec fn solve_polynomial_spec(coeffs: Seq<Cplx>) -> Seq<Cplx> {
    let t = trim_spec(coeffs);
    if t.len() <= 1 {
        Seq::empty()
    } else {
        dk_run_spec(
            t,
            t.last(),
            dk_seed_spec((t.len() - 1) as nat),
            DK_SWEEPS as nat,
        )
    }
}

/// All complex roots of the polynomial with the given ascending
/// coefficients, by simultaneous Durand-Kerner iteration; the order of
/// the returned roots is unspecified but reproducible. A constant or
/// empty coefficient list gives no roots.
pub fn solve_polynomial(coeffs: &Vec<Cplx>) -> (r: Vec<Cplx>)
    ensures
        r@ == solve_polynomial_spec(coeffs@),
        coeffs@.len() >= 1 ==> r@.len() <= coeffs@.len() - 1,
{
    let mut t: Vec<Cplx> = Vec::new();
    let mut n: usize = 0;
    while n < coeffs.len()
        invariant
            n <= coeffs.len(),
            t@ =~= coeffs@.subrange(0, n as int),
        decreases coeffs.len() - n,
    {
        let v = coeffs[n];
        t.push(v);
        n = n + 1;
    }
    proof {
        assert(t@ =~= coeffs@);
    }
    while t.len() > 0 && t[t.len() - 1].re.raw == 0 && t[t.len() - 1].im.raw == 0
        invariant
            trim_spec(t@) == trim_spec(coeffs@),
        decreases t.len(),
    {
        proof {
            assert(t@.drop_last() =~= t@.subrange(0, t@.len() - 1));
        }
        let _ = t.pop();
    }
    proof {
        assert(trim_spec(t@) == t@);
    }
    if t.len() <= 1 {
        let empty: Vec<Cplx> = Vec::new();
        proof {
            assert(solve_polynomial_spec(coeffs@) =~= Seq::<Cplx>::empty());
        }
        return empty;
    }
    let lead = t[t.len() - 1];
    let deg: usize = t.len() - 1;
    let base = Cplx::new(Fix::from_raw(6710886), Fix::from_raw(15099494));
    let mut ws: Vec<Cplx> = Vec::new();
    let mut i: usize = 0;
    while i < deg
        invariant
            i <= deg,
            ws@ =~= dk_seed_spec(i as nat),
            base == dk_seed_base(),
        decreases deg - i,
    {
        proof {
            lemma_dk_seed_len(i as nat);
            lemma_dk_seed_len((i + 1) as nat);
        }
        if i == 0 {
            ws.push(base);
        } else {
            let prev = ws[i - 1];
            ws.push(prev.mul(base));
        }
        i = i + 1;
    }
    proof {
        lemma_dk_seed_len(deg as nat);
        lemma_trim_len(coeffs@);
        assert(ws@ == dk_seed_spec((t@.len() - 1) as nat));
        assert(dk_run_spec(t@, lead, ws@, DK_SWEEPS as nat) == solve_polynomial_spec(coeffs@));
    }
    let mut sweep: u32 = 0;
    while sweep < DK_SWEEPS
        invariant
            sweep <= DK_SWEEPS,
            ws@.len() == deg,
            deg + 1 == t@.len(),
            lead == t@.last(),
            trim_spec(t@) == t@,
            dk_run_spec(t@, lead, ws@, (DK_SWEEPS - sweep) as nat) == solve_polynomial_spec(
                coeffs@,
            ),
        decreases DK_SWEEPS - sweep,
    {
        let mut i: usize = 0;
        let ghost ws0 = ws@;
        while i < ws.len()
            invariant
                i <= ws@.len(),
                ws@.len() == deg,
                deg + 1 == t@.len(),
                lead == t@.last(),
                dk_sweep_spec(t@, lead, ws@, i as nat) == dk_sweep_spec(t@, lead, ws0, 0),
            decreases ws@.len() - i,
        {
            let wi = ws[i];
            let pv = poly_eval(&t, wi);
            let mut denom = lead;
            let mut j: usize = ws.len();
            while j > 0
                invariant
                    j <= ws@.len(),
                    i < ws@.len(),
                    denom == dk_denom_spec(lead, ws@, i as int, j as nat),
                    wi == ws@[i as int],
                decreases j,
            {
                if j - 1 != i {
                    let wj = ws[j - 1];
                    denom = wi.sub(wj).mul(denom);
                }
                j = j - 1;
            }
            let wnew = wi.sub(pv.div(denom));
            proof {
                assert(wnew == dk_step_spec(t@, lead, ws@, i as int));
            }
            ws.set(i, wnew);
            i = i + 1;
        }
        proof {
            assert(ws@ == dk_sweep_spec(t@, lead, ws0, 0)) by {
                assert(dk_sweep_spec(t@, lead, ws@, ws@.len() as nat) == ws@);
            };
        }
        sweep = sweep + 1;
    }
    proof {
        assert(dk_run_spec(t@, lead, ws@, 0) == ws@);
        lemma_trim_len(coeffs@);
    }
    ws
}

/// Trimming never lengthens the coefficient list.
proof fn lemma_trim_len(coeffs: Seq<Cplx>)
    ensures
        trim_spec(coeffs).len() <= coeffs.len(),
    decreases coeffs.len(),
{
    if coeffs.len() > 0 && coeffs.last().re.raw == 0 && coeffs.last().im.raw == 0 {
        lemma_trim_len(coeffs.drop_last());
    }
}

/// Model of evaluating a polynomial with integer coefficients at a
/// complex argument (ascending degree, Horner form); the coefficients
/// land on the lattice through the saturating lift.
pub open spec fn int_poly_spec(a: Seq<i64>, c: Cplx) -> Cplx
    decreases a.len(),
{
    if a.len() == 0 {
        c_zero()
    } else {
        c_add(
            Cplx { re: sfx(crate::fix::sat(a[0] * crate::fix::SCALE)), im: sfx(0) },
            c_mul(c, int_poly_spec(a.subrange(1, a.len() as int), c)),
        )
    }
}

/// Evaluate a polynomial with integer coefficients at a complex
/// argument.
pub fn int_poly(a: &Vec<i64>, c: Cplx) -> (r: Cplx)
    ensures
        r == int_poly_spec(a@, c),
{
    let mut acc = Cplx::zero();
    let mut k: usize = a.len();
    while k > 0
        invariant
            k <= a.len(),
            acc == int_poly_spec(a@.subrange(k as int, a@.len() as int), c),
        decreases k,
    {
        let coeff = Cplx::new(Fix::from_int_sat(a[k - 1]), Fix::zero());
        proof {
            let tail = a@.subrange(k - 1, a@.len() as int);
            assert(tail[0] == a@[k - 1]);
            assert(tail.subrange(1, tail.len() as int) =~= a@.subrange(k as int, a@.len() as int));
        }
        acc = acc.mul(c).add(coeff);
        k = k - 1;
    }
    proof {
        assert(a@.subrange(0, a@.len() as int) =~= a@);
    }
    acc
}

/// All roots of a quadratic `a0 + a1 x + a2 x^2` in closed form:
/// `(-a1 +/- sqrt(a1^2 - 4 a0 a2)) / (2 a2)`.
pub fn solve_quadratic(a0: Cplx, a1: Cplx, a2: Cplx) -> (r: (Cplx, Cplx))
    ensures
        r == solve_quadratic_spec(a0, a1, a2),
{
    let disc = a1.mul(a1).sub(a0.mul(a2).scale(Fix::from_int(4))).sqrt();
    let two_a2 = a2.add(a2);
    (a1.neg().add(disc).div(two_a2), a1.neg().sub(disc).div(two_a2))
}

/// Model of the closed-form quadratic solver.
pub open spec fn solve_quadratic_spec(a0: Cplx, a1: Cplx, a2: Cplx) -> (Cplx, Cplx) {
    let disc = crate::cplx::c_sqrt(
        c_sub(c_mul(a1, a1), crate::cplx::c_scale(sfx(4 * crate::fix::SCALE as int), c_mul(a0, a2))),
    );
    let two_a2 = c_add(a2, a2);
    (c_div(c_add(crate::cplx::c_neg(a1), disc), two_a2), c_div(
        c_sub(crate::cplx::c_neg(a1), disc),
        two_a2,
    ))
}

} // verus!
