//! The comparison catalog: exactness of the discrete relations, the
//! complement and operand-swap identities, the linear ramp's profile, and
//! the sigmoid's convergence toward the exact answer.

use gspice::{CmpMethod, CmpMethodDiscret, CmpMethodLinear, CmpMethodSigmoid, CmpOp, Fp};

fn fp(x: f64) -> Fp {
    Fp::from_bits(x.to_bits())
}

fn un(x: Fp) -> f64 {
    f64::from_bits(x.to_bits())
}

fn cmp(op: CmpOp, m: &CmpMethod, a: f64, b: f64) -> f64 {
    un(op.forward(m, fp(a), fp(b)))
}

fn methods() -> [CmpMethod; 3] {
    [
        CmpMethod::Discret,
        CmpMethod::new_linear(fp(0.75)),
        CmpMethod::new_sigmoid(fp(2.0)),
    ]
}

#[test]
fn discrete_relations_answer_zero_or_one() {
    let d = CmpMethodDiscret;
    assert_eq!(un(d.eq_forward(fp(2.0), fp(2.0))), 1.0);
    assert_eq!(un(d.eq_forward(fp(2.0), fp(3.0))), 0.0);
    assert_eq!(un(d.ne_forward(fp(2.0), fp(3.0))), 1.0);
    assert_eq!(un(d.le_forward(fp(2.0), fp(3.0))), 1.0);
    assert_eq!(un(d.le_forward(fp(3.0), fp(2.0))), 0.0);
    assert_eq!(un(d.ge_forward(fp(3.0), fp(2.0))), 1.0);
    assert_eq!(un(d.lt_forward(fp(2.0), fp(2.0))), 0.0);
    assert_eq!(un(d.gt_forward(fp(3.0), fp(2.0))), 1.0);
    // The two zeros compare equal; every NaN equals every NaN and exceeds
    // every number.
    assert_eq!(un(d.eq_forward(fp(0.0), fp(-0.0))), 1.0);
    assert_eq!(un(d.eq_forward(fp(f64::NAN), fp(f64::NAN))), 1.0);
    assert_eq!(un(d.gt_forward(fp(f64::NAN), fp(f64::INFINITY))), 1.0);
}

#[test]
fn le_plus_gt_is_one_discrete() {
    for (a, b) in [(1.0, 2.0), (2.0, 1.0), (2.0, 2.0), (f64::NAN, 1.0), (0.0, -0.0)] {
        let le = cmp(CmpOp::Le, &CmpMethod::Discret, a, b);
        let gt = cmp(CmpOp::Gt, &CmpMethod::Discret, a, b);
        assert_eq!((le + gt).to_bits(), 1.0f64.to_bits());
        let lt = cmp(CmpOp::Lt, &CmpMethod::Discret, a, b);
        let ge = cmp(CmpOp::Ge, &CmpMethod::Discret, a, b);
        assert_eq!((lt + ge).to_bits(), 1.0f64.to_bits());
    }
}

#[test]
fn le_plus_gt_is_one_smoothed() {
    // In the middle of the linear band, and at the exact tie of the
    // sigmoid curve, the two halves sum to exactly one.
    let lin = CmpMethod::new_linear(fp(2.0));
    let le = cmp(CmpOp::Le, &lin, 3.0, 2.0);
    let gt = cmp(CmpOp::Gt, &lin, 3.0, 2.0);
    assert_eq!(le.to_bits(), 0.25f64.to_bits());
    assert_eq!(gt.to_bits(), 0.75f64.to_bits());
    assert_eq!((le + gt).to_bits(), 1.0f64.to_bits());
    let sig = CmpMethod::new_sigmoid(fp(2.0));
    let le = cmp(CmpOp::Le, &sig, 5.0, 5.0);
    let gt = cmp(CmpOp::Gt, &sig, 5.0, 5.0);
    assert_eq!(le.to_bits(), 0.5f64.to_bits());
    assert_eq!(gt.to_bits(), 0.5f64.to_bits());
    assert_eq!((le + gt).to_bits(), 1.0f64.to_bits());
    // Far outside the band the answers saturate at exactly 0 and 1.
    let le = cmp(CmpOp::Le, &sig, 0.0, 1000.0);
    let gt = cmp(CmpOp::Gt, &sig, 0.0, 1000.0);
    assert_eq!((le, gt), (1.0, 0.0));
}

#[test]
fn ne_is_one_minus_eq_under_every_method() {
    for m in methods() {
        for (a, b) in [(2.0, 2.0), (2.0, 2.3), (2.0, 9.0), (-1.0, 1.0)] {
            let eq = cmp(CmpOp::Eq, &m, a, b);
            let ne = cmp(CmpOp::Ne, &m, a, b);
            assert_eq!(ne.to_bits(), (1.0 - eq).to_bits(), "for {a}, {b} under {m:?}");
        }
    }
}

#[test]
fn ge_gt_swap_operands_under_every_method() {
    for m in methods() {
        for (a, b) in [(2.0, 2.0), (2.0, 2.3), (3.0, 1.0)] {
            assert_eq!(
                cmp(CmpOp::Ge, &m, a, b).to_bits(),
                cmp(CmpOp::Le, &m, b, a).to_bits()
            );
            assert_eq!(
                cmp(CmpOp::Gt, &m, a, b).to_bits(),
                cmp(CmpOp::Lt, &m, b, a).to_bits()
            );
        }
    }
}

#[test]
fn eq_linear_profile() {
    let eps = 2.0;
    let m = CmpMethod::new_linear(fp(eps));
    // Exactly one at equality.
    assert_eq!(cmp(CmpOp::Eq, &m, 5.0, 5.0).to_bits(), 1.0f64.to_bits());
    // Linear decay inside the band.
    assert_eq!(cmp(CmpOp::Eq, &m, 5.0, 4.0).to_bits(), 0.5f64.to_bits());
    assert_eq!(cmp(CmpOp::Eq, &m, 5.0, 5.5).to_bits(), 0.75f64.to_bits());
    // Exactly zero at the band's edge and beyond.
    assert_eq!(cmp(CmpOp::Eq, &m, 5.0, 3.0).to_bits(), 0.0f64.to_bits());
    assert_eq!(cmp(CmpOp::Eq, &m, 5.0, -100.0).to_bits(), 0.0f64.to_bits());
}

#[test]
fn le_linear_is_half_at_equality() {
    let m = CmpMethod::new_linear(fp(0.5));
    assert_eq!(cmp(CmpOp::Le, &m, 7.0, 7.0).to_bits(), 0.5f64.to_bits());
    // And saturates at exactly 0 and 1 outside the band.
    assert_eq!(cmp(CmpOp::Le, &m, 9.0, 7.0).to_bits(), 0.0f64.to_bits());
    assert_eq!(cmp(CmpOp::Le, &m, 5.0, 7.0).to_bits(), 1.0f64.to_bits());
}

#[test]
fn le_sigmoid_converges_to_discrete() {
    let (a, b) = (1.0, 2.0);
    let exact = cmp(CmpOp::Le, &CmpMethod::Discret, a, b);
    let mut last_gap = f64::INFINITY;
    for k in [1.0, 10.0, 100.0, 10_000.0] {
        let m = CmpMethod::new_sigmoid(fp(k));
        let gap = (cmp(CmpOp::Le, &m, a, b) - exact).abs();
        assert!(gap <= last_gap, "gap must shrink as k grows");
        last_gap = gap;
    }
    // At very large steepness the surrogate reaches the exact answer.
    let huge = CmpMethod::new_sigmoid(fp(1.0e9));
    assert_eq!(cmp(CmpOp::Le, &huge, a, b).to_bits(), exact.to_bits());
    let exact_rev = cmp(CmpOp::Le, &CmpMethod::Discret, b, a);
    assert_eq!(cmp(CmpOp::Le, &huge, b, a).to_bits(), exact_rev.to_bits());
}

#[test]
fn sigmoid_eq_is_gaussian_bump() {
    let k = 2.0;
    let m = CmpMethod::new_sigmoid(fp(k));
    assert_eq!(cmp(CmpOp::Eq, &m, 3.0, 3.0).to_bits(), 1.0f64.to_bits());
    let diff = 1.25f64;
    assert_eq!(
        cmp(CmpOp::Eq, &m, 3.0 + diff, 3.0).to_bits(),
        (-k * diff * diff).exp().to_bits()
    );
}

#[test]
fn sigmoid_le_is_logistic() {
    let k = 2.0;
    let m = CmpMethod::new_sigmoid(fp(k));
    let (a, b) = (1.5, 0.75);
    assert_eq!(
        cmp(CmpOp::Le, &m, a, b).to_bits(),
        (1.0 / (1.0 + (k * (a - b)).exp())).to_bits()
    );
}

fn backward_lhs(op: CmpOp, m: &CmpMethod, a: f64, b: f64) -> f64 {
    let res = op.forward(m, fp(a), fp(b));
    let mut acc = fp(0.0);
    op.backward_lhs(m, fp(a), fp(b), res, fp(1.0), &mut acc);
    un(acc)
}

fn backward_rhs(op: CmpOp, m: &CmpMethod, a: f64, b: f64) -> f64 {
    let res = op.forward(m, fp(a), fp(b));
    let mut acc = fp(0.0);
    op.backward_rhs(m, fp(a), fp(b), res, fp(1.0), &mut acc);
    un(acc)
}

#[test]
fn discrete_backward_contributes_nothing() {
    for op in [CmpOp::Eq, CmpOp::Ne, CmpOp::Le, CmpOp::Ge, CmpOp::Lt, CmpOp::Gt] {
        assert_eq!(backward_lhs(op, &CmpMethod::Discret, 1.0, 2.0), 0.0);
        assert_eq!(backward_rhs(op, &CmpMethod::Discret, 1.0, 2.0), 0.0);
    }
}

#[test]
fn smoothed_backward_finite_difference() {
    let h = 1e-6;
    for m in [CmpMethod::new_linear(fp(2.0)), CmpMethod::new_sigmoid(fp(2.0))] {
        for op in [CmpOp::Eq, CmpOp::Ne, CmpOp::Le, CmpOp::Ge, CmpOp::Lt, CmpOp::Gt] {
            let (a, b) = (1.1, 1.6);
            let dl_num = (cmp(op, &m, a + h, b) - cmp(op, &m, a - h, b)) / (2.0 * h);
            let dr_num = (cmp(op, &m, a, b + h) - cmp(op, &m, a, b - h)) / (2.0 * h);
            let dl = backward_lhs(op, &m, a, b);
            let dr = backward_rhs(op, &m, a, b);
            assert!((dl - dl_num).abs() <= 1e-5, "{op:?} {m:?} lhs: {dl} vs {dl_num}");
            assert!((dr - dr_num).abs() <= 1e-5, "{op:?} {m:?} rhs: {dr} vs {dr_num}");
        }
    }
}

#[test]
fn linear_backward_zero_outside_band() {
    let m = CmpMethod::new_linear(fp(0.5));
    for op in [CmpOp::Eq, CmpOp::Ne, CmpOp::Le, CmpOp::Gt] {
        assert_eq!(backward_lhs(op, &m, 10.0, 1.0), 0.0, "{op:?}");
        assert_eq!(backward_rhs(op, &m, 10.0, 1.0), 0.0, "{op:?}");
    }
}

#[test]
fn law_functions_hold_at_runtime() {
    assert_eq!(
        un(gspice::laws::le_plus_gt_discrete(fp(2.5), fp(-1.0))).to_bits(),
        1.0f64.to_bits()
    );
    assert_eq!(
        un(gspice::laws::lt_plus_ge_discrete(fp(2.5), fp(2.5))).to_bits(),
        1.0f64.to_bits()
    );
    for m in methods() {
        let (ne, om) = gspice::laws::ne_is_one_minus_eq(fp(1.0), fp(1.4), &m);
        assert_eq!(ne.to_bits(), om.to_bits());
    }
    assert_eq!(
        un(gspice::laws::eq_linear_at_equal(fp(3.25), fp(0.5))).to_bits(),
        1.0f64.to_bits()
    );
    assert_eq!(
        un(gspice::laws::le_linear_at_equal(fp(3.25), fp(0.5))).to_bits(),
        0.5f64.to_bits()
    );
    assert_eq!(
        un(gspice::laws::cond_blend_at_one(fp(8.5), fp(4.5))).to_bits(),
        8.5f64.to_bits()
    );
    assert_eq!(
        un(gspice::laws::cond_blend_at_zero(fp(8.5), fp(4.5))).to_bits(),
        4.5f64.to_bits()
    );
}

#[test]
fn linear_ne_is_mirrored_eq_ramp() {
    // The complement ramp: high far apart, low near equality.
    let m = CmpMethod::new_linear(fp(2.0));
    assert_eq!(cmp(CmpOp::Ne, &m, 5.0, 5.0).to_bits(), 0.0f64.to_bits());
    assert_eq!(cmp(CmpOp::Ne, &m, 5.0, 4.0).to_bits(), 0.5f64.to_bits());
    assert_eq!(cmp(CmpOp::Ne, &m, 5.0, 1.0).to_bits(), 1.0f64.to_bits());
}
