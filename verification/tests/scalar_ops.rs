//! The scalar operator catalog: forward rules against the platform's own
//! double arithmetic, and every differentiable backward rule against a
//! central finite difference.

use gspice::{BinaryOp, Cond, Fp, Powf, UnaryOp};

fn fp(x: f64) -> Fp {
    Fp::from_bits(x.to_bits())
}

fn un(x: Fp) -> f64 {
    f64::from_bits(x.to_bits())
}

fn assert_close(got: f64, want: f64) {
    assert!(
        (got - want).abs() <= 1e-6 * (1.0 + want.abs()),
        "got {got}, want {want}"
    );
}

fn unary_value(k: UnaryOp, x: f64) -> f64 {
    un(k.forward(fp(x)))
}

fn unary_grad(k: UnaryOp, x: f64) -> f64 {
    let res = k.forward(fp(x));
    let mut acc = fp(0.0);
    let ok = k.backward(fp(x), res, fp(1.0), &mut acc);
    assert!(ok, "backward unexpectedly unsupported");
    un(acc)
}

fn check_unary_fd(k: UnaryOp, x: f64) {
    let h = 1e-6;
    let numeric = (unary_value(k, x + h) - unary_value(k, x - h)) / (2.0 * h);
    assert_close(unary_grad(k, x), numeric);
}

#[test]
fn unary_forward_matches_platform() {
    assert_eq!(unary_value(UnaryOp::Neg, 1.5).to_bits(), (-1.5f64).to_bits());
    assert_eq!(unary_value(UnaryOp::Sin, 0.7).to_bits(), 0.7f64.sin().to_bits());
    assert_eq!(unary_value(UnaryOp::Cos, 0.7).to_bits(), 0.7f64.cos().to_bits());
    assert_eq!(unary_value(UnaryOp::Tanh, 0.7).to_bits(), 0.7f64.tanh().to_bits());
    assert_eq!(unary_value(UnaryOp::Tan, 0.5).to_bits(), 0.5f64.tan().to_bits());
    assert_eq!(unary_value(UnaryOp::Ceil, 1.2).to_bits(), 2.0f64.to_bits());
    assert_eq!(unary_value(UnaryOp::Floor, 1.8).to_bits(), 1.0f64.to_bits());
    assert_eq!(unary_value(UnaryOp::Round, 1.5).to_bits(), 2.0f64.to_bits());
    assert_eq!(unary_value(UnaryOp::Sign, -3.0).to_bits(), (-1.0f64).to_bits());
    assert_eq!(unary_value(UnaryOp::Sign, 3.0).to_bits(), 1.0f64.to_bits());
    assert_eq!(unary_value(UnaryOp::Sqrt, 2.3).to_bits(), 2.3f64.sqrt().to_bits());
    assert_eq!(unary_value(UnaryOp::Sqr, 1.3).to_bits(), (1.3f64 * 1.3).to_bits());
    assert_eq!(
        unary_value(UnaryOp::Cubic, 1.3).to_bits(),
        (1.3f64 * 1.3 * 1.3).to_bits()
    );
    assert_eq!(unary_value(UnaryOp::Log, 1.7).to_bits(), 1.7f64.ln().to_bits());
    assert_eq!(unary_value(UnaryOp::Exp, 0.6).to_bits(), 0.6f64.exp().to_bits());
    assert_eq!(unary_value(UnaryOp::Abs, -1.3).to_bits(), 1.3f64.to_bits());
    assert_eq!(
        unary_value(UnaryOp::Erf, 0.4).to_bits(),
        candle_core::cpu::erf::erf_f64(0.4).to_bits()
    );
    assert_eq!(unary_value(UnaryOp::LogicNot, 0.3).to_bits(), (1.0f64 - 0.3).to_bits());
}

#[test]
fn unary_forward_special_values() {
    // Negation and absolute value act on the sign bit alone.
    assert_eq!(unary_value(UnaryOp::Neg, 0.0).to_bits(), (-0.0f64).to_bits());
    assert_eq!(unary_value(UnaryOp::Abs, -0.0).to_bits(), 0.0f64.to_bits());
    // The sign of a NaN is the canonical NaN; the sign of a zero keeps the
    // zero's sign bit.
    assert_eq!(unary_value(UnaryOp::Sign, f64::NAN).to_bits(), f64::NAN.to_bits());
    assert_eq!(unary_value(UnaryOp::Sign, -0.0).to_bits(), (-1.0f64).to_bits());
    // Numeric edge cases propagate infinities and NaNs instead of failing.
    assert!(unary_value(UnaryOp::Log, -1.0).is_nan());
    assert!(unary_value(UnaryOp::Sqrt, -1.0).is_nan());
    assert_eq!(unary_value(UnaryOp::Exp, f64::INFINITY), f64::INFINITY);
}

#[test]
fn unary_backward_finite_difference() {
    check_unary_fd(UnaryOp::Neg, 0.8);
    check_unary_fd(UnaryOp::Sin, 0.7);
    check_unary_fd(UnaryOp::Cos, 0.7);
    check_unary_fd(UnaryOp::Tanh, 0.4);
    check_unary_fd(UnaryOp::Tan, 0.5);
    check_unary_fd(UnaryOp::Sqrt, 2.3);
    check_unary_fd(UnaryOp::Sqr, 1.3);
    check_unary_fd(UnaryOp::Cubic, 0.9);
    check_unary_fd(UnaryOp::Log, 1.7);
    check_unary_fd(UnaryOp::Exp, 0.6);
    check_unary_fd(UnaryOp::Abs, 1.3);
    check_unary_fd(UnaryOp::Abs, -1.3);
    check_unary_fd(UnaryOp::Erf, 0.4);
    check_unary_fd(UnaryOp::LogicNot, 0.3);
}

#[test]
fn unary_backward_accumulates() {
    // A reused variable must sum contributions from every use site.
    let mut acc = fp(10.0);
    let res = UnaryOp::Exp.forward(fp(0.0));
    let ok = UnaryOp::Exp.backward(fp(0.0), res, fp(1.0), &mut acc);
    assert!(ok);
    assert_eq!(un(acc).to_bits(), 11.0f64.to_bits());
}

#[test]
fn unary_backward_non_differentiable_leaves_accumulator() {
    for k in [UnaryOp::Ceil, UnaryOp::Floor, UnaryOp::Round, UnaryOp::Sign] {
        let mut acc = fp(42.0);
        let res = k.forward(fp(1.3));
        let ok = k.backward(fp(1.3), res, fp(1.0), &mut acc);
        assert!(!ok, "{k:?} must report a missing gradient");
        assert_eq!(un(acc).to_bits(), 42.0f64.to_bits());
    }
}

fn binary_value(k: BinaryOp, l: f64, r: f64) -> f64 {
    un(k.forward(fp(l), fp(r)))
}

fn binary_grads(k: BinaryOp, l: f64, r: f64) -> (f64, f64) {
    let res = k.forward(fp(l), fp(r));
    let mut dl = fp(0.0);
    let mut dr = fp(0.0);
    k.backward_lhs(fp(l), fp(r), res, fp(1.0), &mut dl);
    k.backward_rhs(fp(l), fp(r), res, fp(1.0), &mut dr);
    (un(dl), un(dr))
}

fn check_binary_fd(k: BinaryOp, l: f64, r: f64) {
    let h = 1e-6;
    let dl_num = (binary_value(k, l + h, r) - binary_value(k, l - h, r)) / (2.0 * h);
    let dr_num = (binary_value(k, l, r + h) - binary_value(k, l, r - h)) / (2.0 * h);
    let (dl, dr) = binary_grads(k, l, r);
    assert_close(dl, dl_num);
    assert_close(dr, dr_num);
}

#[test]
fn binary_forward_matches_platform() {
    assert_eq!(binary_value(BinaryOp::Add, 1.2, 3.4).to_bits(), (1.2f64 + 3.4).to_bits());
    assert_eq!(binary_value(BinaryOp::Sub, 1.2, 3.4).to_bits(), (1.2f64 - 3.4).to_bits());
    assert_eq!(binary_value(BinaryOp::Mul, 1.2, 3.4).to_bits(), (1.2f64 * 3.4).to_bits());
    assert_eq!(binary_value(BinaryOp::Div, 1.2, 3.4).to_bits(), (1.2f64 / 3.4).to_bits());
    assert_eq!(
        binary_value(BinaryOp::Pow, 1.8, 2.5).to_bits(),
        1.8f64.powf(2.5).to_bits()
    );
    assert_eq!(binary_value(BinaryOp::Min, 3.0, 5.0).to_bits(), 3.0f64.to_bits());
    assert_eq!(binary_value(BinaryOp::Max, 3.0, 5.0).to_bits(), 5.0f64.to_bits());
    assert_eq!(binary_value(BinaryOp::Min, f64::NAN, 2.0).to_bits(), 2.0f64.to_bits());
    assert_eq!(binary_value(BinaryOp::Max, 2.0, f64::NAN).to_bits(), 2.0f64.to_bits());
    assert_eq!(
        binary_value(BinaryOp::LogicAnd, 0.3, 0.6).to_bits(),
        (0.3f64 * 0.6).to_bits()
    );
    assert_eq!(
        binary_value(BinaryOp::LogicOr, 0.3, 0.6).to_bits(),
        (0.3f64 + 0.6 - 0.3 * 0.6).to_bits()
    );
    // Division by zero propagates the IEEE infinity, not an error.
    assert_eq!(binary_value(BinaryOp::Div, 1.0, 0.0), f64::INFINITY);
}

#[test]
fn binary_backward_finite_difference() {
    check_binary_fd(BinaryOp::Add, 1.2, 3.4);
    check_binary_fd(BinaryOp::Sub, 1.2, 3.4);
    check_binary_fd(BinaryOp::Mul, 1.2, 3.4);
    check_binary_fd(BinaryOp::Div, 1.7, 2.9);
    check_binary_fd(BinaryOp::Pow, 1.8, 2.5);
    check_binary_fd(BinaryOp::Min, 2.0, 5.0);
    check_binary_fd(BinaryOp::Min, 5.0, 2.0);
    check_binary_fd(BinaryOp::Max, 2.0, 5.0);
    check_binary_fd(BinaryOp::Max, 5.0, 2.0);
    check_binary_fd(BinaryOp::LogicAnd, 0.3, 0.6);
    check_binary_fd(BinaryOp::LogicOr, 0.3, 0.6);
}

#[test]
fn min_plus_max_equals_sum() {
    for (a, b) in [(1.5, 2.5), (2.5, 1.5), (-3.0, 7.0), (0.1, 0.1), (0.0, -0.0)] {
        let s = gspice::laws::min_plus_max(fp(a), fp(b));
        assert_eq!(un(s).to_bits(), (a + b).to_bits(), "for {a} and {b}");
    }
}

#[test]
fn min_max_tie_splits_gradient_evenly() {
    for k in [BinaryOp::Min, BinaryOp::Max] {
        let (dl, dr) = binary_grads(k, 2.0, 2.0);
        assert_eq!(dl.to_bits(), 0.5f64.to_bits());
        assert_eq!(dr.to_bits(), 0.5f64.to_bits());
    }
}

#[test]
fn min_max_route_gradient_to_attaining_operand() {
    let (dl, dr) = binary_grads(BinaryOp::Min, 2.0, 5.0);
    assert_eq!((dl, dr), (1.0, 0.0));
    let (dl, dr) = binary_grads(BinaryOp::Max, 2.0, 5.0);
    assert_eq!((dl, dr), (0.0, 1.0));
}

#[test]
fn powf_forward_and_backward() {
    assert_eq!(
        un(Powf::forward(fp(1.8), fp(2.5))).to_bits(),
        1.8f64.powf(2.5).to_bits()
    );
    let mut acc = fp(0.0);
    Powf::backward(fp(1.8), fp(2.5), fp(1.0), &mut acc);
    let h = 1e-6;
    let numeric = ((1.8f64 + h).powf(2.5) - (1.8f64 - h).powf(2.5)) / (2.0 * h);
    assert_close(un(acc), numeric);
}

#[test]
fn cond_forward_and_backward() {
    // The blend at an interior condition value.
    assert_eq!(
        un(Cond::forward(fp(0.25), fp(8.0), fp(4.0))).to_bits(),
        (0.25f64 * 8.0 + 0.75 * 4.0).to_bits()
    );
    let h = 1e-6;
    let blend = |c: f64, t: f64, f: f64| un(Cond::forward(fp(c), fp(t), fp(f)));
    let mut dc = fp(0.0);
    Cond::backward_cond(fp(8.0), fp(4.0), fp(1.0), &mut dc);
    assert_close(un(dc), (blend(0.25 + h, 8.0, 4.0) - blend(0.25 - h, 8.0, 4.0)) / (2.0 * h));
    let mut dt = fp(0.0);
    Cond::backward_on_true(fp(0.25), fp(1.0), &mut dt);
    assert_close(un(dt), (blend(0.25, 8.0 + h, 4.0) - blend(0.25, 8.0 - h, 4.0)) / (2.0 * h));
    let mut df = fp(0.0);
    Cond::backward_on_false(fp(0.25), fp(1.0), &mut df);
    assert_close(un(df), (blend(0.25, 8.0, 4.0 + h) - blend(0.25, 8.0, 4.0 - h)) / (2.0 * h));
}
