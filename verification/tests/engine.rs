//! The expression graph: broadcasting across every shape combination,
//! gradient-identity propagation, shape errors, the smoothed select, and a
//! full forward/backward scenario.

use gspice::{
    BinaryOp, CmpMethod, CmpOp, Expression, Fp, Graph, Op, ScalarTensor, ShapeMismatch, UnaryOp,
};

fn fp(x: f64) -> Fp {
    Fp::from_bits(x.to_bits())
}

fn un(x: Fp) -> f64 {
    f64::from_bits(x.to_bits())
}

fn tensor_of(e: &Expression, g: &Graph) -> Vec<f64> {
    match e.value(g) {
        ScalarTensor::Tensor(t) => t.values(g).iter().map(|v| un(*v)).collect(),
        ScalarTensor::Scalar(_) => panic!("expected a tensor result"),
    }
}

fn scalar_of(e: &Expression, g: &Graph) -> f64 {
    match e.value(g) {
        ScalarTensor::Scalar(x) => un(x),
        ScalarTensor::Tensor(_) => panic!("expected a scalar result"),
    }
}

fn has_grad(e: &Expression, g: &Graph) -> bool {
    match e.value(g) {
        ScalarTensor::Tensor(t) => t.grad_id(g).is_some(),
        ScalarTensor::Scalar(_) => false,
    }
}

#[test]
fn constants_fold_without_touching_the_graph() {
    let mut g = Graph::new();
    let a = Expression::constant(fp(1.5));
    let b = Expression::constant(fp(2.5));
    let s = a.add(&b, &mut g).unwrap();
    assert_eq!(scalar_of(&s, &g), 4.0);
    assert_eq!(g.tensors.len(), 0);
    assert_eq!(g.ops.len(), 0);
}

#[test]
fn scalar_broadcasts_against_tensor() {
    let mut g = Graph::new();
    let (t, _) = Expression::parameter(vec![fp(1.0), fp(2.0), fp(3.0)], false, &mut g);
    let c = Expression::constant(fp(10.0));
    let left = c.add(&t, &mut g).unwrap();
    assert_eq!(tensor_of(&left, &g), vec![11.0, 12.0, 13.0]);
    let right = t.sub(&c, &mut g).unwrap();
    assert_eq!(tensor_of(&right, &g), vec![-9.0, -8.0, -7.0]);
    let scaled = t.mul(&c, &mut g).unwrap();
    assert_eq!(tensor_of(&scaled, &g), vec![10.0, 20.0, 30.0]);
}

#[test]
fn equal_length_tensors_zip_elementwise() {
    let mut g = Graph::new();
    let (a, _) = Expression::parameter(vec![fp(1.0), fp(2.0)], false, &mut g);
    let (b, _) = Expression::parameter(vec![fp(10.0), fp(20.0)], false, &mut g);
    let s = a.add(&b, &mut g).unwrap();
    assert_eq!(tensor_of(&s, &g), vec![11.0, 22.0]);
    let d = a.div(&b, &mut g).unwrap();
    assert_eq!(tensor_of(&d, &g), vec![0.1, 0.1]);
}

#[test]
fn mismatched_tensor_lengths_fail() {
    let mut g = Graph::new();
    let (a, _) = Expression::parameter(vec![fp(1.0), fp(2.0), fp(3.0)], false, &mut g);
    let (b, _) = Expression::parameter(vec![fp(1.0), fp(2.0)], false, &mut g);
    let before_tensors = g.tensors.len();
    let err = a.add(&b, &mut g).unwrap_err();
    assert_eq!(err, ShapeMismatch { lhs_len: 3, rhs_len: 2 });
    let err = a.eq(&b, &mut g).unwrap_err();
    assert_eq!(err, ShapeMismatch { lhs_len: 3, rhs_len: 2 });
    // The failed calls left no partial result behind.
    assert_eq!(g.tensors.len(), before_tensors);
    assert_eq!(g.ops.len(), 0);
}

#[test]
fn mismatched_lengths_in_cond_fail() {
    let mut g = Graph::new();
    let (c, _) = Expression::parameter(vec![fp(1.0), fp(0.0)], false, &mut g);
    let (t, _) = Expression::parameter(vec![fp(5.0), fp(6.0), fp(7.0)], false, &mut g);
    let f = Expression::constant(fp(9.0));
    let err = c.cond(&t, &f, &mut g).unwrap_err();
    assert_eq!(err, ShapeMismatch { lhs_len: 2, rhs_len: 3 });
}

#[test]
fn gradient_identity_propagates_from_operands() {
    let mut g = Graph::new();
    let (a, at) = Expression::parameter(vec![fp(1.0), fp(2.0)], true, &mut g);
    let (b, _) = Expression::parameter(vec![fp(3.0), fp(4.0)], false, &mut g);
    assert!(at.grad_id(&g).is_some());
    // One tracking operand is enough.
    let s = a.add(&b, &mut g).unwrap();
    assert!(has_grad(&s, &g));
    // No tracking operand, no identity.
    let t = b.add(&b, &mut g).unwrap();
    assert!(!has_grad(&t, &g));
    // A constant never contributes one.
    let c = Expression::constant(fp(2.0));
    let u = b.mul(&c, &mut g).unwrap();
    assert!(!has_grad(&u, &g));
    let v = a.mul(&c, &mut g).unwrap();
    assert!(has_grad(&v, &g));
}

#[test]
fn gradient_identities_are_never_merged() {
    let mut g = Graph::new();
    let (a, at) = Expression::parameter(vec![fp(1.0)], true, &mut g);
    let (b, bt) = Expression::parameter(vec![fp(2.0)], true, &mut g);
    let s = a.add(&b, &mut g).unwrap();
    let p = a.mul(&b, &mut g).unwrap();
    let ids = [
        at.grad_id(&g).unwrap(),
        bt.grad_id(&g).unwrap(),
        match s.value(&g) {
            ScalarTensor::Tensor(t) => t.grad_id(&g).unwrap(),
            _ => panic!("expected a tensor"),
        },
        match p.value(&g) {
            ScalarTensor::Tensor(t) => t.grad_id(&g).unwrap(),
            _ => panic!("expected a tensor"),
        },
    ];
    for i in 0..ids.len() {
        for j in 0..i {
            assert_ne!(ids[i], ids[j], "each node mints its own identity");
        }
    }
}

#[test]
fn discrete_comparison_never_carries_identity() {
    let mut g = Graph::new();
    let (a, _) = Expression::parameter(vec![fp(1.0), fp(2.0)], true, &mut g);
    let (b, _) = Expression::parameter(vec![fp(2.0), fp(2.0)], true, &mut g);
    let e = a.le(&b, &mut g).unwrap();
    assert!(!has_grad(&e, &g));
    assert_eq!(tensor_of(&e, &g), vec![1.0, 1.0]);
}

#[test]
fn smoothed_comparison_downgrades_without_gradient() {
    let mut g = Graph::new();
    let (a, _) = Expression::parameter(vec![fp(1.0), fp(2.0)], false, &mut g);
    let b = Expression::constant(fp(1.5));
    // No operand tracks gradients, so the sigmoid is not paid for: the
    // recorded operation holds the exact method and the values are 0/1.
    let e = a.le_sigmoid(&b, fp(2.0), &mut g).unwrap();
    assert!(!has_grad(&e, &g));
    assert_eq!(tensor_of(&e, &g), vec![1.0, 0.0]);
    match g.ops.last().unwrap() {
        Op::Cmp(_, _, CmpOp::Le, CmpMethod::Discret) => {}
        other => panic!("expected a downgraded comparison, found {other:?}"),
    }
}

#[test]
fn smoothed_comparison_honored_with_gradient() {
    let mut g = Graph::new();
    let (a, _) = Expression::parameter(vec![fp(1.0), fp(2.0)], true, &mut g);
    let b = Expression::constant(fp(1.5));
    let e = a.le_sigmoid(&b, fp(2.0), &mut g).unwrap();
    assert!(has_grad(&e, &g));
    let want0 = 1.0 / (1.0 + (2.0f64 * (1.0 - 1.5)).exp());
    let want1 = 1.0 / (1.0 + (2.0f64 * (2.0 - 1.5)).exp());
    let got = tensor_of(&e, &g);
    assert_eq!(got[0].to_bits(), want0.to_bits());
    assert_eq!(got[1].to_bits(), want1.to_bits());
    match g.ops.last().unwrap() {
        Op::Cmp(_, _, CmpOp::Le, CmpMethod::Sigmoid(_)) => {}
        other => panic!("expected the sigmoid method kept, found {other:?}"),
    }
}

#[test]
fn comparison_broadcasts_scalar_on_either_side() {
    let mut g = Graph::new();
    let (t, _) = Expression::parameter(vec![fp(1.0), fp(2.0), fp(3.0)], false, &mut g);
    let c = Expression::constant(fp(2.0));
    let left = c.le(&t, &mut g).unwrap();
    assert_eq!(tensor_of(&left, &g), vec![0.0, 1.0, 1.0]);
    let right = t.lt(&c, &mut g).unwrap();
    assert_eq!(tensor_of(&right, &g), vec![1.0, 0.0, 0.0]);
}

#[test]
fn cond_selects_exactly_across_shapes() {
    let mut g = Graph::new();
    let one = Expression::constant(fp(1.0));
    let zero = Expression::constant(fp(0.0));
    let t_scalar = Expression::constant(fp(5.0));
    let f_scalar = Expression::constant(fp(7.0));
    let (t_tensor, _) = Expression::parameter(vec![fp(5.0), fp(5.5)], false, &mut g);
    let (f_tensor, _) = Expression::parameter(vec![fp(7.0), fp(7.5)], false, &mut g);
    let (c_ones, _) = Expression::parameter(vec![fp(1.0), fp(1.0)], false, &mut g);
    let (c_zeros, _) = Expression::parameter(vec![fp(0.0), fp(0.0)], false, &mut g);

    // Constant condition, scalar branches: the blend folds to a scalar.
    assert_eq!(scalar_of(&one.cond(&t_scalar, &f_scalar, &mut g).unwrap(), &g), 5.0);
    assert_eq!(scalar_of(&zero.cond(&t_scalar, &f_scalar, &mut g).unwrap(), &g), 7.0);
    // Constant condition with tensor branches: short-circuit to the branch
    // expression, exact for any contents.
    assert_eq!(
        tensor_of(&one.cond(&t_tensor, &f_scalar, &mut g).unwrap(), &g),
        vec![5.0, 5.5]
    );
    assert_eq!(scalar_of(&zero.cond(&t_tensor, &f_scalar, &mut g).unwrap(), &g), 7.0);
    assert_eq!(scalar_of(&one.cond(&t_scalar, &f_tensor, &mut g).unwrap(), &g), 5.0);
    assert_eq!(
        tensor_of(&zero.cond(&t_scalar, &f_tensor, &mut g).unwrap(), &g),
        vec![7.0, 7.5]
    );
    assert_eq!(
        tensor_of(&one.cond(&t_tensor, &f_tensor, &mut g).unwrap(), &g),
        vec![5.0, 5.5]
    );
    assert_eq!(
        tensor_of(&zero.cond(&t_tensor, &f_tensor, &mut g).unwrap(), &g),
        vec![7.0, 7.5]
    );
    // Tensor condition, all four branch shapes, blended elementwise.
    assert_eq!(
        tensor_of(&c_ones.cond(&t_scalar, &f_scalar, &mut g).unwrap(), &g),
        vec![5.0, 5.0]
    );
    assert_eq!(
        tensor_of(&c_zeros.cond(&t_scalar, &f_scalar, &mut g).unwrap(), &g),
        vec![7.0, 7.0]
    );
    assert_eq!(
        tensor_of(&c_ones.cond(&t_tensor, &f_scalar, &mut g).unwrap(), &g),
        vec![5.0, 5.5]
    );
    assert_eq!(
        tensor_of(&c_ones.cond(&t_scalar, &f_tensor, &mut g).unwrap(), &g),
        vec![5.0, 5.0]
    );
    assert_eq!(
        tensor_of(&c_zeros.cond(&t_tensor, &f_tensor, &mut g).unwrap(), &g),
        vec![7.0, 7.5]
    );
    // A mixed condition picks per element.
    let (c_mixed, _) = Expression::parameter(vec![fp(1.0), fp(0.0)], false, &mut g);
    assert_eq!(
        tensor_of(&c_mixed.cond(&t_tensor, &f_tensor, &mut g).unwrap(), &g),
        vec![5.0, 7.5]
    );
}

#[test]
fn powf_broadcasts_and_folds() {
    let mut g = Graph::new();
    let c = Expression::constant(fp(3.0));
    assert_eq!(scalar_of(&c.powf(fp(2.0), &mut g), &g), 9.0);
    let (t, _) = Expression::parameter(vec![fp(2.0), fp(3.0)], true, &mut g);
    let e = t.powf(fp(2.0), &mut g);
    assert_eq!(tensor_of(&e, &g), vec![4.0, 9.0]);
    assert!(has_grad(&e, &g));
    match g.ops.last().unwrap() {
        Op::Powf(_, n) => assert_eq!(un(*n), 2.0),
        other => panic!("expected a power node, found {other:?}"),
    }
}

#[test]
fn unary_op_records_provenance() {
    let mut g = Graph::new();
    let (t, _) = Expression::parameter(vec![fp(0.5)], false, &mut g);
    let e = t.sin(&mut g);
    assert_eq!(tensor_of(&e, &g), vec![0.5f64.sin()]);
    match g.ops.last().unwrap() {
        Op::Unary(operand, UnaryOp::Sin) => assert_eq!(*operand, t),
        other => panic!("expected a sine node, found {other:?}"),
    }
    match e {
        Expression::Operation(_, op_idx) => assert_eq!(op_idx, g.ops.len() - 1),
        other => panic!("expected an operation, found {other:?}"),
    }
}

#[test]
fn update_replaces_values_and_marks_change() {
    let mut g = Graph::new();
    let (e, t) = Expression::parameter(vec![fp(1.0), fp(2.0)], true, &mut g);
    assert!(!t.change_marker(&g));
    t.update(vec![fp(9.0), fp(8.0)], &mut g);
    assert!(t.change_marker(&g));
    assert_eq!(tensor_of(&e, &g), vec![9.0, 8.0]);
    assert!(t.grad_id(&g).is_some(), "the identity survives an update");
    t.clear_changed(&mut g);
    assert!(!t.change_marker(&g));
}

#[test]
fn logic_gates_blend_probabilities() {
    let mut g = Graph::new();
    let (a, _) = Expression::parameter(vec![fp(0.3), fp(1.0)], false, &mut g);
    let b = Expression::constant(fp(0.6));
    let both = a.logic_and(&b, &mut g).unwrap();
    let got = tensor_of(&both, &g);
    assert_eq!(got[0].to_bits(), (0.3f64 * 0.6).to_bits());
    assert_eq!(got[1].to_bits(), 0.6f64.to_bits());
    let either = a.logic_or(&b, &mut g).unwrap();
    let got = tensor_of(&either, &g);
    assert_eq!(got[0].to_bits(), (0.3f64 + 0.6 - 0.3 * 0.6).to_bits());
    assert_eq!(got[1].to_bits(), 1.0f64.to_bits());
    let not = a.logic_not(&mut g);
    let got = tensor_of(&not, &g);
    assert_eq!(got[0].to_bits(), (1.0f64 - 0.3).to_bits());
    assert_eq!(got[1].to_bits(), 0.0f64.to_bits());
}

#[test]
fn min_max_expressions_sum_to_operands() {
    let mut g = Graph::new();
    let (a, _) = Expression::parameter(vec![fp(1.0), fp(9.0)], false, &mut g);
    let (b, _) = Expression::parameter(vec![fp(4.0), fp(2.0)], false, &mut g);
    let mn = a.min(&b, &mut g).unwrap();
    let mx = a.max(&b, &mut g).unwrap();
    assert_eq!(tensor_of(&mn, &g), vec![1.0, 2.0]);
    assert_eq!(tensor_of(&mx, &g), vec![4.0, 9.0]);
    let s = mn.add(&mx, &mut g).unwrap();
    let direct = a.add(&b, &mut g).unwrap();
    assert_eq!(tensor_of(&s, &g), tensor_of(&direct, &g));
}

#[test]
fn forward_and_backward_through_a_small_graph() {
    // a = parameter([1, 2, 3]) tracking gradients, b = 2, c = sin(a * b).
    let mut g = Graph::new();
    let (a, at) = Expression::parameter(vec![fp(1.0), fp(2.0), fp(3.0)], true, &mut g);
    let b = Expression::constant(fp(2.0));
    let m = a.mul(&b, &mut g).unwrap();
    let c = m.sin(&mut g);
    assert!(has_grad(&c, &g));
    let forward = tensor_of(&c, &g);
    let want: Vec<f64> = [2.0f64, 4.0, 6.0].iter().map(|x| x.sin()).collect();
    assert_eq!(forward, want);

    // Reverse pass by the recorded rules: through the sine first, then the
    // broadcast product, starting from a gradient of one per element.
    let m_vals = tensor_of(&m, &g);
    let mut grad_m = Vec::new();
    for (x, res) in m_vals.iter().zip(forward.iter()) {
        let mut acc = fp(0.0);
        let ok = UnaryOp::Sin.backward(fp(*x), fp(*res), fp(1.0), &mut acc);
        assert!(ok);
        grad_m.push(un(acc));
    }
    let a_vals = tensor_of(&a, &g);
    let mut grad_a = Vec::new();
    for (x, gm) in a_vals.iter().zip(grad_m.iter()) {
        let mut acc = fp(0.0);
        BinaryOp::Mul.backward_lhs(fp(*x), fp(2.0), fp(x * 2.0), fp(*gm), &mut acc);
        grad_a.push(un(acc));
    }
    for (got, x) in grad_a.iter().zip([2.0f64, 4.0, 6.0].iter()) {
        assert_eq!(got.to_bits(), (x.cos() * 2.0).to_bits());
    }
    // The parameter buffer itself was never touched by the passes.
    assert_eq!(tensor_of(&a, &g), vec![1.0, 2.0, 3.0]);
    assert!(at.grad_id(&g).is_some());
}

#[test]
fn comparison_backward_sweeps_buffers() {
    let m = CmpMethod::new_linear(fp(2.0));
    let ls = vec![fp(1.0), fp(5.0)];
    let rs = vec![fp(1.5), fp(1.0)];
    let res = CmpOp::Le.forward_iter(&m, &ls, &rs);
    let grad = vec![fp(1.0), fp(1.0)];
    let mut acc = vec![fp(0.0), fp(0.0)];
    CmpOp::Le.backward_lhs_iter(&m, &ls, &rs, &res, &grad, &mut acc);
    // Inside the band the slope is -1/(2 eps); outside it contributes
    // nothing.
    assert_eq!(un(acc[0]).to_bits(), (-0.25f64).to_bits());
    assert_eq!(un(acc[1]), 0.0);
    let mut acc = vec![fp(0.0), fp(0.0)];
    CmpOp::Le.backward_rhs_iter(&m, &ls, &rs, &res, &grad, &mut acc);
    assert_eq!(un(acc[0]).to_bits(), 0.25f64.to_bits());
    assert_eq!(un(acc[1]), 0.0);
}

#[test]
fn comparison_backward_broadcast_sweeps() {
    let m = CmpMethod::new_sigmoid(fp(2.0));
    let rhs = fp(1.5);
    let ls = vec![fp(1.0), fp(2.0)];
    let res = CmpOp::Le.forward_iter_fix_rhs(&m, rhs, &ls);
    let grad = vec![fp(1.0), fp(1.0)];
    let mut acc = vec![fp(0.0), fp(0.0)];
    CmpOp::Le.backward_lhs_iter_fix_rhs(&m, rhs, &ls, &res, &grad, &mut acc);
    for (x, got) in ls.iter().zip(acc.iter()) {
        let sigma = 1.0 / (1.0 + (2.0 * (un(*x) - 1.5)).exp());
        let want = -(2.0 * sigma * (1.0 - sigma));
        assert_eq!(un(*got).to_bits(), want.to_bits());
    }
}
