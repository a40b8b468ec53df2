//! Laws of the operator catalog, stated over the same specifications the
//! operators' own contracts use.
//!
//! What floating-point rounding cannot guarantee for every input (the
//! smoothed comparison curves summing to exactly one, for instance) is not
//! claimed here; such statements hold only where stated, and are exercised
//! on concrete values by the test suite.

use vstd::prelude::*;

use crate::binary::{max_fwd_bits, min_fwd_bits, binary_bwd_lhs_bits, binary_bwd_rhs_bits, BinaryOp};
use crate::cmp::{
    eq_fwd_bits, ge_fwd_bits, gt_fwd_bits, le_fwd_bits, lt_fwd_bits, ne_fwd_bits, CmpMethod,
    CmpMethodLinear, CmpOp,
};
use crate::fp::{
    add_bits, div_bits, fp_add, fp_div, fp_mul, fp_sub, is_finite_bits, is_nan_bits, is_zero_bits,
    mag_bits, ord_key, sign_set, sub_bits, Fp, HALF_BITS, ONE_BITS, TWO_BITS,
};

verus! {

/// On non-NaN operands, `min` and `max` together always hand back the two
/// operands: one of them is the left operand and the other the right one.
pub proof fn lemma_min_max_permutes(a: u64, b: u64)
    requires
        !is_nan_bits(a),
        !is_nan_bits(b),
    ensures
        (min_fwd_bits(a, b) == a && max_fwd_bits(a, b) == b) || (min_fwd_bits(a, b) == b
            && max_fwd_bits(a, b) == a),
{
}

/// `min(a, b) + max(a, b) == a + b` for finite operands: the pair of
/// results is a permutation of the pair of operands, and double addition of
/// finite values does not depend on operand order.
pub fn min_plus_max(a: Fp, b: Fp) -> (s: Fp)
    ensures
        s.bits == add_bits(min_fwd_bits(a.bits, b.bits), max_fwd_bits(a.bits, b.bits)),
        is_finite_bits(a.bits) && is_finite_bits(b.bits) ==> s.bits == add_bits(a.bits, b.bits),
{
    let mn = BinaryOp::Min.forward(a, b);
    let mx = BinaryOp::Max.forward(a, b);
    fp_add(mn, mx)
}

/// On an exact tie in the total order, `min` and `max` each route half of
/// the upstream gradient to each operand.
pub proof fn lemma_min_max_tie_splits(l: u64, r: u64, res: u64, grad: u64, acc: u64)
    requires
        ord_key(l) == ord_key(r),
    ensures
        binary_bwd_lhs_bits(BinaryOp::Min, l, r, res, grad, acc) == add_bits(
            acc,
            div_bits(grad, TWO_BITS),
        ),
        binary_bwd_rhs_bits(BinaryOp::Min, l, r, res, grad, acc) == add_bits(
            acc,
            div_bits(grad, TWO_BITS),
        ),
        binary_bwd_lhs_bits(BinaryOp::Max, l, r, res, grad, acc) == add_bits(
            acc,
            div_bits(grad, TWO_BITS),
        ),
        binary_bwd_rhs_bits(BinaryOp::Max, l, r, res, grad, acc) == add_bits(
            acc,
            div_bits(grad, TWO_BITS),
        ),
{
}

/// Away from a tie, `min` and `max` route the whole upstream gradient to
/// the attaining operand and nothing to the other.
pub proof fn lemma_min_max_routes_to_attaining(l: u64, r: u64, res: u64, grad: u64, acc: u64)
    requires
        ord_key(l) != ord_key(r),
    ensures
        min_fwd_bits(l, r) == if ord_key(l) < ord_key(r) {
            l
        } else {
            r
        },
        ord_key(l) < ord_key(r) ==> binary_bwd_lhs_bits(BinaryOp::Min, l, r, res, grad, acc)
            == add_bits(acc, grad) && binary_bwd_rhs_bits(BinaryOp::Min, l, r, res, grad, acc)
            == acc,
        ord_key(l) > ord_key(r) ==> binary_bwd_lhs_bits(BinaryOp::Min, l, r, res, grad, acc)
            == acc && binary_bwd_rhs_bits(BinaryOp::Min, l, r, res, grad, acc) == add_bits(
            acc,
            grad,
        ),
{
}

/// Under every smoothing method, `ge` and `gt` are `le` and `lt` with
/// their operands swapped: the derived relations reuse the primitives.
pub proof fn lemma_ge_gt_swap(m: CmpMethod, l: u64, r: u64)
    ensures
        ge_fwd_bits(m, l, r) == le_fwd_bits(m, r, l),
        gt_fwd_bits(m, l, r) == lt_fwd_bits(m, r, l),
{
}

/// Under the smoothed methods the strict and non-strict relations share
/// one curve: `lt` equals `le` and `gt` equals `ge` pointwise.
pub proof fn lemma_smoothed_strict_equals_nonstrict(m: CmpMethod, l: u64, r: u64)
    requires
        !(m is Discret),
    ensures
        lt_fwd_bits(m, l, r) == le_fwd_bits(m, l, r),
        gt_fwd_bits(m, l, r) == ge_fwd_bits(m, l, r),
{
}

/// Under the exact method, `le(a, b) + gt(a, b)` is exactly one: the two
/// answers are complementary 0/1 values, and adding a zero to one is
/// exact.
pub fn le_plus_gt_discrete(a: Fp, b: Fp) -> (s: Fp)
    ensures
        s.bits == ONE_BITS,
        s.bits == add_bits(
            le_fwd_bits(CmpMethod::Discret, a.bits, b.bits),
            gt_fwd_bits(CmpMethod::Discret, a.bits, b.bits),
        ),
{
    let le = CmpOp::Le.forward(&CmpMethod::Discret, a, b);
    let gt = CmpOp::Gt.forward(&CmpMethod::Discret, a, b);
    fp_add(le, gt)
}

/// Under the exact method, `lt(a, b) + ge(a, b)` is exactly one.
pub fn lt_plus_ge_discrete(a: Fp, b: Fp) -> (s: Fp)
    ensures
        s.bits == ONE_BITS,
        s.bits == add_bits(
            lt_fwd_bits(CmpMethod::Discret, a.bits, b.bits),
            ge_fwd_bits(CmpMethod::Discret, a.bits, b.bits),
        ),
{
    let lt = CmpOp::Lt.forward(&CmpMethod::Discret, a, b);
    let ge = CmpOp::Ge.forward(&CmpMethod::Discret, a, b);
    fp_add(lt, ge)
}

/// Under every smoothing method, `ne(a, b)` is exactly the double
/// subtraction `1 - eq(a, b)`: the smoothed `ne` is computed that way, and
/// the exact one only ever answers 0 or 1.
pub fn ne_is_one_minus_eq(a: Fp, b: Fp, m: &CmpMethod) -> (pair: (Fp, Fp))
    ensures
        pair.0 == pair.1,
        pair.0.bits == ne_fwd_bits(*m, a.bits, b.bits),
        pair.1.bits == sub_bits(ONE_BITS, eq_fwd_bits(*m, a.bits, b.bits)),
{
    let ne = CmpOp::Ne.forward(m, a, b);
    let eq = CmpOp::Eq.forward(m, a, b);
    let om = fp_sub(Fp { bits: ONE_BITS }, eq);
    (ne, om)
}

/// At `a == b` the linear `eq` is exactly one: the difference of a finite
/// value with itself is the positive zero, zero divided by the positive
/// half-width is zero, and `1 - 0` is one.
pub fn eq_linear_at_equal(a: Fp, epsilon: Fp) -> (r: Fp)
    requires
        is_finite_bits(a.bits),
        !sign_set(epsilon.bits),
        !is_nan_bits(epsilon.bits),
        !is_zero_bits(epsilon.bits),
    ensures
        r.bits == eq_fwd_bits(
            CmpMethod::Linear(CmpMethodLinear { epsilon }),
            a.bits,
            a.bits,
        ),
        r.bits == ONE_BITS,
{
    let diff = fp_sub(a, a);
    let ab = diff.abs();
    let q = fp_div(ab, epsilon);
    fp_sub(Fp { bits: ONE_BITS }, q)
}

/// Outside the band, and exactly at its edge `|a - b| == epsilon`, the
/// linear `eq` is exactly zero.
pub proof fn lemma_eq_linear_zero_outside(epsilon: Fp, l: u64, r: u64)
    requires
        ord_key(mag_bits(sub_bits(l, r))) >= ord_key(epsilon.bits),
    ensures
        eq_fwd_bits(CmpMethod::Linear(CmpMethodLinear { epsilon }), l, r) == 0,
{
}

/// At `a == b` the linear `le` is exactly one half.
pub fn le_linear_at_equal(a: Fp, epsilon: Fp) -> (r: Fp)
    requires
        is_finite_bits(a.bits),
        !sign_set(epsilon.bits),
        !is_nan_bits(epsilon.bits),
        !is_zero_bits(epsilon.bits),
    ensures
        r.bits == le_fwd_bits(
            CmpMethod::Linear(CmpMethodLinear { epsilon }),
            a.bits,
            a.bits,
        ),
        r.bits == HALF_BITS,
{
    let diff = fp_sub(a, a);
    let width = fp_mul(Fp { bits: TWO_BITS }, epsilon);
    let q = fp_div(diff, width);
    fp_sub(Fp { bits: HALF_BITS }, q)
}

/// With the condition exactly one, the select blend returns `on_true`
/// exactly, for any non-NaN non-zero `on_true` and finite `on_false`.
pub fn cond_blend_at_one(on_true: Fp, on_false: Fp) -> (r: Fp)
    requires
        !is_nan_bits(on_true.bits),
        !is_zero_bits(on_true.bits),
        is_finite_bits(on_false.bits),
    ensures
        r.bits == crate::cond::cond_fwd_bits(ONE_BITS, on_true.bits, on_false.bits),
        r == on_true,
{
    let taken = fp_mul(Fp { bits: ONE_BITS }, on_true);
    let off = fp_sub(Fp { bits: ONE_BITS }, Fp { bits: ONE_BITS });
    let other = fp_mul(off, on_false);
    fp_add(taken, other)
}

/// With the condition exactly zero, the select blend returns `on_false`
/// exactly, for any finite `on_true` and non-NaN non-zero `on_false`.
pub fn cond_blend_at_zero(on_true: Fp, on_false: Fp) -> (r: Fp)
    requires
        is_finite_bits(on_true.bits),
        !is_nan_bits(on_false.bits),
        !is_zero_bits(on_false.bits),
    ensures
        r.bits == crate::cond::cond_fwd_bits(0, on_true.bits, on_false.bits),
        r == on_false,
{
    let taken = fp_mul(Fp { bits: 0 }, on_true);
    let off = fp_sub(Fp { bits: ONE_BITS }, Fp { bits: 0 });
    let other = fp_mul(off, on_false);
    fp_add(taken, other)
}

/// A derived node tracks gradients exactly when one of its tensor operands
/// did: here for a unary result, whose only operand decides.
pub proof fn lemma_unary_grad_propagation(
    pre: crate::graph::Graph,
    post: crate::graph::Graph,
    e: crate::graph::Expression,
    k: crate::unary::UnaryOp,
    r: crate::graph::Expression,
)
    requires
        crate::graph::unary_result_ok(pre, post, e, k, r),
        e.spec_tensor() is Some,
        pre.tensors@.len() < usize::MAX,
    ensures
        r.tracks_grad(post) <==> e.tracks_grad(pre),
{
}

/// A binary result tracks gradients exactly when one of its tensor
/// operands did.
pub proof fn lemma_binary_grad_propagation(
    pre: crate::graph::Graph,
    post: crate::graph::Graph,
    lhs: crate::graph::Expression,
    rhs: crate::graph::Expression,
    k: BinaryOp,
    r: Result<crate::graph::Expression, crate::graph::ShapeMismatch>,
)
    requires
        crate::graph::binary_result_ok(pre, post, lhs, rhs, k, r),
        r is Ok,
        pre.tensors@.len() < usize::MAX,
    ensures
        (r->Ok_0).tracks_grad(post) <==> (lhs.tracks_grad(pre) || rhs.tracks_grad(pre)),
{
}

/// A smoothed comparison carries a gradient identity exactly when a tensor
/// operand tracks gradients; with no such operand it is downgraded.
pub proof fn lemma_smoothed_cmp_tracks_iff_needed(
    pre: crate::graph::Graph,
    post: crate::graph::Graph,
    lhs: crate::graph::Expression,
    rhs: crate::graph::Expression,
    op: CmpOp,
    m: CmpMethod,
    r: Result<crate::graph::Expression, crate::graph::ShapeMismatch>,
)
    requires
        crate::graph::cmp_result_ok(pre, post, lhs, rhs, op, m, r),
        r is Ok,
        !(m is Discret),
        lhs.spec_tensor() is Some || rhs.spec_tensor() is Some,
        pre.tensors@.len() < usize::MAX,
    ensures
        (r->Ok_0).tracks_grad(post) <==> (lhs.tracks_grad(pre) || rhs.tracks_grad(pre)),
{
}

/// An exact-method comparison never carries a gradient identity, even when
/// both tensor operands track gradients.
pub proof fn lemma_discrete_cmp_never_tracks(
    pre: crate::graph::Graph,
    post: crate::graph::Graph,
    lhs: crate::graph::Expression,
    rhs: crate::graph::Expression,
    op: CmpOp,
    r: Result<crate::graph::Expression, crate::graph::ShapeMismatch>,
)
    requires
        crate::graph::cmp_result_ok(pre, post, lhs, rhs, op, CmpMethod::Discret, r),
        r is Ok,
        pre.tensors@.len() < usize::MAX,
    ensures
        !(r->Ok_0).tracks_grad(post),
{
}

} // verus!
