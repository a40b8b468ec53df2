//! The comparison catalog: six relations, each under one of three smoothing
//! methods that trade the exact 0/1 answer for a differentiable surrogate.
//!
//! The derived relations reuse the primitives: `ne` is `1 - eq`, and `ge`
//! and `gt` are `le` and `lt` with their operands swapped.

use vstd::prelude::*;

use crate::fp::{
    add_bits, div_bits, exp_bits, fp_add, fp_div, fp_exp, fp_mul, fp_sub, is_zero_bits, mag_bits,
    mul_bits, neg_bits, ord_key, sign_set, signum_bits, sub_bits, Fp, HALF_BITS, ONE_BITS,
    TWO_BITS,
};

verus! {

/// The six comparison relations.
#[derive(Clone, Copy, PartialEq, Eq, Structural, Debug)]
pub enum CmpOp {
    Eq,
    Ne,
    Le,
    Ge,
    Lt,
    Gt,
}

/// The exact comparison: 0 or 1 after the engine's total order, with no
/// gradient.
#[derive(Clone, Copy, PartialEq, Eq, Structural, Debug)]
pub struct CmpMethodDiscret;

/// The linear surrogate: a ramp of half-width `epsilon` around the flip
/// point, exactly 0 or 1 outside it.
#[derive(Clone, Copy, PartialEq, Eq, Structural, Debug)]
pub struct CmpMethodLinear {
    pub epsilon: Fp,
}

/// The sigmoid surrogate: a Gaussian bump for `eq` and a logistic curve of
/// steepness `k` for the order relations.
#[derive(Clone, Copy, PartialEq, Eq, Structural, Debug)]
pub struct CmpMethodSigmoid {
    pub k: Fp,
}

/// The smoothing method of one comparison call.
#[derive(Clone, Copy, PartialEq, Eq, Structural, Debug)]
pub enum CmpMethod {
    Discret,
    Linear(CmpMethodLinear),
    Sigmoid(CmpMethodSigmoid),
}

/// Whether a method can carry a gradient: the exact comparison cannot.
pub open spec fn cmp_method_differentiable(m: CmpMethod) -> bool {
    match m {
        CmpMethod::Discret => false,
        CmpMethod::Linear(_) => true,
        CmpMethod::Sigmoid(_) => true,
    }
}

impl CmpMethod {
    /// The sigmoid method of steepness `k`; `k` must not be negatively
    /// signed.
    pub fn new_sigmoid(k: Fp) -> (r: CmpMethod)
        requires
            !sign_set(k.bits),
        ensures
            r == CmpMethod::Sigmoid(CmpMethodSigmoid { k }),
    {
        CmpMethod::Sigmoid(CmpMethodSigmoid { k })
    }

    /// The linear method of half-width `epsilon`; `epsilon` must not be
    /// negatively signed.
    pub fn new_linear(epsilon: Fp) -> (r: CmpMethod)
        requires
            !sign_set(epsilon.bits),
        ensures
            r == CmpMethod::Linear(CmpMethodLinear { epsilon }),
    {
        CmpMethod::Linear(CmpMethodLinear { epsilon })
    }

    /// Whether the method can carry a gradient.
    pub fn differentiable(&self) -> (r: bool)
        ensures
            r == cmp_method_differentiable(*self),
    {
        match self {
            CmpMethod::Discret => false,
            CmpMethod::Linear(_) => true,
            CmpMethod::Sigmoid(_) => true,
        }
    }
}

/// The forward rule of `eq` under each method.
pub open spec fn eq_fwd_bits(m: CmpMethod, l: u64, r: u64) -> u64 {
    match m {
        CmpMethod::Discret => if ord_key(l) == ord_key(r) {
            ONE_BITS
        } else {
            0
        },
        CmpMethod::Linear(lin) => {
            let ab = mag_bits(sub_bits(l, r));
            if ord_key(ab) < ord_key(lin.epsilon.bits) {
                sub_bits(ONE_BITS, div_bits(ab, lin.epsilon.bits))
            } else {
                0
            }
        },
        CmpMethod::Sigmoid(sig) => {
            let diff = sub_bits(l, r);
            exp_bits(mul_bits(mul_bits(neg_bits(sig.k.bits), diff), diff))
        },
    }
}

/// The forward rule of `le` under each method.
pub open spec fn le_fwd_bits(m: CmpMethod, l: u64, r: u64) -> u64 {
    match m {
        CmpMethod::Discret => if ord_key(l) <= ord_key(r) {
            ONE_BITS
        } else {
            0
        },
        CmpMethod::Linear(lin) => {
            let d = sub_bits(l, r);
            let e = lin.epsilon.bits;
            if ord_key(d) > ord_key(e) {
                0
            } else if ord_key(d) < ord_key(neg_bits(e)) {
                ONE_BITS
            } else {
                sub_bits(HALF_BITS, div_bits(d, mul_bits(TWO_BITS, e)))
            }
        },
        CmpMethod::Sigmoid(sig) => div_bits(
            ONE_BITS,
            add_bits(ONE_BITS, exp_bits(mul_bits(sig.k.bits, sub_bits(l, r)))),
        ),
    }
}

/// The forward rule of `lt`: exact strict order, and the same curve as `le`
/// under the smoothed methods.
pub open spec fn lt_fwd_bits(m: CmpMethod, l: u64, r: u64) -> u64 {
    match m {
        CmpMethod::Discret => if ord_key(l) < ord_key(r) {
            ONE_BITS
        } else {
            0
        },
        _ => le_fwd_bits(m, l, r),
    }
}

/// The forward rule of `ne`: the complement of `eq`, computed as `1 - eq`
/// under the smoothed methods.
pub open spec fn ne_fwd_bits(m: CmpMethod, l: u64, r: u64) -> u64 {
    match m {
        CmpMethod::Discret => if ord_key(l) != ord_key(r) {
            ONE_BITS
        } else {
            0
        },
        _ => sub_bits(ONE_BITS, eq_fwd_bits(m, l, r)),
    }
}

/// The forward rule of `ge`: `le` with its operands swapped.
pub open spec fn ge_fwd_bits(m: CmpMethod, l: u64, r: u64) -> u64 {
    le_fwd_bits(m, r, l)
}

/// The forward rule of `gt`: `lt` with its operands swapped.
pub open spec fn gt_fwd_bits(m: CmpMethod, l: u64, r: u64) -> u64 {
    lt_fwd_bits(m, r, l)
}

/// The forward rule of any relation under any method.
pub open spec fn cmp_fwd_bits(op: CmpOp, m: CmpMethod, l: u64, r: u64) -> u64 {
    match op {
        CmpOp::Eq => eq_fwd_bits(m, l, r),
        CmpOp::Ne => ne_fwd_bits(m, l, r),
        CmpOp::Le => le_fwd_bits(m, l, r),
        CmpOp::Ge => ge_fwd_bits(m, l, r),
        CmpOp::Lt => lt_fwd_bits(m, l, r),
        CmpOp::Gt => gt_fwd_bits(m, l, r),
    }
}

/// The slope term of the linear `eq` ramp: `grad * sign(l - r) / epsilon`.
pub open spec fn linear_eq_slope_bits(eps: u64, l: u64, r: u64, grad: u64) -> u64 {
    div_bits(mul_bits(grad, signum_bits(sub_bits(l, r))), eps)
}

/// Whether the operands are within the linear band: `|l - r| <= epsilon`.
pub open spec fn linear_in_band(eps: u64, l: u64, r: u64) -> bool {
    ord_key(mag_bits(sub_bits(l, r))) <= ord_key(eps)
}

/// The constant slope of the linear `le` ramp: `grad / (2 * epsilon)`.
pub open spec fn linear_le_slope_bits(eps: u64, grad: u64) -> u64 {
    div_bits(grad, mul_bits(TWO_BITS, eps))
}

/// The magnitude of the sigmoid `eq` contribution:
/// `grad * 2 * (k * diff) * exp(-(k * diff) * diff)`.
pub open spec fn sigmoid_eq_term_bits(k: u64, l: u64, r: u64, grad: u64) -> u64 {
    let diff = sub_bits(l, r);
    let kdiff = mul_bits(k, diff);
    mul_bits(mul_bits(mul_bits(grad, TWO_BITS), kdiff), exp_bits(mul_bits(neg_bits(kdiff), diff)))
}

/// The magnitude of the sigmoid `le` contribution:
/// `grad * k * sigma * (1 - sigma)` for the logistic value `sigma`.
pub open spec fn sigmoid_le_term_bits(k: u64, l: u64, r: u64, grad: u64) -> u64 {
    let sigma = div_bits(ONE_BITS, add_bits(ONE_BITS, exp_bits(mul_bits(k, sub_bits(l, r)))));
    mul_bits(mul_bits(mul_bits(grad, k), sigma), sub_bits(ONE_BITS, sigma))
}

/// The accumulator after a comparison's backward rule has added its
/// contribution toward the left operand.  The exact method contributes
/// nothing.
pub open spec fn cmp_bwd_lhs_bits(
    op: CmpOp,
    m: CmpMethod,
    l: u64,
    r: u64,
    res: u64,
    grad: u64,
    acc: u64,
) -> u64 {
    match m {
        CmpMethod::Discret => acc,
        CmpMethod::Linear(lin) => {
            let eps = lin.epsilon.bits;
            match op {
                CmpOp::Eq => if !is_zero_bits(res) {
                    sub_bits(acc, linear_eq_slope_bits(eps, l, r, grad))
                } else {
                    acc
                },
                CmpOp::Ne => if res != ONE_BITS {
                    add_bits(acc, linear_eq_slope_bits(eps, l, r, grad))
                } else {
                    acc
                },
                CmpOp::Le | CmpOp::Lt => if linear_in_band(eps, l, r) {
                    sub_bits(acc, linear_le_slope_bits(eps, grad))
                } else {
                    acc
                },
                CmpOp::Ge | CmpOp::Gt => if linear_in_band(eps, l, r) {
                    add_bits(acc, linear_le_slope_bits(eps, grad))
                } else {
                    acc
                },
            }
        },
        CmpMethod::Sigmoid(sig) => {
            let k = sig.k.bits;
            match op {
                CmpOp::Eq => sub_bits(acc, sigmoid_eq_term_bits(k, l, r, grad)),
                CmpOp::Ne => add_bits(acc, sigmoid_eq_term_bits(k, l, r, grad)),
                CmpOp::Le | CmpOp::Lt => sub_bits(acc, sigmoid_le_term_bits(k, l, r, grad)),
                CmpOp::Ge | CmpOp::Gt => add_bits(acc, sigmoid_le_term_bits(k, l, r, grad)),
            }
        },
    }
}

/// The accumulator after a comparison's backward rule has added its
/// contribution toward the right operand: the mirror image of the left
/// rule.
pub open spec fn cmp_bwd_rhs_bits(
    op: CmpOp,
    m: CmpMethod,
    l: u64,
    r: u64,
    res: u64,
    grad: u64,
    acc: u64,
) -> u64 {
    match m {
        CmpMethod::Discret => acc,
        CmpMethod::Linear(lin) => {
            let eps = lin.epsilon.bits;
            match op {
                CmpOp::Eq => if !is_zero_bits(res) {
                    add_bits(acc, linear_eq_slope_bits(eps, l, r, grad))
                } else {
                    acc
                },
                CmpOp::Ne => if res != ONE_BITS {
                    sub_bits(acc, linear_eq_slope_bits(eps, l, r, grad))
                } else {
                    acc
                },
                CmpOp::Le | CmpOp::Lt => if linear_in_band(eps, l, r) {
                    add_bits(acc, linear_le_slope_bits(eps, grad))
                } else {
                    acc
                },
                CmpOp::Ge | CmpOp::Gt => if linear_in_band(eps, l, r) {
                    sub_bits(acc, linear_le_slope_bits(eps, grad))
                } else {
                    acc
                },
            }
        },
        CmpMethod::Sigmoid(sig) => {
            let k = sig.k.bits;
            match op {
                CmpOp::Eq => add_bits(acc, sigmoid_eq_term_bits(k, l, r, grad)),
                CmpOp::Ne => sub_bits(acc, sigmoid_eq_term_bits(k, l, r, grad)),
                CmpOp::Le | CmpOp::Lt => add_bits(acc, sigmoid_le_term_bits(k, l, r, grad)),
                CmpOp::Ge | CmpOp::Gt => sub_bits(acc, sigmoid_le_term_bits(k, l, r, grad)),
            }
        },
    }
}

impl CmpMethodDiscret {
    /// Exact equality in the total order: 1 or 0.
    pub fn eq_forward(&self, lhs: Fp, rhs: Fp) -> (r: Fp)
        ensures
            r.bits == eq_fwd_bits(CmpMethod::Discret, lhs.bits, rhs.bits),
    {
        if lhs.total_eq(rhs) {
            Fp { bits: ONE_BITS }
        } else {
            Fp { bits: 0 }
        }
    }

    /// Exact inequality in the total order: 1 or 0.
    pub fn ne_forward(&self, lhs: Fp, rhs: Fp) -> (r: Fp)
        ensures
            r.bits == ne_fwd_bits(CmpMethod::Discret, lhs.bits, rhs.bits),
    {
        if lhs.total_eq(rhs) {
            Fp { bits: 0 }
        } else {
            Fp { bits: ONE_BITS }
        }
    }

    /// Exact order test `lhs <= rhs`: 1 or 0.
    pub fn le_forward(&self, lhs: Fp, rhs: Fp) -> (r: Fp)
        ensures
            r.bits == le_fwd_bits(CmpMethod::Discret, lhs.bits, rhs.bits),
    {
        if lhs.total_le(rhs) {
            Fp { bits: ONE_BITS }
        } else {
            Fp { bits: 0 }
        }
    }

    /// Exact order test `lhs >= rhs`: 1 or 0.
    pub fn ge_forward(&self, lhs: Fp, rhs: Fp) -> (r: Fp)
        ensures
            r.bits == ge_fwd_bits(CmpMethod::Discret, lhs.bits, rhs.bits),
    {
        self.le_forward(rhs, lhs)
    }

    /// Exact order test `lhs < rhs`: 1 or 0.
    pub fn lt_forward(&self, lhs: Fp, rhs: Fp) -> (r: Fp)
        ensures
            r.bits == lt_fwd_bits(CmpMethod::Discret, lhs.bits, rhs.bits),
    {
        if lhs.total_lt(rhs) {
            Fp { bits: ONE_BITS }
        } else {
            Fp { bits: 0 }
        }
    }

    /// Exact order test `lhs > rhs`: 1 or 0.
    pub fn gt_forward(&self, lhs: Fp, rhs: Fp) -> (r: Fp)
        ensures
            r.bits == gt_fwd_bits(CmpMethod::Discret, lhs.bits, rhs.bits),
    {
        self.lt_forward(rhs, lhs)
    }
}

impl CmpMethodLinear {
    /// The triangular ramp `1 - |l - r|/epsilon`, exactly 0 outside the
    /// band.
    pub fn eq_forward(&self, lhs: Fp, rhs: Fp) -> (r: Fp)
        ensures
            r.bits == eq_fwd_bits(CmpMethod::Linear(*self), lhs.bits, rhs.bits),
    {
        let ab = fp_sub(lhs, rhs).abs();
        if ab.total_lt(self.epsilon) {
            fp_sub(Fp { bits: ONE_BITS }, fp_div(ab, self.epsilon))
        } else {
            Fp { bits: 0 }
        }
    }

    /// The complement ramp, computed as `1 - eq`.
    pub fn ne_forward(&self, lhs: Fp, rhs: Fp) -> (r: Fp)
        ensures
            r.bits == ne_fwd_bits(CmpMethod::Linear(*self), lhs.bits, rhs.bits),
    {
        fp_sub(Fp { bits: ONE_BITS }, self.eq_forward(lhs, rhs))
    }

    /// The descending ramp `1/2 - (l - r)/(2 epsilon)`, clamped at exactly
    /// 0 and 1 outside the band.
    pub fn le_forward(&self, lhs: Fp, rhs: Fp) -> (r: Fp)
        ensures
            r.bits == le_fwd_bits(CmpMethod::Linear(*self), lhs.bits, rhs.bits),
    {
        let diff = fp_sub(lhs, rhs);
        if self.epsilon.total_lt(diff) {
            Fp { bits: 0 }
        } else if diff.total_lt(self.epsilon.neg()) {
            Fp { bits: ONE_BITS }
        } else {
            fp_sub(
                Fp { bits: HALF_BITS },
                fp_div(diff, fp_mul(Fp { bits: TWO_BITS }, self.epsilon)),
            )
        }
    }

    /// `ge` is `le` with the operands swapped.
    pub fn ge_forward(&self, lhs: Fp, rhs: Fp) -> (r: Fp)
        ensures
            r.bits == ge_fwd_bits(CmpMethod::Linear(*self), lhs.bits, rhs.bits),
    {
        self.le_forward(rhs, lhs)
    }

    /// `lt` shares the `le` ramp.
    pub fn lt_forward(&self, lhs: Fp, rhs: Fp) -> (r: Fp)
        ensures
            r.bits == lt_fwd_bits(CmpMethod::Linear(*self), lhs.bits, rhs.bits),
    {
        self.le_forward(lhs, rhs)
    }

    /// `gt` is `lt` with the operands swapped.
    pub fn gt_forward(&self, lhs: Fp, rhs: Fp) -> (r: Fp)
        ensures
            r.bits == gt_fwd_bits(CmpMethod::Linear(*self), lhs.bits, rhs.bits),
    {
        self.lt_forward(rhs, lhs)
    }
}

impl CmpMethodSigmoid {
    /// The Gaussian bump `exp(-k (l - r)^2)`.
    pub fn eq_forward(&self, lhs: Fp, rhs: Fp) -> (r: Fp)
        ensures
            r.bits == eq_fwd_bits(CmpMethod::Sigmoid(*self), lhs.bits, rhs.bits),
    {
        let diff = fp_sub(lhs, rhs);
        fp_exp(fp_mul(fp_mul(self.k.neg(), diff), diff))
    }

    /// The complement bump, computed as `1 - eq`.
    pub fn ne_forward(&self, lhs: Fp, rhs: Fp) -> (r: Fp)
        ensures
            r.bits == ne_fwd_bits(CmpMethod::Sigmoid(*self), lhs.bits, rhs.bits),
    {
        fp_sub(Fp { bits: ONE_BITS }, self.eq_forward(lhs, rhs))
    }

    /// The logistic curve `1 / (1 + exp(k (l - r)))`.
    pub fn le_forward(&self, lhs: Fp, rhs: Fp) -> (r: Fp)
        ensures
            r.bits == le_fwd_bits(CmpMethod::Sigmoid(*self), lhs.bits, rhs.bits),
    {
        let one = Fp { bits: ONE_BITS };
        fp_div(one, fp_add(one, fp_exp(fp_mul(self.k, fp_sub(lhs, rhs)))))
    }

    /// `ge` is `le` with the operands swapped.
    pub fn ge_forward(&self, lhs: Fp, rhs: Fp) -> (r: Fp)
        ensures
            r.bits == ge_fwd_bits(CmpMethod::Sigmoid(*self), lhs.bits, rhs.bits),
    {
        self.le_forward(rhs, lhs)
    }

    /// `lt` shares the `le` curve.
    pub fn lt_forward(&self, lhs: Fp, rhs: Fp) -> (r: Fp)
        ensures
            r.bits == lt_fwd_bits(CmpMethod::Sigmoid(*self), lhs.bits, rhs.bits),
    {
        self.le_forward(lhs, rhs)
    }

    /// `gt` is `lt` with the operands swapped.
    pub fn gt_forward(&self, lhs: Fp, rhs: Fp) -> (r: Fp)
        ensures
            r.bits == gt_fwd_bits(CmpMethod::Sigmoid(*self), lhs.bits, rhs.bits),
    {
        self.lt_forward(rhs, lhs)
    }
}

impl CmpOp {
    /// The forward value of the relation under the method.
    pub fn forward(self, m: &CmpMethod, lhs: Fp, rhs: Fp) -> (r: Fp)
        ensures
            r.bits == cmp_fwd_bits(self, *m, lhs.bits, rhs.bits),
    {
        match m {
            CmpMethod::Discret => {
                let d = CmpMethodDiscret;
                match self {
                    CmpOp::Eq => d.eq_forward(lhs, rhs),
                    CmpOp::Ne => d.ne_forward(lhs, rhs),
                    CmpOp::Le => d.le_forward(lhs, rhs),
                    CmpOp::Ge => d.ge_forward(lhs, rhs),
                    CmpOp::Lt => d.lt_forward(lhs, rhs),
                    CmpOp::Gt => d.gt_forward(lhs, rhs),
                }
            },
            CmpMethod::Linear(lin) => match self {
                CmpOp::Eq => lin.eq_forward(lhs, rhs),
                CmpOp::Ne => lin.ne_forward(lhs, rhs),
                CmpOp::Le => lin.le_forward(lhs, rhs),
                CmpOp::Ge => lin.ge_forward(lhs, rhs),
                CmpOp::Lt => lin.lt_forward(lhs, rhs),
                CmpOp::Gt => lin.gt_forward(lhs, rhs),
            },
            CmpMethod::Sigmoid(sig) => match self {
                CmpOp::Eq => sig.eq_forward(lhs, rhs),
                CmpOp::Ne => sig.ne_forward(lhs, rhs),
                CmpOp::Le => sig.le_forward(lhs, rhs),
                CmpOp::Ge => sig.ge_forward(lhs, rhs),
                CmpOp::Lt => sig.lt_forward(lhs, rhs),
                CmpOp::Gt => sig.gt_forward(lhs, rhs),
            },
        }
    }

    /// Adds the relation's derivative contribution toward the left operand
    /// to the accumulator; the exact method contributes nothing.
    pub fn backward_lhs(self, m: &CmpMethod, lhs: Fp, rhs: Fp, res: Fp, grad: Fp, acc: &mut Fp)
        ensures
            final(acc).bits == cmp_bwd_lhs_bits(
                self,
                *m,
                lhs.bits,
                rhs.bits,
                res.bits,
                grad.bits,
                old(acc).bits,
            ),
    {
        match m {
            CmpMethod::Discret => {},
            CmpMethod::Linear(lin) => {
                match self {
                    CmpOp::Eq => {
                        if !res.is_zero() {
                            let slope = fp_div(
                                fp_mul(grad, fp_sub(lhs, rhs).signum()),
                                lin.epsilon,
                            );
                            *acc = fp_sub(*acc, slope);
                        }
                    },
                    CmpOp::Ne => {
                        if res.bits != ONE_BITS {
                            let slope = fp_div(
                                fp_mul(grad, fp_sub(lhs, rhs).signum()),
                                lin.epsilon,
                            );
                            *acc = fp_add(*acc, slope);
                        }
                    },
                    CmpOp::Le | CmpOp::Lt => {
                        if fp_sub(lhs, rhs).abs().total_le(lin.epsilon) {
                            let slope = fp_div(grad, fp_mul(Fp { bits: TWO_BITS }, lin.epsilon));
                            *acc = fp_sub(*acc, slope);
                        }
                    },
                    CmpOp::Ge | CmpOp::Gt => {
                        if fp_sub(lhs, rhs).abs().total_le(lin.epsilon) {
                            let slope = fp_div(grad, fp_mul(Fp { bits: TWO_BITS }, lin.epsilon));
                            *acc = fp_add(*acc, slope);
                        }
                    },
                }
            },
            CmpMethod::Sigmoid(sig) => {
                match self {
                    CmpOp::Eq => {
                        let term = sigmoid_eq_term(sig.k, lhs, rhs, grad);
                        *acc = fp_sub(*acc, term);
                    },
                    CmpOp::Ne => {
                        let term = sigmoid_eq_term(sig.k, lhs, rhs, grad);
                        *acc = fp_add(*acc, term);
                    },
                    CmpOp::Le | CmpOp::Lt => {
                        let term = sigmoid_le_term(sig.k, lhs, rhs, grad);
                        *acc = fp_sub(*acc, term);
                    },
                    CmpOp::Ge | CmpOp::Gt => {
                        let term = sigmoid_le_term(sig.k, lhs, rhs, grad);
                        *acc = fp_add(*acc, term);
                    },
                }
            },
        }
    }

    /// Adds the relation's derivative contribution toward the right operand
    /// to the accumulator; the exact method contributes nothing.
    pub fn backward_rhs(self, m: &CmpMethod, lhs: Fp, rhs: Fp, res: Fp, grad: Fp, acc: &mut Fp)
        ensures
            final(acc).bits == cmp_bwd_rhs_bits(
                self,
                *m,
                lhs.bits,
                rhs.bits,
                res.bits,
                grad.bits,
                old(acc).bits,
            ),
    {
        match m {
            CmpMethod::Discret => {},
            CmpMethod::Linear(lin) => {
                match self {
                    CmpOp::Eq => {
                        if !res.is_zero() {
                            let slope = fp_div(
                                fp_mul(grad, fp_sub(lhs, rhs).signum()),
                                lin.epsilon,
                            );
                            *acc = fp_add(*acc, slope);
                        }
                    },
                    CmpOp::Ne => {
                        if res.bits != ONE_BITS {
                            let slope = fp_div(
                                fp_mul(grad, fp_sub(lhs, rhs).signum()),
                                lin.epsilon,
                            );
                            *acc = fp_sub(*acc, slope);
                        }
                    },
                    CmpOp::Le | CmpOp::Lt => {
                        if fp_sub(lhs, rhs).abs().total_le(lin.epsilon) {
                            let slope = fp_div(grad, fp_mul(Fp { bits: TWO_BITS }, lin.epsilon));
                            *acc = fp_add(*acc, slope);
                        }
                    },
                    CmpOp::Ge | CmpOp::Gt => {
                        if fp_sub(lhs, rhs).abs().total_le(lin.epsilon) {
                            let slope = fp_div(grad, fp_mul(Fp { bits: TWO_BITS }, lin.epsilon));
                            *acc = fp_sub(*acc, slope);
                        }
                    },
                }
            },
            CmpMethod::Sigmoid(sig) => {
                match self {
                    CmpOp::Eq => {
                        let term = sigmoid_eq_term(sig.k, lhs, rhs, grad);
                        *acc = fp_add(*acc, term);
                    },
                    CmpOp::Ne => {
                        let term = sigmoid_eq_term(sig.k, lhs, rhs, grad);
                        *acc = fp_sub(*acc, term);
                    },
                    CmpOp::Le | CmpOp::Lt => {
                        let term = sigmoid_le_term(sig.k, lhs, rhs, grad);
                        *acc = fp_add(*acc, term);
                    },
                    CmpOp::Ge | CmpOp::Gt => {
                        let term = sigmoid_le_term(sig.k, lhs, rhs, grad);
                        *acc = fp_sub(*acc, term);
                    },
                }
            },
        }
    }
}

impl CmpOp {
    /// The forward values of the relation over two buffers of equal length.
    pub fn forward_iter(self, m: &CmpMethod, ls: &Vec<Fp>, rs: &Vec<Fp>) -> (r: Vec<Fp>)
        requires
            ls@.len() == rs@.len(),
        ensures
            r@.len() == ls@.len(),
            forall|i: int|
                0 <= i < r@.len() ==> r@[i].bits == cmp_fwd_bits(
                    self,
                    *m,
                    ls@[i].bits,
                    rs@[i].bits,
                ),
    {
        let mut out: Vec<Fp> = Vec::new();
        let mut i: usize = 0;
        while i < ls.len()
            invariant
                i <= ls@.len(),
                ls@.len() == rs@.len(),
                out@.len() == i,
                forall|j: int|
                    0 <= j < i as int ==> out@[j].bits == cmp_fwd_bits(
                        self,
                        *m,
                        ls@[j].bits,
                        rs@[j].bits,
                    ),
            decreases ls@.len() - i,
        {
            out.push(self.forward(m, ls[i], rs[i]));
            i = i + 1;
        }
        out
    }

    /// The forward values with a fixed left scalar broadcast against a
    /// buffer of right operands.
    pub fn forward_iter_fix_lhs(self, m: &CmpMethod, lhs: Fp, rs: &Vec<Fp>) -> (r: Vec<Fp>)
        ensures
            r@.len() == rs@.len(),
            forall|i: int|
                0 <= i < r@.len() ==> r@[i].bits == cmp_fwd_bits(
                    self,
                    *m,
                    lhs.bits,
                    rs@[i].bits,
                ),
    {
        let mut out: Vec<Fp> = Vec::new();
        let mut i: usize = 0;
        while i < rs.len()
            invariant
                i <= rs@.len(),
                out@.len() == i,
                forall|j: int|
                    0 <= j < i as int ==> out@[j].bits == cmp_fwd_bits(
                        self,
                        *m,
                        lhs.bits,
                        rs@[j].bits,
                    ),
            decreases rs@.len() - i,
        {
            out.push(self.forward(m, lhs, rs[i]));
            i = i + 1;
        }
        out
    }

    /// The forward values with a fixed right scalar broadcast against a
    /// buffer of left operands.
    pub fn forward_iter_fix_rhs(self, m: &CmpMethod, rhs: Fp, ls: &Vec<Fp>) -> (r: Vec<Fp>)
        ensures
            r@.len() == ls@.len(),
            forall|i: int|
                0 <= i < r@.len() ==> r@[i].bits == cmp_fwd_bits(
                    self,
                    *m,
                    ls@[i].bits,
                    rhs.bits,
                ),
    {
        let mut out: Vec<Fp> = Vec::new();
        let mut i: usize = 0;
        while i < ls.len()
            invariant
                i <= ls@.len(),
                out@.len() == i,
                forall|j: int|
                    0 <= j < i as int ==> out@[j].bits == cmp_fwd_bits(
                        self,
                        *m,
                        ls@[j].bits,
                        rhs.bits,
                    ),
            decreases ls@.len() - i,
        {
            out.push(self.forward(m, ls[i], rhs));
            i = i + 1;
        }
        out
    }

    /// Adds the relation's contribution toward the left operand into each
    /// slot of the accumulator buffer, elementwise over equal-length
    /// buffers.
    pub fn backward_lhs_iter(
        self,
        m: &CmpMethod,
        ls: &Vec<Fp>,
        rs: &Vec<Fp>,
        res: &Vec<Fp>,
        grad: &Vec<Fp>,
        acc: &mut Vec<Fp>,
    )
        requires
            ls@.len() == rs@.len(),
            ls@.len() == res@.len(),
            ls@.len() == grad@.len(),
            ls@.len() == old(acc)@.len(),
        ensures
            final(acc)@.len() == old(acc)@.len(),
            forall|i: int|
                0 <= i < old(acc)@.len() ==> final(acc)@[i].bits == cmp_bwd_lhs_bits(
                    self,
                    *m,
                    ls@[i].bits,
                    rs@[i].bits,
                    res@[i].bits,
                    grad@[i].bits,
                    old(acc)@[i].bits,
                ),
    {
        let mut i: usize = 0;
        while i < ls.len()
            invariant
                i <= ls@.len(),
                ls@.len() == rs@.len(),
                ls@.len() == res@.len(),
                ls@.len() == grad@.len(),
                ls@.len() == acc@.len(),
                acc@.len() == old(acc)@.len(),
                forall|j: int|
                    0 <= j < i as int ==> acc@[j].bits == cmp_bwd_lhs_bits(
                        self,
                        *m,
                        ls@[j].bits,
                        rs@[j].bits,
                        res@[j].bits,
                        grad@[j].bits,
                        old(acc)@[j].bits,
                    ),
                forall|j: int| i as int <= j < acc@.len() ==> acc@[j] == old(acc)@[j],
            decreases ls@.len() - i,
        {
            let mut cur = acc[i];
            self.backward_lhs(m, ls[i], rs[i], res[i], grad[i], &mut cur);
            acc.set(i, cur);
            i = i + 1;
        }
    }

    /// Adds the relation's contribution toward the right operand into each
    /// slot of the accumulator buffer, elementwise over equal-length
    /// buffers.
    pub fn backward_rhs_iter(
        self,
        m: &CmpMethod,
        ls: &Vec<Fp>,
        rs: &Vec<Fp>,
        res: &Vec<Fp>,
        grad: &Vec<Fp>,
        acc: &mut Vec<Fp>,
    )
        requires
            ls@.len() == rs@.len(),
            ls@.len() == res@.len(),
            ls@.len() == grad@.len(),
            ls@.len() == old(acc)@.len(),
        ensures
            final(acc)@.len() == old(acc)@.len(),
            forall|i: int|
                0 <= i < old(acc)@.len() ==> final(acc)@[i].bits == cmp_bwd_rhs_bits(
                    self,
                    *m,
                    ls@[i].bits,
                    rs@[i].bits,
                    res@[i].bits,
                    grad@[i].bits,
                    old(acc)@[i].bits,
                ),
    {
        let mut i: usize = 0;
        while i < ls.len()
            invariant
                i <= ls@.len(),
                ls@.len() == rs@.len(),
                ls@.len() == res@.len(),
                ls@.len() == grad@.len(),
                ls@.len() == acc@.len(),
                acc@.len() == old(acc)@.len(),
                forall|j: int|
                    0 <= j < i as int ==> acc@[j].bits == cmp_bwd_rhs_bits(
                        self,
                        *m,
                        ls@[j].bits,
                        rs@[j].bits,
                        res@[j].bits,
                        grad@[j].bits,
                        old(acc)@[j].bits,
                    ),
                forall|j: int| i as int <= j < acc@.len() ==> acc@[j] == old(acc)@[j],
            decreases ls@.len() - i,
        {
            let mut cur = acc[i];
            self.backward_rhs(m, ls[i], rs[i], res[i], grad[i], &mut cur);
            acc.set(i, cur);
            i = i + 1;
        }
    }

    /// The left-operand backward sweep when the right operand was a
    /// broadcast scalar.
    pub fn backward_lhs_iter_fix_rhs(
        self,
        m: &CmpMethod,
        rhs: Fp,
        ls: &Vec<Fp>,
        res: &Vec<Fp>,
        grad: &Vec<Fp>,
        acc: &mut Vec<Fp>,
    )
        requires
            ls@.len() == res@.len(),
            ls@.len() == grad@.len(),
            ls@.len() == old(acc)@.len(),
        ensures
            final(acc)@.len() == old(acc)@.len(),
            forall|i: int|
                0 <= i < old(acc)@.len() ==> final(acc)@[i].bits == cmp_bwd_lhs_bits(
                    self,
                    *m,
                    ls@[i].bits,
                    rhs.bits,
                    res@[i].bits,
                    grad@[i].bits,
                    old(acc)@[i].bits,
                ),
    {
        let mut i: usize = 0;
        while i < ls.len()
            invariant
                i <= ls@.len(),
                ls@.len() == res@.len(),
                ls@.len() == grad@.len(),
                ls@.len() == acc@.len(),
                acc@.len() == old(acc)@.len(),
                forall|j: int|
                    0 <= j < i as int ==> acc@[j].bits == cmp_bwd_lhs_bits(
                        self,
                        *m,
                        ls@[j].bits,
                        rhs.bits,
                        res@[j].bits,
                        grad@[j].bits,
                        old(acc)@[j].bits,
                    ),
                forall|j: int| i as int <= j < acc@.len() ==> acc@[j] == old(acc)@[j],
            decreases ls@.len() - i,
        {
            let mut cur = acc[i];
            self.backward_lhs(m, ls[i], rhs, res[i], grad[i], &mut cur);
            acc.set(i, cur);
            i = i + 1;
        }
    }

    /// The right-operand backward sweep when the left operand was a
    /// broadcast scalar.
    pub fn backward_rhs_iter_fix_lhs(
        self,
        m: &CmpMethod,
        lhs: Fp,
        rs: &Vec<Fp>,
        res: &Vec<Fp>,
        grad: &Vec<Fp>,
        acc: &mut Vec<Fp>,
    )
        requires
            rs@.len() == res@.len(),
            rs@.len() == grad@.len(),
            rs@.len() == old(acc)@.len(),
        ensures
            final(acc)@.len() == old(acc)@.len(),
            forall|i: int|
                0 <= i < old(acc)@.len() ==> final(acc)@[i].bits == cmp_bwd_rhs_bits(
                    self,
                    *m,
                    lhs.bits,
                    rs@[i].bits,
                    res@[i].bits,
                    grad@[i].bits,
                    old(acc)@[i].bits,
                ),
    {
        let mut i: usize = 0;
        while i < rs.len()
            invariant
                i <= rs@.len(),
                rs@.len() == res@.len(),
                rs@.len() == grad@.len(),
                rs@.len() == acc@.len(),
                acc@.len() == old(acc)@.len(),
                forall|j: int|
                    0 <= j < i as int ==> acc@[j].bits == cmp_bwd_rhs_bits(
                        self,
                        *m,
                        lhs.bits,
                        rs@[j].bits,
                        res@[j].bits,
                        grad@[j].bits,
                        old(acc)@[j].bits,
                    ),
                forall|j: int| i as int <= j < acc@.len() ==> acc@[j] == old(acc)@[j],
            decreases rs@.len() - i,
        {
            let mut cur = acc[i];
            self.backward_rhs(m, lhs, rs[i], res[i], grad[i], &mut cur);
            acc.set(i, cur);
            i = i + 1;
        }
    }
}

/// The magnitude of the sigmoid `eq` contribution, as executed.
fn sigmoid_eq_term(k: Fp, lhs: Fp, rhs: Fp, grad: Fp) -> (r: Fp)
    ensures
        r.bits == sigmoid_eq_term_bits(k.bits, lhs.bits, rhs.bits, grad.bits),
{
    let diff = fp_sub(lhs, rhs);
    let kdiff = fp_mul(k, diff);
    fp_mul(
        fp_mul(fp_mul(grad, Fp { bits: TWO_BITS }), kdiff),
        fp_exp(fp_mul(kdiff.neg(), diff)),
    )
}

/// The magnitude of the sigmoid `le` contribution, as executed.
fn sigmoid_le_term(k: Fp, lhs: Fp, rhs: Fp, grad: Fp) -> (r: Fp)
    ensures
        r.bits == sigmoid_le_term_bits(k.bits, lhs.bits, rhs.bits, grad.bits),
{
    let one = Fp { bits: ONE_BITS };
    let sigma = fp_div(one, fp_add(one, fp_exp(fp_mul(k, fp_sub(lhs, rhs)))));
    fp_mul(fp_mul(fp_mul(grad, k), sigma), fp_sub(one, sigma))
}

} // verus!
