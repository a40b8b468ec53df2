//! The binary operator catalog: forward rules and additive backward rules.

use vstd::prelude::*;

use crate::fp::{
    add_bits, div_bits, fp_add, fp_div, fp_ln, fp_mul, fp_powf, fp_sub, is_nan_bits, ln_bits,
    mul_bits, ord_key, powf_bits, sub_bits, Fp, ONE_BITS, TWO_BITS,
};

verus! {

/// The binary operators of the catalog.
#[derive(Clone, Copy, PartialEq, Eq, Structural, Debug)]
pub enum BinaryOp {
    Add,
    Sub,
    Mul,
    Div,
    Pow,
    Min,
    Max,
    LogicAnd,
    LogicOr,
}

/// The smaller operand in the engine's total order; a NaN operand is
/// passed over in favor of the other, and ties keep the left one.
pub open spec fn min_fwd_bits(l: u64, r: u64) -> u64 {
    if is_nan_bits(l) {
        r
    } else if is_nan_bits(r) {
        l
    } else if ord_key(l) <= ord_key(r) {
        l
    } else {
        r
    }
}

/// The larger operand in the engine's total order; a NaN operand is passed
/// over in favor of the other, and ties keep the right one, so that on
/// non-NaN operands `min` and `max` together always hand back both.
pub open spec fn max_fwd_bits(l: u64, r: u64) -> u64 {
    if is_nan_bits(l) {
        r
    } else if is_nan_bits(r) {
        l
    } else if ord_key(l) <= ord_key(r) {
        r
    } else {
        l
    }
}

/// The forward rule of each binary operator, on bit patterns.
pub open spec fn binary_fwd_bits(k: BinaryOp, l: u64, r: u64) -> u64 {
    match k {
        BinaryOp::Add => add_bits(l, r),
        BinaryOp::Sub => sub_bits(l, r),
        BinaryOp::Mul => mul_bits(l, r),
        BinaryOp::Div => div_bits(l, r),
        BinaryOp::Pow => powf_bits(l, r),
        BinaryOp::Min => min_fwd_bits(l, r),
        BinaryOp::Max => max_fwd_bits(l, r),
        BinaryOp::LogicAnd => mul_bits(l, r),
        BinaryOp::LogicOr => sub_bits(add_bits(l, r), mul_bits(l, r)),
    }
}

/// The accumulator after the backward rule of a binary operator has added
/// its contribution toward the left operand.  `min` and `max` route the
/// whole upstream gradient to the attaining operand and half of it to each
/// operand on an exact tie.
pub open spec fn binary_bwd_lhs_bits(k: BinaryOp, l: u64, r: u64, res: u64, grad: u64, acc: u64) -> u64 {
    match k {
        BinaryOp::Add => add_bits(acc, grad),
        BinaryOp::Sub => add_bits(acc, grad),
        BinaryOp::Mul => add_bits(acc, mul_bits(grad, r)),
        BinaryOp::Div => add_bits(acc, div_bits(grad, r)),
        BinaryOp::Pow => add_bits(acc, div_bits(mul_bits(mul_bits(grad, r), res), l)),
        BinaryOp::Min => if ord_key(l) < ord_key(r) {
            add_bits(acc, grad)
        } else if ord_key(l) == ord_key(r) {
            add_bits(acc, div_bits(grad, TWO_BITS))
        } else {
            acc
        },
        BinaryOp::Max => if ord_key(l) > ord_key(r) {
            add_bits(acc, grad)
        } else if ord_key(l) == ord_key(r) {
            add_bits(acc, div_bits(grad, TWO_BITS))
        } else {
            acc
        },
        BinaryOp::LogicAnd => add_bits(acc, mul_bits(grad, r)),
        BinaryOp::LogicOr => add_bits(acc, mul_bits(grad, sub_bits(ONE_BITS, r))),
    }
}

/// The accumulator after the backward rule of a binary operator has added
/// its contribution toward the right operand.
pub open spec fn binary_bwd_rhs_bits(k: BinaryOp, l: u64, r: u64, res: u64, grad: u64, acc: u64) -> u64 {
    match k {
        BinaryOp::Add => add_bits(acc, grad),
        BinaryOp::Sub => sub_bits(acc, grad),
        BinaryOp::Mul => add_bits(acc, mul_bits(grad, l)),
        BinaryOp::Div => sub_bits(acc, div_bits(mul_bits(grad, l), mul_bits(r, r))),
        BinaryOp::Pow => add_bits(acc, mul_bits(mul_bits(grad, res), ln_bits(l))),
        BinaryOp::Min => if ord_key(r) < ord_key(l) {
            add_bits(acc, grad)
        } else if ord_key(r) == ord_key(l) {
            add_bits(acc, div_bits(grad, TWO_BITS))
        } else {
            acc
        },
        BinaryOp::Max => if ord_key(r) > ord_key(l) {
            add_bits(acc, grad)
        } else if ord_key(r) == ord_key(l) {
            add_bits(acc, div_bits(grad, TWO_BITS))
        } else {
            acc
        },
        BinaryOp::LogicAnd => add_bits(acc, mul_bits(grad, l)),
        BinaryOp::LogicOr => add_bits(acc, mul_bits(grad, sub_bits(ONE_BITS, l))),
    }
}

impl BinaryOp {
    /// The forward value of the operator on one pair of scalars.
    pub fn forward(self, lhs: Fp, rhs: Fp) -> (r: Fp)
        ensures
            r.bits == binary_fwd_bits(self, lhs.bits, rhs.bits),
    {
        match self {
            BinaryOp::Add => fp_add(lhs, rhs),
            BinaryOp::Sub => fp_sub(lhs, rhs),
            BinaryOp::Mul => fp_mul(lhs, rhs),
            BinaryOp::Div => fp_div(lhs, rhs),
            BinaryOp::Pow => fp_powf(lhs, rhs),
            BinaryOp::Min => if lhs.is_nan() {
                rhs
            } else if rhs.is_nan() {
                lhs
            } else if lhs.total_le(rhs) {
                lhs
            } else {
                rhs
            },
            BinaryOp::Max => if lhs.is_nan() {
                rhs
            } else if rhs.is_nan() {
                lhs
            } else if lhs.total_le(rhs) {
                rhs
            } else {
                lhs
            },
            BinaryOp::LogicAnd => fp_mul(lhs, rhs),
            BinaryOp::LogicOr => fp_sub(fp_add(lhs, rhs), fp_mul(lhs, rhs)),
        }
    }

    /// Adds the operator's derivative contribution toward the left operand
    /// to the accumulator.
    pub fn backward_lhs(self, lhs: Fp, rhs: Fp, res: Fp, grad: Fp, acc: &mut Fp)
        ensures
            final(acc).bits == binary_bwd_lhs_bits(
                self,
                lhs.bits,
                rhs.bits,
                res.bits,
                grad.bits,
                old(acc).bits,
            ),
    {
        match self {
            BinaryOp::Add => {
                *acc = fp_add(*acc, grad);
            },
            BinaryOp::Sub => {
                *acc = fp_add(*acc, grad);
            },
            BinaryOp::Mul => {
                *acc = fp_add(*acc, fp_mul(grad, rhs));
            },
            BinaryOp::Div => {
                *acc = fp_add(*acc, fp_div(grad, rhs));
            },
            BinaryOp::Pow => {
                *acc = fp_add(*acc, fp_div(fp_mul(fp_mul(grad, rhs), res), lhs));
            },
            BinaryOp::Min => {
                if lhs.total_lt(rhs) {
                    *acc = fp_add(*acc, grad);
                } else if lhs.total_eq(rhs) {
                    *acc = fp_add(*acc, fp_div(grad, Fp { bits: TWO_BITS }));
                }
            },
            BinaryOp::Max => {
                if rhs.total_lt(lhs) {
                    *acc = fp_add(*acc, grad);
                } else if lhs.total_eq(rhs) {
                    *acc = fp_add(*acc, fp_div(grad, Fp { bits: TWO_BITS }));
                }
            },
            BinaryOp::LogicAnd => {
                *acc = fp_add(*acc, fp_mul(grad, rhs));
            },
            BinaryOp::LogicOr => {
                *acc = fp_add(*acc, fp_mul(grad, fp_sub(Fp { bits: ONE_BITS }, rhs)));
            },
        }
    }

    /// Adds the operator's derivative contribution toward the right operand
    /// to the accumulator.
    pub fn backward_rhs(self, lhs: Fp, rhs: Fp, res: Fp, grad: Fp, acc: &mut Fp)
        ensures
            final(acc).bits == binary_bwd_rhs_bits(
                self,
                lhs.bits,
                rhs.bits,
                res.bits,
                grad.bits,
                old(acc).bits,
            ),
    {
        match self {
            BinaryOp::Add => {
                *acc = fp_add(*acc, grad);
            },
            BinaryOp::Sub => {
                *acc = fp_sub(*acc, grad);
            },
            BinaryOp::Mul => {
                *acc = fp_add(*acc, fp_mul(grad, lhs));
            },
            BinaryOp::Div => {
                *acc = fp_sub(*acc, fp_div(fp_mul(grad, lhs), fp_mul(rhs, rhs)));
            },
            BinaryOp::Pow => {
                *acc = fp_add(*acc, fp_mul(fp_mul(grad, res), fp_ln(lhs)));
            },
            BinaryOp::Min => {
                if rhs.total_lt(lhs) {
                    *acc = fp_add(*acc, grad);
                } else if rhs.total_eq(lhs) {
                    *acc = fp_add(*acc, fp_div(grad, Fp { bits: TWO_BITS }));
                }
            },
            BinaryOp::Max => {
                if lhs.total_lt(rhs) {
                    *acc = fp_add(*acc, grad);
                } else if rhs.total_eq(lhs) {
                    *acc = fp_add(*acc, fp_div(grad, Fp { bits: TWO_BITS }));
                }
            },
            BinaryOp::LogicAnd => {
                *acc = fp_add(*acc, fp_mul(grad, lhs));
            },
            BinaryOp::LogicOr => {
                *acc = fp_add(*acc, fp_mul(grad, fp_sub(Fp { bits: ONE_BITS }, lhs)));
            },
        }
    }

    /// The forward values of the operator over two buffers of equal length.
    pub fn forward_iter(self, ls: &Vec<Fp>, rs: &Vec<Fp>) -> (r: Vec<Fp>)
        requires
            ls@.len() == rs@.len(),
        ensures
            r@.len() == ls@.len(),
            forall|i: int|
                0 <= i < r@.len() ==> r@[i].bits == binary_fwd_bits(
                    self,
                    ls@[i].bits,
                    rs@[i].bits,
                ),
    {
        let mut out: Vec<Fp> = Vec::new();
        let mut i: usize = 0;
        while i < ls.len()
            invariant
                i <= ls@.len(),
                ls@.len() == rs@.len(),
                out@.len() == i,
                forall|j: int|
                    0 <= j < i as int ==> out@[j].bits == binary_fwd_bits(
                        self,
                        ls@[j].bits,
                        rs@[j].bits,
                    ),
            decreases ls@.len() - i,
        {
            out.push(self.forward(ls[i], rs[i]));
            i = i + 1;
        }
        out
    }

    /// The forward values with a fixed left scalar broadcast against a
    /// buffer of right operands.
    pub fn forward_iter_fix_lhs(self, lhs: Fp, rs: &Vec<Fp>) -> (r: Vec<Fp>)
        ensures
            r@.len() == rs@.len(),
            forall|i: int|
                0 <= i < r@.len() ==> r@[i].bits == binary_fwd_bits(self, lhs.bits, rs@[i].bits),
    {
        let mut out: Vec<Fp> = Vec::new();
        let mut i: usize = 0;
        while i < rs.len()
            invariant
                i <= rs@.len(),
                out@.len() == i,
                forall|j: int|
                    0 <= j < i as int ==> out@[j].bits == binary_fwd_bits(
                        self,
                        lhs.bits,
                        rs@[j].bits,
                    ),
            decreases rs@.len() - i,
        {
            out.push(self.forward(lhs, rs[i]));
            i = i + 1;
        }
        out
    }

    /// The forward values with a fixed right scalar broadcast against a
    /// buffer of left operands.
    pub fn forward_iter_fix_rhs(self, ls: &Vec<Fp>, rhs: Fp) -> (r: Vec<Fp>)
        ensures
            r@.len() == ls@.len(),
            forall|i: int|
                0 <= i < r@.len() ==> r@[i].bits == binary_fwd_bits(self, ls@[i].bits, rhs.bits),
    {
        let mut out: Vec<Fp> = Vec::new();
        let mut i: usize = 0;
        while i < ls.len()
            invariant
                i <= ls@.len(),
                out@.len() == i,
                forall|j: int|
                    0 <= j < i as int ==> out@[j].bits == binary_fwd_bits(
                        self,
                        ls@[j].bits,
                        rhs.bits,
                    ),
            decreases ls@.len() - i,
        {
            out.push(self.forward(ls[i], rhs));
            i = i + 1;
        }
        out
    }
}

} // verus!
