//! The unary operator catalog: forward rules and additive backward rules.

use vstd::prelude::*;

use crate::fp::{
    add_bits, ceil_bits, cos_bits, div_bits, erf_bits, exp_bits, floor_bits, fp_add, fp_ceil,
    fp_cos, fp_div, fp_erf, fp_exp, fp_floor, fp_ln, fp_mul, fp_round, fp_sin, fp_sqrt, fp_sub,
    fp_tan, fp_tanh, ln_bits, mag_bits, mul_bits, neg_bits, round_bits, sign_set, signum_bits,
    sin_bits, sqrt_bits, sub_bits, tan_bits, tanh_bits, Fp, HALF_BITS, ONE_BITS, PI_BITS,
    THREE_BITS, TWO_BITS,
};

verus! {

/// The unary operators of the catalog.
#[derive(Clone, Copy, PartialEq, Eq, Structural, Debug)]
pub enum UnaryOp {
    LogicNot,
    Neg,
    Sin,
    Cos,
    Tanh,
    Tan,
    Ceil,
    Floor,
    Round,
    Sign,
    Sqrt,
    Sqr,
    Cubic,
    Log,
    Exp,
    Abs,
    Erf,
}

/// The forward rule of each unary operator, on bit patterns.
pub open spec fn unary_fwd_bits(k: UnaryOp, x: u64) -> u64 {
    match k {
        UnaryOp::LogicNot => sub_bits(ONE_BITS, x),
        UnaryOp::Neg => neg_bits(x),
        UnaryOp::Sin => sin_bits(x),
        UnaryOp::Cos => cos_bits(x),
        UnaryOp::Tanh => tanh_bits(x),
        UnaryOp::Tan => tan_bits(x),
        UnaryOp::Ceil => ceil_bits(x),
        UnaryOp::Floor => floor_bits(x),
        UnaryOp::Round => round_bits(x),
        UnaryOp::Sign => signum_bits(x),
        UnaryOp::Sqrt => sqrt_bits(x),
        UnaryOp::Sqr => mul_bits(x, x),
        UnaryOp::Cubic => mul_bits(mul_bits(x, x), x),
        UnaryOp::Log => ln_bits(x),
        UnaryOp::Exp => exp_bits(x),
        UnaryOp::Abs => mag_bits(x),
        UnaryOp::Erf => erf_bits(x),
    }
}

/// The derivative factor of the error function: `2/sqrt(pi) * exp(-x*x)`.
pub open spec fn erf_grad_bits(x: u64) -> u64 {
    mul_bits(
        div_bits(TWO_BITS, sqrt_bits(PI_BITS)),
        exp_bits(mul_bits(neg_bits(x), x)),
    )
}

/// The accumulator after the backward rule of a unary operator has added its
/// local contribution: `None` for the operators declared non-differentiable
/// (`ceil`, `floor`, `round`, `sign`), whose rule leaves the accumulator
/// unchanged and reports the missing gradient instead.
pub open spec fn unary_bwd_bits(k: UnaryOp, x: u64, res: u64, grad: u64, acc: u64) -> Option<
    u64,
> {
    match k {
        UnaryOp::LogicNot => Some(sub_bits(acc, grad)),
        UnaryOp::Neg => Some(sub_bits(acc, grad)),
        UnaryOp::Sin => Some(add_bits(acc, mul_bits(grad, cos_bits(x)))),
        UnaryOp::Cos => Some(sub_bits(acc, mul_bits(grad, sin_bits(x)))),
        UnaryOp::Tanh => Some(sub_bits(acc, mul_bits(grad, sub_bits(mul_bits(res, res), ONE_BITS)))),
        UnaryOp::Tan => Some(add_bits(acc, mul_bits(grad, add_bits(mul_bits(res, res), ONE_BITS)))),
        UnaryOp::Ceil => None,
        UnaryOp::Floor => None,
        UnaryOp::Round => None,
        UnaryOp::Sign => None,
        UnaryOp::Sqrt => Some(add_bits(acc, div_bits(mul_bits(grad, HALF_BITS), res))),
        UnaryOp::Sqr => Some(add_bits(acc, mul_bits(mul_bits(grad, TWO_BITS), x))),
        UnaryOp::Cubic => Some(
            add_bits(acc, mul_bits(mul_bits(mul_bits(grad, THREE_BITS), x), x)),
        ),
        UnaryOp::Log => Some(add_bits(acc, div_bits(grad, x))),
        UnaryOp::Exp => Some(add_bits(acc, mul_bits(grad, res))),
        UnaryOp::Abs => if !sign_set(x) {
            Some(add_bits(acc, grad))
        } else {
            Some(sub_bits(acc, grad))
        },
        UnaryOp::Erf => Some(add_bits(acc, mul_bits(grad, erf_grad_bits(x)))),
    }
}

impl UnaryOp {
    /// The forward value of the operator on one scalar.
    pub fn forward(self, x: Fp) -> (r: Fp)
        ensures
            r.bits == unary_fwd_bits(self, x.bits),
    {
        match self {
            UnaryOp::LogicNot => fp_sub(Fp { bits: ONE_BITS }, x),
            UnaryOp::Neg => x.neg(),
            UnaryOp::Sin => fp_sin(x),
            UnaryOp::Cos => fp_cos(x),
            UnaryOp::Tanh => fp_tanh(x),
            UnaryOp::Tan => fp_tan(x),
            UnaryOp::Ceil => fp_ceil(x),
            UnaryOp::Floor => fp_floor(x),
            UnaryOp::Round => fp_round(x),
            UnaryOp::Sign => x.signum(),
            UnaryOp::Sqrt => fp_sqrt(x),
            UnaryOp::Sqr => fp_mul(x, x),
            UnaryOp::Cubic => fp_mul(fp_mul(x, x), x),
            UnaryOp::Log => fp_ln(x),
            UnaryOp::Exp => fp_exp(x),
            UnaryOp::Abs => x.abs(),
            UnaryOp::Erf => fp_erf(x),
        }
    }

    /// Adds the operator's local derivative contribution to the accumulator.
    ///
    /// Returns `false`, leaving the accumulator untouched, for the operators
    /// whose backward rule is a declared non-differentiable point; the
    /// caller goes on treating the missing gradient as zero.
    pub fn backward(self, x: Fp, res: Fp, grad: Fp, acc: &mut Fp) -> (ok: bool)
        ensures
            match unary_bwd_bits(self, x.bits, res.bits, grad.bits, old(acc).bits) {
                Some(v) => ok && final(acc).bits == v,
                None => !ok && *final(acc) == *old(acc),
            },
    {
        match self {
            UnaryOp::LogicNot => {
                *acc = fp_sub(*acc, grad);
                true
            },
            UnaryOp::Neg => {
                *acc = fp_sub(*acc, grad);
                true
            },
            UnaryOp::Sin => {
                *acc = fp_add(*acc, fp_mul(grad, fp_cos(x)));
                true
            },
            UnaryOp::Cos => {
                *acc = fp_sub(*acc, fp_mul(grad, fp_sin(x)));
                true
            },
            UnaryOp::Tanh => {
                let minus_dtanh = fp_sub(fp_mul(res, res), Fp { bits: ONE_BITS });
                *acc = fp_sub(*acc, fp_mul(grad, minus_dtanh));
                true
            },
            UnaryOp::Tan => {
                let dtan = fp_add(fp_mul(res, res), Fp { bits: ONE_BITS });
                *acc = fp_add(*acc, fp_mul(grad, dtan));
                true
            },
            UnaryOp::Ceil => false,
            UnaryOp::Floor => false,
            UnaryOp::Round => false,
            UnaryOp::Sign => false,
            UnaryOp::Sqrt => {
                *acc = fp_add(*acc, fp_div(fp_mul(grad, Fp { bits: HALF_BITS }), res));
                true
            },
            UnaryOp::Sqr => {
                *acc = fp_add(*acc, fp_mul(fp_mul(grad, Fp { bits: TWO_BITS }), x));
                true
            },
            UnaryOp::Cubic => {
                *acc = fp_add(*acc, fp_mul(fp_mul(fp_mul(grad, Fp { bits: THREE_BITS }), x), x));
                true
            },
            UnaryOp::Log => {
                *acc = fp_add(*acc, fp_div(grad, x));
                true
            },
            UnaryOp::Exp => {
                *acc = fp_add(*acc, fp_mul(grad, res));
                true
            },
            UnaryOp::Abs => {
                if x.is_sign_positive() {
                    *acc = fp_add(*acc, grad);
                } else {
                    *acc = fp_sub(*acc, grad);
                }
                true
            },
            UnaryOp::Erf => {
                let scale = fp_div(Fp { bits: TWO_BITS }, fp_sqrt(Fp { bits: PI_BITS }));
                let erf_grad = fp_mul(scale, fp_exp(fp_mul(x.neg(), x)));
                *acc = fp_add(*acc, fp_mul(grad, erf_grad));
                true
            },
        }
    }
    /// The forward values of the operator over a whole buffer.
    pub fn forward_iter(self, xs: &Vec<Fp>) -> (r: Vec<Fp>)
        ensures
            r@.len() == xs@.len(),
            forall|i: int|
                0 <= i < r@.len() ==> r@[i].bits == unary_fwd_bits(self, xs@[i].bits),
    {
        let mut out: Vec<Fp> = Vec::new();
        let mut i: usize = 0;
        while i < xs.len()
            invariant
                i <= xs@.len(),
                out@.len() == i,
                forall|j: int|
                    0 <= j < i as int ==> out@[j].bits == unary_fwd_bits(self, xs@[j].bits),
            decreases xs@.len() - i,
        {
            out.push(self.forward(xs[i]));
            i = i + 1;
        }
        out
    }
}

} // verus!
