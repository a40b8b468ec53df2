//! The smoothed ternary select and the broadcast power operator.

use vstd::prelude::*;

use crate::fp::{
    add_bits, fp_add, fp_mul, fp_powf, fp_sub, mul_bits, powf_bits, sub_bits, Fp, ONE_BITS,
};

verus! {

/// The smoothed select `cond * on_true + (1 - cond) * on_false`, with its
/// backward rules and its elementwise forms.
pub struct Cond;

/// The select blend on bit patterns.
pub open spec fn cond_fwd_bits(c: u64, t: u64, f: u64) -> u64 {
    add_bits(mul_bits(c, t), mul_bits(sub_bits(ONE_BITS, c), f))
}

/// The accumulator after the select's backward rule toward the condition:
/// adds `grad * (on_true - on_false)`.
pub open spec fn cond_bwd_cond_bits(t: u64, f: u64, grad: u64, acc: u64) -> u64 {
    add_bits(acc, mul_bits(grad, sub_bits(t, f)))
}

/// The accumulator after the select's backward rule toward the taken
/// branch: adds `cond * grad`.
pub open spec fn cond_bwd_true_bits(c: u64, grad: u64, acc: u64) -> u64 {
    add_bits(acc, mul_bits(c, grad))
}

/// The accumulator after the select's backward rule toward the other
/// branch: adds `(1 - cond) * grad`.
pub open spec fn cond_bwd_false_bits(c: u64, grad: u64, acc: u64) -> u64 {
    add_bits(acc, mul_bits(sub_bits(ONE_BITS, c), grad))
}

impl Cond {
    /// The select blend on one scalar triple; `cond` is meant to be a
    /// probability in `[0, 1]`, and an out-of-range value is passed through
    /// the same blend rather than corrected.
    pub fn forward(cond: Fp, on_true: Fp, on_false: Fp) -> (r: Fp)
        ensures
            r.bits == cond_fwd_bits(cond.bits, on_true.bits, on_false.bits),
    {
        fp_add(
            fp_mul(cond, on_true),
            fp_mul(fp_sub(Fp { bits: ONE_BITS }, cond), on_false),
        )
    }

    /// Adds the select's derivative contribution toward the condition.
    pub fn backward_cond(on_true: Fp, on_false: Fp, grad: Fp, acc: &mut Fp)
        ensures
            final(acc).bits == cond_bwd_cond_bits(
                on_true.bits,
                on_false.bits,
                grad.bits,
                old(acc).bits,
            ),
    {
        *acc = fp_add(*acc, fp_mul(grad, fp_sub(on_true, on_false)));
    }

    /// Adds the select's derivative contribution toward `on_true`.
    pub fn backward_on_true(cond: Fp, grad: Fp, acc: &mut Fp)
        ensures
            final(acc).bits == cond_bwd_true_bits(cond.bits, grad.bits, old(acc).bits),
    {
        *acc = fp_add(*acc, fp_mul(cond, grad));
    }

    /// Adds the select's derivative contribution toward `on_false`.
    pub fn backward_on_false(cond: Fp, grad: Fp, acc: &mut Fp)
        ensures
            final(acc).bits == cond_bwd_false_bits(cond.bits, grad.bits, old(acc).bits),
    {
        *acc = fp_add(*acc, fp_mul(fp_sub(Fp { bits: ONE_BITS }, cond), grad));
    }

    /// The blend of a condition vector against two scalar branches.
    pub fn iter_tensor_x_x(cond: &Vec<Fp>, on_true: Fp, on_false: Fp) -> (r: Vec<Fp>)
        ensures
            r@.len() == cond@.len(),
            forall|i: int|
                0 <= i < r@.len() ==> r@[i].bits == cond_fwd_bits(
                    cond@[i].bits,
                    on_true.bits,
                    on_false.bits,
                ),
    {
        let mut out: Vec<Fp> = Vec::new();
        let mut i: usize = 0;
        while i < cond.len()
            invariant
                i <= cond@.len(),
                out@.len() == i,
                forall|j: int|
                    0 <= j < i as int ==> out@[j].bits == cond_fwd_bits(
                        cond@[j].bits,
                        on_true.bits,
                        on_false.bits,
                    ),
            decreases cond@.len() - i,
        {
            out.push(Cond::forward(cond[i], on_true, on_false));
            i = i + 1;
        }
        out
    }

    /// The blend of a condition vector against a scalar `on_true` and a
    /// vector `on_false` of the same length.
    pub fn iter_tensor_x_tensor(cond: &Vec<Fp>, on_true: Fp, on_false: &Vec<Fp>) -> (r: Vec<Fp>)
        requires
            cond@.len() == on_false@.len(),
        ensures
            r@.len() == cond@.len(),
            forall|i: int|
                0 <= i < r@.len() ==> r@[i].bits == cond_fwd_bits(
                    cond@[i].bits,
                    on_true.bits,
                    on_false@[i].bits,
                ),
    {
        let mut out: Vec<Fp> = Vec::new();
        let mut i: usize = 0;
        while i < cond.len()
            invariant
                i <= cond@.len(),
                cond@.len() == on_false@.len(),
                out@.len() == i,
                forall|j: int|
                    0 <= j < i as int ==> out@[j].bits == cond_fwd_bits(
                        cond@[j].bits,
                        on_true.bits,
                        on_false@[j].bits,
                    ),
            decreases cond@.len() - i,
        {
            out.push(Cond::forward(cond[i], on_true, on_false[i]));
            i = i + 1;
        }
        out
    }

    /// The blend of a condition vector against a vector `on_true` of the
    /// same length and a scalar `on_false`.
    pub fn iter_tensor_tensor_x(cond: &Vec<Fp>, on_true: &Vec<Fp>, on_false: Fp) -> (r: Vec<Fp>)
        requires
            cond@.len() == on_true@.len(),
        ensures
            r@.len() == cond@.len(),
            forall|i: int|
                0 <= i < r@.len() ==> r@[i].bits == cond_fwd_bits(
                    cond@[i].bits,
                    on_true@[i].bits,
                    on_false.bits,
                ),
    {
        let mut out: Vec<Fp> = Vec::new();
        let mut i: usize = 0;
        while i < cond.len()
            invariant
                i <= cond@.len(),
                cond@.len() == on_true@.len(),
                out@.len() == i,
                forall|j: int|
                    0 <= j < i as int ==> out@[j].bits == cond_fwd_bits(
                        cond@[j].bits,
                        on_true@[j].bits,
                        on_false.bits,
                    ),
            decreases cond@.len() - i,
        {
            out.push(Cond::forward(cond[i], on_true[i], on_false));
            i = i + 1;
        }
        out
    }

    /// The blend of three vectors of the same length.
    pub fn iter_tensor_tensor_tensor(
        cond: &Vec<Fp>,
        on_true: &Vec<Fp>,
        on_false: &Vec<Fp>,
    ) -> (r: Vec<Fp>)
        requires
            cond@.len() == on_true@.len(),
            cond@.len() == on_false@.len(),
        ensures
            r@.len() == cond@.len(),
            forall|i: int|
                0 <= i < r@.len() ==> r@[i].bits == cond_fwd_bits(
                    cond@[i].bits,
                    on_true@[i].bits,
                    on_false@[i].bits,
                ),
    {
        let mut out: Vec<Fp> = Vec::new();
        let mut i: usize = 0;
        while i < cond.len()
            invariant
                i <= cond@.len(),
                cond@.len() == on_true@.len(),
                cond@.len() == on_false@.len(),
                out@.len() == i,
                forall|j: int|
                    0 <= j < i as int ==> out@[j].bits == cond_fwd_bits(
                        cond@[j].bits,
                        on_true@[j].bits,
                        on_false@[j].bits,
                    ),
            decreases cond@.len() - i,
        {
            out.push(Cond::forward(cond[i], on_true[i], on_false[i]));
            i = i + 1;
        }
        out
    }
}

/// The broadcast power operator `x^n` with a fixed scalar exponent.
pub struct Powf;

/// The accumulator after the power's backward rule:
/// adds `grad * n * x^(n - 1)`.
pub open spec fn powf_bwd_bits(x: u64, n: u64, grad: u64, acc: u64) -> u64 {
    add_bits(acc, mul_bits(mul_bits(grad, n), powf_bits(x, sub_bits(n, ONE_BITS))))
}

impl Powf {
    /// The forward value `x^n`.
    pub fn forward(x: Fp, n: Fp) -> (r: Fp)
        ensures
            r.bits == powf_bits(x.bits, n.bits),
    {
        fp_powf(x, n)
    }

    /// Adds the power's derivative contribution toward the base.
    pub fn backward(x: Fp, n: Fp, grad: Fp, acc: &mut Fp)
        ensures
            final(acc).bits == powf_bwd_bits(x.bits, n.bits, grad.bits, old(acc).bits),
    {
        let dx = fp_powf(x, fp_sub(n, Fp { bits: ONE_BITS }));
        *acc = fp_add(*acc, fp_mul(fp_mul(grad, n), dx));
    }
}

} // verus!
