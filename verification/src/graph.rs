//! The expression graph: tensors held in an arena, expressions referring to
//! them by handle, and every operator call recording its provenance.
//!
//! A `Graph` owns the tensor buffers and the recorded operations.  Handles
//! (`Tensor`, and the node index inside `Expression::Operation`) are plain
//! indices into the arena, so the dependency graph is acyclic by
//! construction and stays walkable for a later reverse-mode pass.

use vstd::prelude::*;

use crate::binary::{binary_fwd_bits, BinaryOp};
use crate::cmp::{
    cmp_fwd_bits, cmp_method_differentiable, CmpMethod, CmpMethodLinear, CmpMethodSigmoid, CmpOp,
};
use crate::cond::{cond_fwd_bits, Cond, Powf};
use crate::fp::{is_zero_bits, powf_bits, sign_set, Fp};
use crate::unary::{unary_fwd_bits, UnaryOp};

verus! {

/// The tag marking a tensor as a gradient-accumulation bucket: a counter
/// value minted once per gradient-tracking tensor and never reused.
#[derive(Clone, Copy, PartialEq, Eq, Structural, Debug)]
pub struct GradId {
    pub id: u64,
}

/// A handle to one tensor buffer of a graph's arena.
#[derive(Clone, Copy, PartialEq, Eq, Structural, Debug)]
pub struct Tensor {
    pub id: usize,
}

/// One arena slot: the buffer's values, its optional gradient identity, and
/// the marker consumed by an external invalidation layer.
#[derive(Clone, Debug)]
pub struct TensorBuf {
    pub grad_id: Option<GradId>,
    pub values: Vec<Fp>,
    pub changed: bool,
}

/// A node of the expression graph.
#[derive(Clone, Copy, PartialEq, Eq, Structural, Debug)]
pub enum Expression {
    /// An anonymous immutable scalar.
    Const(Fp),
    /// A caller-owned tensor that may be overwritten through its handle.
    Parameter(Tensor),
    /// A derived tensor together with the index of the operation that
    /// produced it.
    Operation(Tensor, usize),
}

/// A read-only view of what an expression holds: a scalar or a tensor.
#[derive(Clone, Copy, PartialEq, Eq, Structural, Debug)]
pub enum ScalarTensor {
    Scalar(Fp),
    Tensor(Tensor),
}

/// The recorded provenance of a derived tensor: which operator produced it
/// from which operands.
#[derive(Clone, Copy, PartialEq, Eq, Structural, Debug)]
pub enum Op {
    /// A buffer written directly, with no producing operator.
    Assign,
    /// A broadcast power with a fixed scalar exponent.
    Powf(Expression, Fp),
    /// The smoothed select `(cond) ? on_true : on_false`.
    Cond(Expression, Expression, Expression),
    Unary(Expression, UnaryOp),
    Binary(Expression, Expression, BinaryOp),
    /// A comparison, recorded with the smoothing method that was actually
    /// applied.
    Cmp(Expression, Expression, CmpOp, CmpMethod),
}

/// The fatal error of the engine: two tensor operands of unequal length.
#[derive(Clone, Copy, PartialEq, Eq, Structural, Debug)]
pub struct ShapeMismatch {
    pub lhs_len: usize,
    pub rhs_len: usize,
}

/// The arena owning every tensor buffer and recorded operation.
#[derive(Debug)]
pub struct Graph {
    pub tensors: Vec<TensorBuf>,
    pub ops: Vec<Op>,
    pub next_grad_id: u64,
}

impl Tensor {
    /// Whether the handle points into the graph's arena.
    pub open spec fn wf(self, g: Graph) -> bool {
        self.id < g.tensors@.len()
    }

    /// The values of the tensor, as a sequence.
    pub open spec fn spec_values(self, g: Graph) -> Seq<Fp> {
        g.tensors@[self.id as int].values@
    }

    /// The gradient identity of the tensor, if it tracks gradients.
    pub open spec fn spec_grad_id(self, g: Graph) -> Option<GradId> {
        g.tensors@[self.id as int].grad_id
    }
}

impl Expression {
    /// The tensor behind the expression, if it is not a constant.
    pub open spec fn spec_tensor(self) -> Option<Tensor> {
        match self {
            Expression::Const(_) => None,
            Expression::Parameter(t) => Some(t),
            Expression::Operation(t, _) => Some(t),
        }
    }

    /// The scalar of a constant expression.
    pub open spec fn spec_const(self) -> Fp {
        match self {
            Expression::Const(x) => x,
            Expression::Parameter(_) => Fp { bits: 0 },
            Expression::Operation(_, _) => Fp { bits: 0 },
        }
    }

    /// Whether the expression's handles point into the graph.
    pub open spec fn wf(self, g: Graph) -> bool {
        match self {
            Expression::Const(_) => true,
            Expression::Parameter(t) => t.wf(g),
            Expression::Operation(t, op) => t.wf(g) && op < g.ops@.len(),
        }
    }

    /// Whether the expression participates in gradient tracking.
    pub open spec fn tracks_grad(self, g: Graph) -> bool {
        match self.spec_tensor() {
            Some(t) => t.spec_grad_id(g) is Some,
            None => false,
        }
    }
}

/// The later graph holds everything the earlier one held, unchanged, plus
/// possibly new tensors, operations and minted identities.
pub open spec fn extends(post: Graph, pre: Graph) -> bool {
    &&& pre.tensors@.len() <= post.tensors@.len()
    &&& forall|i: int| 0 <= i < pre.tensors@.len() ==> post.tensors@[i] == pre.tensors@[i]
    &&& pre.ops@.len() <= post.ops@.len()
    &&& forall|i: int| 0 <= i < pre.ops@.len() ==> post.ops@[i] == pre.ops@[i]
    &&& pre.next_grad_id <= post.next_grad_id
}

/// The gradient identity a freshly built node receives: a new counter value
/// exactly when one of its tensor operands already tracks gradients.
pub open spec fn minted_grad(pre: Graph, with_grad: bool) -> Option<GradId> {
    if with_grad {
        Some(GradId { id: pre.next_grad_id })
    } else {
        None
    }
}

/// The shape every operator result shares: one tensor appended with the
/// minted identity and a clear change marker, one operation appended, the
/// counter advanced exactly when an identity was minted, everything older
/// untouched, and the result expression pointing at the new slots.
pub open spec fn appended_node(pre: Graph, post: Graph, op: Op, with_grad: bool, r: Expression) -> bool {
    &&& post.tensors@.len() == pre.tensors@.len() + 1
    &&& forall|i: int| 0 <= i < pre.tensors@.len() ==> post.tensors@[i] == pre.tensors@[i]
    &&& post.ops@ == pre.ops@.push(op)
    &&& post.next_grad_id == if with_grad {
        pre.next_grad_id as int + 1
    } else {
        pre.next_grad_id as int
    }
    &&& post.tensors@.last().grad_id == minted_grad(pre, with_grad)
    &&& post.tensors@.last().changed == false
    &&& r == Expression::Operation(
        Tensor { id: pre.tensors@.len() as usize },
        pre.ops@.len() as usize,
    )
}

impl Expression {
    /// An anonymous constant.
    pub fn constant(value: Fp) -> (r: Expression)
        ensures
            r == Expression::Const(value),
    {
        Expression::Const(value)
    }

    /// A caller-owned tensor: allocates a buffer, minting a gradient
    /// identity for it exactly when `need_grad` is set, and hands back both
    /// the expression and the handle for later updates.
    pub fn parameter(values: Vec<Fp>, need_grad: bool, g: &mut Graph) -> (r: (Expression, Tensor))
        requires
            old(g).next_grad_id < u64::MAX,
        ensures
            extends(*final(g), *old(g)),
            final(g).tensors@.len() == old(g).tensors@.len() + 1,
            final(g).ops@ == old(g).ops@,
            final(g).tensors@.last().grad_id == minted_grad(*old(g), need_grad),
            final(g).tensors@.last().values@ == values@,
            final(g).tensors@.last().changed == false,
            final(g).next_grad_id == if need_grad {
                old(g).next_grad_id as int + 1
            } else {
                old(g).next_grad_id as int
            },
            r.1 == (Tensor { id: old(g).tensors@.len() as usize }),
            r.0 == Expression::Parameter(r.1),
            r.1.wf(*final(g)),
    {
        let grad_id: Option<GradId> = if need_grad {
            let id = g.next_grad_id;
            g.next_grad_id = id + 1;
            Some(GradId { id })
        } else {
            None
        };
        let tensor = Tensor { id: g.tensors.len() };
        g.tensors.push(TensorBuf { grad_id, values, changed: false });
        (Expression::Parameter(tensor), tensor)
    }

    /// What the expression holds: the constant's scalar, or the tensor
    /// handle behind a parameter or operation.
    pub fn value(&self, g: &Graph) -> (r: ScalarTensor)
        ensures
            r == match self.spec_tensor() {
                None => ScalarTensor::Scalar(self.spec_const()),
                Some(t) => ScalarTensor::Tensor(t),
            },
    {
        match self {
            Expression::Const(x) => ScalarTensor::Scalar(*x),
            Expression::Parameter(t) => ScalarTensor::Tensor(*t),
            Expression::Operation(t, _) => ScalarTensor::Tensor(*t),
        }
    }
}

impl Tensor {
    /// Replaces the tensor's contents and raises its change marker for the
    /// external invalidation layer; the gradient identity is kept.
    pub fn update(&self, values: Vec<Fp>, g: &mut Graph)
        requires
            self.wf(*old(g)),
        ensures
            final(g).tensors@.len() == old(g).tensors@.len(),
            final(g).ops@ == old(g).ops@,
            final(g).next_grad_id == old(g).next_grad_id,
            final(g).tensors@[self.id as int].values@ == values@,
            final(g).tensors@[self.id as int].changed == true,
            final(g).tensors@[self.id as int].grad_id == old(g).tensors@[self.id as int].grad_id,
            forall|i: int|
                0 <= i < old(g).tensors@.len() && i != self.id as int ==> final(g).tensors@[i]
                    == old(g).tensors@[i],
    {
        let grad_id = g.tensors[self.id].grad_id;
        g.tensors.set(self.id, TensorBuf { grad_id, values, changed: true });
    }

    /// The tensor's current values.
    pub fn values<'a>(&self, g: &'a Graph) -> (r: &'a Vec<Fp>)
        requires
            self.wf(*g),
        ensures
            r@ == self.spec_values(*g),
    {
        &g.tensors[self.id].values
    }

    /// The tensor's gradient identity, if it tracks gradients.
    pub fn grad_id(&self, g: &Graph) -> (r: Option<GradId>)
        requires
            self.wf(*g),
        ensures
            r == self.spec_grad_id(*g),
    {
        g.tensors[self.id].grad_id
    }

    /// The change marker, as queried by the external invalidation layer.
    pub fn change_marker(&self, g: &Graph) -> (r: bool)
        requires
            self.wf(*g),
        ensures
            r == g.tensors@[self.id as int].changed,
    {
        g.tensors[self.id].changed
    }

    /// Lowers the change marker, as the external invalidation layer does
    /// once it has observed an update.
    pub fn clear_changed(&self, g: &mut Graph)
        requires
            self.wf(*old(g)),
        ensures
            final(g).tensors@.len() == old(g).tensors@.len(),
            final(g).ops@ == old(g).ops@,
            final(g).next_grad_id == old(g).next_grad_id,
            final(g).tensors@[self.id as int].values@ == old(g).tensors@[self.id as int].values@,
            final(g).tensors@[self.id as int].changed == false,
            final(g).tensors@[self.id as int].grad_id == old(g).tensors@[self.id as int].grad_id,
            forall|i: int|
                0 <= i < old(g).tensors@.len() && i != self.id as int ==> final(g).tensors@[i]
                    == old(g).tensors@[i],
    {
        let buf = g.tensors.remove(self.id);
        g.tensors.insert(
            self.id,
            TensorBuf { grad_id: buf.grad_id, values: buf.values, changed: false },
        );
    }
}

/// Nothing of the graph moved: no tensor, no operation, no minted identity.
pub open spec fn same_graph(post: Graph, pre: Graph) -> bool {
    &&& post.tensors@ == pre.tensors@
    &&& post.ops@ == pre.ops@
    &&& post.next_grad_id == pre.next_grad_id
}

/// What a unary operator call leaves behind: a constant folds to a
/// constant and leaves the graph alone; a tensor operand yields a fresh
/// node whose buffer holds the forward rule applied elementwise, with a
/// gradient identity exactly when the operand had one.
pub open spec fn unary_result_ok(
    pre: Graph,
    post: Graph,
    e: Expression,
    k: UnaryOp,
    r: Expression,
) -> bool {
    match e.spec_tensor() {
        None => same_graph(post, pre) && r == Expression::Const(
            Fp { bits: unary_fwd_bits(k, e.spec_const().bits) },
        ),
        Some(t) => {
            let xs = t.spec_values(pre);
            let out = post.tensors@.last().values@;
            &&& appended_node(pre, post, Op::Unary(e, k), e.tracks_grad(pre), r)
            &&& out.len() == xs.len()
            &&& forall|i: int| 0 <= i < xs.len() ==> out[i].bits == unary_fwd_bits(k, xs[i].bits)
        },
    }
}

/// What a broadcast power call leaves behind, with a fixed scalar exponent.
pub open spec fn powf_result_ok(
    pre: Graph,
    post: Graph,
    e: Expression,
    n: Fp,
    r: Expression,
) -> bool {
    match e.spec_tensor() {
        None => same_graph(post, pre) && r == Expression::Const(
            Fp { bits: powf_bits(e.spec_const().bits, n.bits) },
        ),
        Some(t) => {
            let xs = t.spec_values(pre);
            let out = post.tensors@.last().values@;
            &&& appended_node(pre, post, Op::Powf(e, n), e.tracks_grad(pre), r)
            &&& out.len() == xs.len()
            &&& forall|i: int| 0 <= i < xs.len() ==> out[i].bits == powf_bits(xs[i].bits, n.bits)
        },
    }
}

impl Expression {
    /// Applies a unary operator: eager elementwise evaluation, provenance
    /// recorded, gradient identity propagated.
    pub fn unary_op(&self, k: UnaryOp, g: &mut Graph) -> (r: Expression)
        requires
            self.wf(*old(g)),
            old(g).next_grad_id < u64::MAX,
        ensures
            extends(*final(g), *old(g)),
            r.wf(*final(g)),
            unary_result_ok(*old(g), *final(g), *self, k, r),
    {
        match *self {
            Expression::Const(x) => Expression::Const(k.forward(x)),
            Expression::Parameter(t) | Expression::Operation(t, _) => {
                let out = k.forward_iter(&g.tensors[t.id].values);
                let with_grad = g.tensors[t.id].grad_id.is_some();
                let grad_id: Option<GradId> = if with_grad {
                    let id = g.next_grad_id;
                    g.next_grad_id = id + 1;
                    Some(GradId { id })
                } else {
                    None
                };
                let opid = g.ops.len();
                g.ops.push(Op::Unary(*self, k));
                let tid = g.tensors.len();
                g.tensors.push(TensorBuf { grad_id, values: out, changed: false });
                Expression::Operation(Tensor { id: tid }, opid)
            },
        }
    }

    /// Raises the expression to a fixed scalar power, elementwise.
    pub fn powf(&self, n: Fp, g: &mut Graph) -> (r: Expression)
        requires
            self.wf(*old(g)),
            old(g).next_grad_id < u64::MAX,
        ensures
            extends(*final(g), *old(g)),
            r.wf(*final(g)),
            powf_result_ok(*old(g), *final(g), *self, n, r),
    {
        match *self {
            Expression::Const(x) => Expression::Const(Powf::forward(x, n)),
            Expression::Parameter(t) | Expression::Operation(t, _) => {
                let out = BinaryOp::Pow.forward_iter_fix_rhs(&g.tensors[t.id].values, n);
                let with_grad = g.tensors[t.id].grad_id.is_some();
                let grad_id: Option<GradId> = if with_grad {
                    let id = g.next_grad_id;
                    g.next_grad_id = id + 1;
                    Some(GradId { id })
                } else {
                    None
                };
                let opid = g.ops.len();
                g.ops.push(Op::Powf(*self, n));
                let tid = g.tensors.len();
                g.tensors.push(TensorBuf { grad_id, values: out, changed: false });
                Expression::Operation(Tensor { id: tid }, opid)
            },
        }
    }

    /// Negation.
    pub fn neg(&self, g: &mut Graph) -> (r: Expression)
        requires
            self.wf(*old(g)),
            old(g).next_grad_id < u64::MAX,
        ensures
            extends(*final(g), *old(g)),
            r.wf(*final(g)),
            unary_result_ok(*old(g), *final(g), *self, UnaryOp::Neg, r),
    {
        self.unary_op(UnaryOp::Neg, g)
    }

    /// The sine.
    pub fn sin(&self, g: &mut Graph) -> (r: Expression)
        requires
            self.wf(*old(g)),
            old(g).next_grad_id < u64::MAX,
        ensures
            extends(*final(g), *old(g)),
            r.wf(*final(g)),
            unary_result_ok(*old(g), *final(g), *self, UnaryOp::Sin, r),
    {
        self.unary_op(UnaryOp::Sin, g)
    }

    /// The cosine.
    pub fn cos(&self, g: &mut Graph) -> (r: Expression)
        requires
            self.wf(*old(g)),
            old(g).next_grad_id < u64::MAX,
        ensures
            extends(*final(g), *old(g)),
            r.wf(*final(g)),
            unary_result_ok(*old(g), *final(g), *self, UnaryOp::Cos, r),
    {
        self.unary_op(UnaryOp::Cos, g)
    }

    /// The hyperbolic tangent.
    pub fn tanh(&self, g: &mut Graph) -> (r: Expression)
        requires
            self.wf(*old(g)),
            old(g).next_grad_id < u64::MAX,
        ensures
            extends(*final(g), *old(g)),
            r.wf(*final(g)),
            unary_result_ok(*old(g), *final(g), *self, UnaryOp::Tanh, r),
    {
        self.unary_op(UnaryOp::Tanh, g)
    }

    /// The tangent.
    pub fn tan(&self, g: &mut Graph) -> (r: Expression)
        requires
            self.wf(*old(g)),
            old(g).next_grad_id < u64::MAX,
        ensures
            extends(*final(g), *old(g)),
            r.wf(*final(g)),
            unary_result_ok(*old(g), *final(g), *self, UnaryOp::Tan, r),
    {
        self.unary_op(UnaryOp::Tan, g)
    }

    /// The ceiling.
    pub fn ceil(&self, g: &mut Graph) -> (r: Expression)
        requires
            self.wf(*old(g)),
            old(g).next_grad_id < u64::MAX,
        ensures
            extends(*final(g), *old(g)),
            r.wf(*final(g)),
            unary_result_ok(*old(g), *final(g), *self, UnaryOp::Ceil, r),
    {
        self.unary_op(UnaryOp::Ceil, g)
    }

    /// The floor.
    pub fn floor(&self, g: &mut Graph) -> (r: Expression)
        requires
            self.wf(*old(g)),
            old(g).next_grad_id < u64::MAX,
        ensures
            extends(*final(g), *old(g)),
            r.wf(*final(g)),
            unary_result_ok(*old(g), *final(g), *self, UnaryOp::Floor, r),
    {
        self.unary_op(UnaryOp::Floor, g)
    }

    /// Rounding to the nearest integer.
    pub fn round(&self, g: &mut Graph) -> (r: Expression)
        requires
            self.wf(*old(g)),
            old(g).next_grad_id < u64::MAX,
        ensures
            extends(*final(g), *old(g)),
            r.wf(*final(g)),
            unary_result_ok(*old(g), *final(g), *self, UnaryOp::Round, r),
    {
        self.unary_op(UnaryOp::Round, g)
    }

    /// The sign.
    pub fn sign(&self, g: &mut Graph) -> (r: Expression)
        requires
            self.wf(*old(g)),
            old(g).next_grad_id < u64::MAX,
        ensures
            extends(*final(g), *old(g)),
            r.wf(*final(g)),
            unary_result_ok(*old(g), *final(g), *self, UnaryOp::Sign, r),
    {
        self.unary_op(UnaryOp::Sign, g)
    }

    /// The square root.
    pub fn sqrt(&self, g: &mut Graph) -> (r: Expression)
        requires
            self.wf(*old(g)),
            old(g).next_grad_id < u64::MAX,
        ensures
            extends(*final(g), *old(g)),
            r.wf(*final(g)),
            unary_result_ok(*old(g), *final(g), *self, UnaryOp::Sqrt, r),
    {
        self.unary_op(UnaryOp::Sqrt, g)
    }

    /// The square.
    pub fn sqr(&self, g: &mut Graph) -> (r: Expression)
        requires
            self.wf(*old(g)),
            old(g).next_grad_id < u64::MAX,
        ensures
            extends(*final(g), *old(g)),
            r.wf(*final(g)),
            unary_result_ok(*old(g), *final(g), *self, UnaryOp::Sqr, r),
    {
        self.unary_op(UnaryOp::Sqr, g)
    }

    /// The cube.
    pub fn cubic(&self, g: &mut Graph) -> (r: Expression)
        requires
            self.wf(*old(g)),
            old(g).next_grad_id < u64::MAX,
        ensures
            extends(*final(g), *old(g)),
            r.wf(*final(g)),
            unary_result_ok(*old(g), *final(g), *self, UnaryOp::Cubic, r),
    {
        self.unary_op(UnaryOp::Cubic, g)
    }

    /// The natural logarithm.
    pub fn log(&self, g: &mut Graph) -> (r: Expression)
        requires
            self.wf(*old(g)),
            old(g).next_grad_id < u64::MAX,
        ensures
            extends(*final(g), *old(g)),
            r.wf(*final(g)),
            unary_result_ok(*old(g), *final(g), *self, UnaryOp::Log, r),
    {
        self.unary_op(UnaryOp::Log, g)
    }

    /// The natural exponential.
    pub fn exp(&self, g: &mut Graph) -> (r: Expression)
        requires
            self.wf(*old(g)),
            old(g).next_grad_id < u64::MAX,
        ensures
            extends(*final(g), *old(g)),
            r.wf(*final(g)),
            unary_result_ok(*old(g), *final(g), *self, UnaryOp::Exp, r),
    {
        self.unary_op(UnaryOp::Exp, g)
    }

    /// The absolute value.
    pub fn abs(&self, g: &mut Graph) -> (r: Expression)
        requires
            self.wf(*old(g)),
            old(g).next_grad_id < u64::MAX,
        ensures
            extends(*final(g), *old(g)),
            r.wf(*final(g)),
            unary_result_ok(*old(g), *final(g), *self, UnaryOp::Abs, r),
    {
        self.unary_op(UnaryOp::Abs, g)
    }

    /// The error function.
    pub fn erf(&self, g: &mut Graph) -> (r: Expression)
        requires
            self.wf(*old(g)),
            old(g).next_grad_id < u64::MAX,
        ensures
            extends(*final(g), *old(g)),
            r.wf(*final(g)),
            unary_result_ok(*old(g), *final(g), *self, UnaryOp::Erf, r),
    {
        self.unary_op(UnaryOp::Erf, g)
    }

    /// The probabilistic negation `1 - x` on operands meant to lie in
    /// `[0, 1]`.
    pub fn logic_not(&self, g: &mut Graph) -> (r: Expression)
        requires
            self.wf(*old(g)),
            old(g).next_grad_id < u64::MAX,
        ensures
            extends(*final(g), *old(g)),
            r.wf(*final(g)),
            unary_result_ok(*old(g), *final(g), *self, UnaryOp::LogicNot, r),
    {
        self.unary_op(UnaryOp::LogicNot, g)
    }
}

/// What a binary operator call leaves behind.  All-scalar operands fold to
/// a constant; one tensor operand broadcasts the scalar against it; two
/// tensor operands must have equal lengths and are zipped, or the call
/// fails with a shape mismatch and the graph is left alone.  The result
/// carries a fresh gradient identity exactly when a tensor operand carried
/// one.
pub open spec fn binary_result_ok(
    pre: Graph,
    post: Graph,
    lhs: Expression,
    rhs: Expression,
    k: BinaryOp,
    r: Result<Expression, ShapeMismatch>,
) -> bool {
    match (lhs.spec_tensor(), rhs.spec_tensor()) {
        (Option::None, Option::None) => same_graph(post, pre) && r == Result::<
            Expression,
            ShapeMismatch,
        >::Ok(
            Expression::Const(
                Fp { bits: binary_fwd_bits(k, lhs.spec_const().bits, rhs.spec_const().bits) },
            ),
        ),
        (Option::None, Option::Some(tb)) => {
            let bs = tb.spec_values(pre);
            let out = post.tensors@.last().values@;
            &&& r is Ok
            &&& appended_node(pre, post, Op::Binary(lhs, rhs, k), rhs.tracks_grad(pre), r->Ok_0)
            &&& out.len() == bs.len()
            &&& forall|i: int|
                0 <= i < bs.len() ==> out[i].bits == binary_fwd_bits(
                    k,
                    lhs.spec_const().bits,
                    bs[i].bits,
                )
        },
        (Option::Some(ta), Option::None) => {
            let av = ta.spec_values(pre);
            let out = post.tensors@.last().values@;
            &&& r is Ok
            &&& appended_node(pre, post, Op::Binary(lhs, rhs, k), lhs.tracks_grad(pre), r->Ok_0)
            &&& out.len() == av.len()
            &&& forall|i: int|
                0 <= i < av.len() ==> out[i].bits == binary_fwd_bits(
                    k,
                    av[i].bits,
                    rhs.spec_const().bits,
                )
        },
        (Option::Some(ta), Option::Some(tb)) => {
            let av = ta.spec_values(pre);
            let bs = tb.spec_values(pre);
            if av.len() == bs.len() {
                let out = post.tensors@.last().values@;
                &&& r is Ok
                &&& appended_node(
                    pre,
                    post,
                    Op::Binary(lhs, rhs, k),
                    lhs.tracks_grad(pre) || rhs.tracks_grad(pre),
                    r->Ok_0,
                )
                &&& out.len() == av.len()
                &&& forall|i: int|
                    0 <= i < av.len() ==> out[i].bits == binary_fwd_bits(
                        k,
                        av[i].bits,
                        bs[i].bits,
                    )
            } else {
                same_graph(post, pre) && r == Result::<Expression, ShapeMismatch>::Err(
                    ShapeMismatch { lhs_len: av.len() as usize, rhs_len: bs.len() as usize },
                )
            }
        },
    }
}

/// The method a comparison actually applies: the requested one when it can
/// carry a gradient and a tensor operand tracks gradients, and the exact
/// comparison otherwise.
pub open spec fn cmp_effective(m: CmpMethod, any_grad: bool) -> CmpMethod {
    if cmp_method_differentiable(m) && any_grad {
        m
    } else {
        CmpMethod::Discret
    }
}

/// What a comparison call leaves behind.  Two constants fold under the
/// exact method with no graph growth.  With a tensor operand, a smoothed
/// method is honored only when the result will need a gradient; otherwise
/// the call is silently downgraded to the exact method and no identity is
/// minted.  The recorded provenance names the method actually applied.
pub open spec fn cmp_result_ok(
    pre: Graph,
    post: Graph,
    lhs: Expression,
    rhs: Expression,
    op: CmpOp,
    m: CmpMethod,
    r: Result<Expression, ShapeMismatch>,
) -> bool {
    match (lhs.spec_tensor(), rhs.spec_tensor()) {
        (Option::None, Option::None) => same_graph(post, pre) && r == Result::<
            Expression,
            ShapeMismatch,
        >::Ok(
            Expression::Const(
                Fp {
                    bits: cmp_fwd_bits(
                        op,
                        CmpMethod::Discret,
                        lhs.spec_const().bits,
                        rhs.spec_const().bits,
                    ),
                },
            ),
        ),
        (Option::None, Option::Some(tb)) => {
            let any_grad = rhs.tracks_grad(pre);
            let eff = cmp_effective(m, any_grad);
            let minted = cmp_method_differentiable(m) && any_grad;
            let bs = tb.spec_values(pre);
            let out = post.tensors@.last().values@;
            &&& r is Ok
            &&& appended_node(pre, post, Op::Cmp(lhs, rhs, op, eff), minted, r->Ok_0)
            &&& out.len() == bs.len()
            &&& forall|i: int|
                0 <= i < bs.len() ==> out[i].bits == cmp_fwd_bits(
                    op,
                    eff,
                    lhs.spec_const().bits,
                    bs[i].bits,
                )
        },
        (Option::Some(ta), Option::None) => {
            let any_grad = lhs.tracks_grad(pre);
            let eff = cmp_effective(m, any_grad);
            let minted = cmp_method_differentiable(m) && any_grad;
            let av = ta.spec_values(pre);
            let out = post.tensors@.last().values@;
            &&& r is Ok
            &&& appended_node(pre, post, Op::Cmp(lhs, rhs, op, eff), minted, r->Ok_0)
            &&& out.len() == av.len()
            &&& forall|i: int|
                0 <= i < av.len() ==> out[i].bits == cmp_fwd_bits(
                    op,
                    eff,
                    av[i].bits,
                    rhs.spec_const().bits,
                )
        },
        (Option::Some(ta), Option::Some(tb)) => {
            let av = ta.spec_values(pre);
            let bs = tb.spec_values(pre);
            if av.len() == bs.len() {
                let any_grad = lhs.tracks_grad(pre) || rhs.tracks_grad(pre);
                let eff = cmp_effective(m, any_grad);
                let minted = cmp_method_differentiable(m) && any_grad;
                let out = post.tensors@.last().values@;
                &&& r is Ok
                &&& appended_node(pre, post, Op::Cmp(lhs, rhs, op, eff), minted, r->Ok_0)
                &&& out.len() == av.len()
                &&& forall|i: int|
                    0 <= i < av.len() ==> out[i].bits == cmp_fwd_bits(
                        op,
                        eff,
                        av[i].bits,
                        bs[i].bits,
                    )
            } else {
                same_graph(post, pre) && r == Result::<Expression, ShapeMismatch>::Err(
                    ShapeMismatch { lhs_len: av.len() as usize, rhs_len: bs.len() as usize },
                )
            }
        },
    }
}

impl Expression {
    /// Applies a binary operator, broadcasting a scalar operand against a
    /// tensor one and requiring two tensor operands to have equal lengths.
    pub fn binary_op(&self, rhs: &Expression, k: BinaryOp, g: &mut Graph) -> (r: Result<
        Expression,
        ShapeMismatch,
    >)
        requires
            self.wf(*old(g)),
            rhs.wf(*old(g)),
            old(g).next_grad_id < u64::MAX,
        ensures
            extends(*final(g), *old(g)),
            r is Ok ==> r->Ok_0.wf(*final(g)),
            binary_result_ok(*old(g), *final(g), *self, *rhs, k, r),
    {
        let lv = self.value(g);
        let rv = rhs.value(g);
        match (lv, rv) {
            (ScalarTensor::Scalar(a), ScalarTensor::Scalar(b)) => Ok(
                Expression::Const(k.forward(a, b)),
            ),
            (ScalarTensor::Scalar(a), ScalarTensor::Tensor(tb)) => {
                let out = k.forward_iter_fix_lhs(a, &g.tensors[tb.id].values);
                let with_grad = g.tensors[tb.id].grad_id.is_some();
                let grad_id: Option<GradId> = if with_grad {
                    let id = g.next_grad_id;
                    g.next_grad_id = id + 1;
                    Some(GradId { id })
                } else {
                    None
                };
                let opid = g.ops.len();
                g.ops.push(Op::Binary(*self, *rhs, k));
                let tid = g.tensors.len();
                g.tensors.push(TensorBuf { grad_id, values: out, changed: false });
                Ok(Expression::Operation(Tensor { id: tid }, opid))
            },
            (ScalarTensor::Tensor(ta), ScalarTensor::Scalar(b)) => {
                let out = k.forward_iter_fix_rhs(&g.tensors[ta.id].values, b);
                let with_grad = g.tensors[ta.id].grad_id.is_some();
                let grad_id: Option<GradId> = if with_grad {
                    let id = g.next_grad_id;
                    g.next_grad_id = id + 1;
                    Some(GradId { id })
                } else {
                    None
                };
                let opid = g.ops.len();
                g.ops.push(Op::Binary(*self, *rhs, k));
                let tid = g.tensors.len();
                g.tensors.push(TensorBuf { grad_id, values: out, changed: false });
                Ok(Expression::Operation(Tensor { id: tid }, opid))
            },
            (ScalarTensor::Tensor(ta), ScalarTensor::Tensor(tb)) => {
                let la = g.tensors[ta.id].values.len();
                let lb = g.tensors[tb.id].values.len();
                if la != lb {
                    return Err(ShapeMismatch { lhs_len: la, rhs_len: lb });
                }
                let out = k.forward_iter(&g.tensors[ta.id].values, &g.tensors[tb.id].values);
                let with_grad = g.tensors[ta.id].grad_id.is_some() || g.tensors[
                    tb.id
                ].grad_id.is_some();
                let grad_id: Option<GradId> = if with_grad {
                    let id = g.next_grad_id;
                    g.next_grad_id = id + 1;
                    Some(GradId { id })
                } else {
                    None
                };
                let opid = g.ops.len();
                g.ops.push(Op::Binary(*self, *rhs, k));
                let tid = g.tensors.len();
                g.tensors.push(TensorBuf { grad_id, values: out, changed: false });
                Ok(Expression::Operation(Tensor { id: tid }, opid))
            },
        }
    }

    /// Applies a comparison under a smoothing method, downgrading the
    /// method to the exact one whenever no gradient will be consumed.
    pub fn cmp_op(&self, rhs: &Expression, op: CmpOp, method: CmpMethod, g: &mut Graph) -> (r:
        Result<Expression, ShapeMismatch>)
        requires
            self.wf(*old(g)),
            rhs.wf(*old(g)),
            old(g).next_grad_id < u64::MAX,
        ensures
            extends(*final(g), *old(g)),
            r is Ok ==> r->Ok_0.wf(*final(g)),
            cmp_result_ok(*old(g), *final(g), *self, *rhs, op, method, r),
    {
        let lv = self.value(g);
        let rv = rhs.value(g);
        match (lv, rv) {
            (ScalarTensor::Scalar(a), ScalarTensor::Scalar(b)) => Ok(
                Expression::Const(op.forward(&CmpMethod::Discret, a, b)),
            ),
            (ScalarTensor::Scalar(a), ScalarTensor::Tensor(tb)) => {
                let any_grad = g.tensors[tb.id].grad_id.is_some();
                let eff: CmpMethod = if method.differentiable() && any_grad {
                    method
                } else {
                    CmpMethod::Discret
                };
                let out = op.forward_iter_fix_lhs(&eff, a, &g.tensors[tb.id].values);
                let grad_id: Option<GradId> = if method.differentiable() && any_grad {
                    let id = g.next_grad_id;
                    g.next_grad_id = id + 1;
                    Some(GradId { id })
                } else {
                    None
                };
                let opid = g.ops.len();
                g.ops.push(Op::Cmp(*self, *rhs, op, eff));
                let tid = g.tensors.len();
                g.tensors.push(TensorBuf { grad_id, values: out, changed: false });
                Ok(Expression::Operation(Tensor { id: tid }, opid))
            },
            (ScalarTensor::Tensor(ta), ScalarTensor::Scalar(b)) => {
                let any_grad = g.tensors[ta.id].grad_id.is_some();
                let eff: CmpMethod = if method.differentiable() && any_grad {
                    method
                } else {
                    CmpMethod::Discret
                };
                let out = op.forward_iter_fix_rhs(&eff, b, &g.tensors[ta.id].values);
                let grad_id: Option<GradId> = if method.differentiable() && any_grad {
                    let id = g.next_grad_id;
                    g.next_grad_id = id + 1;
                    Some(GradId { id })
                } else {
                    None
                };
                let opid = g.ops.len();
                g.ops.push(Op::Cmp(*self, *rhs, op, eff));
                let tid = g.tensors.len();
                g.tensors.push(TensorBuf { grad_id, values: out, changed: false });
                Ok(Expression::Operation(Tensor { id: tid }, opid))
            },
            (ScalarTensor::Tensor(ta), ScalarTensor::Tensor(tb)) => {
                let la = g.tensors[ta.id].values.len();
                let lb = g.tensors[tb.id].values.len();
                if la != lb {
                    return Err(ShapeMismatch { lhs_len: la, rhs_len: lb });
                }
                let any_grad = g.tensors[ta.id].grad_id.is_some() || g.tensors[
                    tb.id
                ].grad_id.is_some();
                let eff: CmpMethod = if method.differentiable() && any_grad {
                    method
                } else {
                    CmpMethod::Discret
                };
                let out = op.forward_iter(&eff, &g.tensors[ta.id].values, &g.tensors[tb.id].values);
                let grad_id: Option<GradId> = if method.differentiable() && any_grad {
                    let id = g.next_grad_id;
                    g.next_grad_id = id + 1;
                    Some(GradId { id })
                } else {
                    None
                };
                let opid = g.ops.len();
                g.ops.push(Op::Cmp(*self, *rhs, op, eff));
                let tid = g.tensors.len();
                g.tensors.push(TensorBuf { grad_id, values: out, changed: false });
                Ok(Expression::Operation(Tensor { id: tid }, opid))
            },
        }
    }
}

impl Expression {
    /// Addition.
    pub fn add(&self, rhs: &Expression, g: &mut Graph) -> (r: Result<Expression, ShapeMismatch>)
        requires
            self.wf(*old(g)),
            rhs.wf(*old(g)),
            old(g).next_grad_id < u64::MAX,
        ensures
            extends(*final(g), *old(g)),
            r is Ok ==> r->Ok_0.wf(*final(g)),
            binary_result_ok(*old(g), *final(g), *self, *rhs, BinaryOp::Add, r),
    {
        self.binary_op(rhs, BinaryOp::Add, g)
    }

    /// Subtraction.
    pub fn sub(&self, rhs: &Expression, g: &mut Graph) -> (r: Result<Expression, ShapeMismatch>)
        requires
            self.wf(*old(g)),
            rhs.wf(*old(g)),
            old(g).next_grad_id < u64::MAX,
        ensures
            extends(*final(g), *old(g)),
            r is Ok ==> r->Ok_0.wf(*final(g)),
            binary_result_ok(*old(g), *final(g), *self, *rhs, BinaryOp::Sub, r),
    {
        self.binary_op(rhs, BinaryOp::Sub, g)
    }

    /// Multiplication.
    pub fn mul(&self, rhs: &Expression, g: &mut Graph) -> (r: Result<Expression, ShapeMismatch>)
        requires
            self.wf(*old(g)),
            rhs.wf(*old(g)),
            old(g).next_grad_id < u64::MAX,
        ensures
            extends(*final(g), *old(g)),
            r is Ok ==> r->Ok_0.wf(*final(g)),
            binary_result_ok(*old(g), *final(g), *self, *rhs, BinaryOp::Mul, r),
    {
        self.binary_op(rhs, BinaryOp::Mul, g)
    }

    /// Division.
    pub fn div(&self, rhs: &Expression, g: &mut Graph) -> (r: Result<Expression, ShapeMismatch>)
        requires
            self.wf(*old(g)),
            rhs.wf(*old(g)),
            old(g).next_grad_id < u64::MAX,
        ensures
            extends(*final(g), *old(g)),
            r is Ok ==> r->Ok_0.wf(*final(g)),
            binary_result_ok(*old(g), *final(g), *self, *rhs, BinaryOp::Div, r),
    {
        self.binary_op(rhs, BinaryOp::Div, g)
    }

    /// The power with both operands in the graph.
    pub fn pow(&self, rhs: &Expression, g: &mut Graph) -> (r: Result<Expression, ShapeMismatch>)
        requires
            self.wf(*old(g)),
            rhs.wf(*old(g)),
            old(g).next_grad_id < u64::MAX,
        ensures
            extends(*final(g), *old(g)),
            r is Ok ==> r->Ok_0.wf(*final(g)),
            binary_result_ok(*old(g), *final(g), *self, *rhs, BinaryOp::Pow, r),
    {
        self.binary_op(rhs, BinaryOp::Pow, g)
    }

    /// The smaller operand, elementwise, in the engine's total order.
    pub fn min(&self, rhs: &Expression, g: &mut Graph) -> (r: Result<Expression, ShapeMismatch>)
        requires
            self.wf(*old(g)),
            rhs.wf(*old(g)),
            old(g).next_grad_id < u64::MAX,
        ensures
            extends(*final(g), *old(g)),
            r is Ok ==> r->Ok_0.wf(*final(g)),
            binary_result_ok(*old(g), *final(g), *self, *rhs, BinaryOp::Min, r),
    {
        self.binary_op(rhs, BinaryOp::Min, g)
    }

    /// The larger operand, elementwise, in the engine's total order.
    pub fn max(&self, rhs: &Expression, g: &mut Graph) -> (r: Result<Expression, ShapeMismatch>)
        requires
            self.wf(*old(g)),
            rhs.wf(*old(g)),
            old(g).next_grad_id < u64::MAX,
        ensures
            extends(*final(g), *old(g)),
            r is Ok ==> r->Ok_0.wf(*final(g)),
            binary_result_ok(*old(g), *final(g), *self, *rhs, BinaryOp::Max, r),
    {
        self.binary_op(rhs, BinaryOp::Max, g)
    }

    /// The product t-norm `a * b` on operands meant to lie in `[0, 1]`.
    pub fn logic_and(&self, rhs: &Expression, g: &mut Graph) -> (r: Result<
        Expression,
        ShapeMismatch,
    >)
        requires
            self.wf(*old(g)),
            rhs.wf(*old(g)),
            old(g).next_grad_id < u64::MAX,
        ensures
            extends(*final(g), *old(g)),
            r is Ok ==> r->Ok_0.wf(*final(g)),
            binary_result_ok(*old(g), *final(g), *self, *rhs, BinaryOp::LogicAnd, r),
    {
        self.binary_op(rhs, BinaryOp::LogicAnd, g)
    }

    /// The probabilistic sum `a + b - a * b` on operands meant to lie in
    /// `[0, 1]`.
    pub fn logic_or(&self, rhs: &Expression, g: &mut Graph) -> (r: Result<
        Expression,
        ShapeMismatch,
    >)
        requires
            self.wf(*old(g)),
            rhs.wf(*old(g)),
            old(g).next_grad_id < u64::MAX,
        ensures
            extends(*final(g), *old(g)),
            r is Ok ==> r->Ok_0.wf(*final(g)),
            binary_result_ok(*old(g), *final(g), *self, *rhs, BinaryOp::LogicOr, r),
    {
        self.binary_op(rhs, BinaryOp::LogicOr, g)
    }

    /// Exact equality.
    pub fn eq(&self, rhs: &Expression, g: &mut Graph) -> (r: Result<Expression, ShapeMismatch>)
        requires
            self.wf(*old(g)),
            rhs.wf(*old(g)),
            old(g).next_grad_id < u64::MAX,
        ensures
            extends(*final(g), *old(g)),
            r is Ok ==> r->Ok_0.wf(*final(g)),
            cmp_result_ok(*old(g), *final(g), *self, *rhs, CmpOp::Eq, CmpMethod::Discret, r),
    {
        self.cmp_op(rhs, CmpOp::Eq, CmpMethod::Discret, g)
    }

    /// Exact inequality.
    pub fn ne(&self, rhs: &Expression, g: &mut Graph) -> (r: Result<Expression, ShapeMismatch>)
        requires
            self.wf(*old(g)),
            rhs.wf(*old(g)),
            old(g).next_grad_id < u64::MAX,
        ensures
            extends(*final(g), *old(g)),
            r is Ok ==> r->Ok_0.wf(*final(g)),
            cmp_result_ok(*old(g), *final(g), *self, *rhs, CmpOp::Ne, CmpMethod::Discret, r),
    {
        self.cmp_op(rhs, CmpOp::Ne, CmpMethod::Discret, g)
    }

    /// Exact `<=`.
    pub fn le(&self, rhs: &Expression, g: &mut Graph) -> (r: Result<Expression, ShapeMismatch>)
        requires
            self.wf(*old(g)),
            rhs.wf(*old(g)),
            old(g).next_grad_id < u64::MAX,
        ensures
            extends(*final(g), *old(g)),
            r is Ok ==> r->Ok_0.wf(*final(g)),
            cmp_result_ok(*old(g), *final(g), *self, *rhs, CmpOp::Le, CmpMethod::Discret, r),
    {
        self.cmp_op(rhs, CmpOp::Le, CmpMethod::Discret, g)
    }

    /// Exact `>=`.
    pub fn ge(&self, rhs: &Expression, g: &mut Graph) -> (r: Result<Expression, ShapeMismatch>)
        requires
            self.wf(*old(g)),
            rhs.wf(*old(g)),
            old(g).next_grad_id < u64::MAX,
        ensures
            extends(*final(g), *old(g)),
            r is Ok ==> r->Ok_0.wf(*final(g)),
            cmp_result_ok(*old(g), *final(g), *self, *rhs, CmpOp::Ge, CmpMethod::Discret, r),
    {
        self.cmp_op(rhs, CmpOp::Ge, CmpMethod::Discret, g)
    }

    /// Exact `<`.
    pub fn lt(&self, rhs: &Expression, g: &mut Graph) -> (r: Result<Expression, ShapeMismatch>)
        requires
            self.wf(*old(g)),
            rhs.wf(*old(g)),
            old(g).next_grad_id < u64::MAX,
        ensures
            extends(*final(g), *old(g)),
            r is Ok ==> r->Ok_0.wf(*final(g)),
            cmp_result_ok(*old(g), *final(g), *self, *rhs, CmpOp::Lt, CmpMethod::Discret, r),
    {
        self.cmp_op(rhs, CmpOp::Lt, CmpMethod::Discret, g)
    }

    /// Exact `>`.
    pub fn gt(&self, rhs: &Expression, g: &mut Graph) -> (r: Result<Expression, ShapeMismatch>)
        requires
            self.wf(*old(g)),
            rhs.wf(*old(g)),
            old(g).next_grad_id < u64::MAX,
        ensures
            extends(*final(g), *old(g)),
            r is Ok ==> r->Ok_0.wf(*final(g)),
            cmp_result_ok(*old(g), *final(g), *self, *rhs, CmpOp::Gt, CmpMethod::Discret, r),
    {
        self.cmp_op(rhs, CmpOp::Gt, CmpMethod::Discret, g)
    }

    /// Equality smoothed by the Gaussian bump `exp(-k (a - b)^2)`; honored
    /// only when the result needs a gradient.
    pub fn eq_sigmoid(&self, rhs: &Expression, k: Fp, g: &mut Graph) -> (r: Result<
        Expression,
        ShapeMismatch,
    >)
        requires
            self.wf(*old(g)),
            rhs.wf(*old(g)),
            old(g).next_grad_id < u64::MAX,
            !sign_set(k.bits),
        ensures
            extends(*final(g), *old(g)),
            r is Ok ==> r->Ok_0.wf(*final(g)),
            cmp_result_ok(
                *old(g),
                *final(g),
                *self,
                *rhs,
                CmpOp::Eq,
                CmpMethod::Sigmoid(CmpMethodSigmoid { k }),
                r,
            ),
    {
        self.cmp_op(rhs, CmpOp::Eq, CmpMethod::new_sigmoid(k), g)
    }

    /// Inequality as `1 - eq` under the Gaussian bump.
    pub fn ne_sigmoid(&self, rhs: &Expression, k: Fp, g: &mut Graph) -> (r: Result<
        Expression,
        ShapeMismatch,
    >)
        requires
            self.wf(*old(g)),
            rhs.wf(*old(g)),
            old(g).next_grad_id < u64::MAX,
            !sign_set(k.bits),
        ensures
            extends(*final(g), *old(g)),
            r is Ok ==> r->Ok_0.wf(*final(g)),
            cmp_result_ok(
                *old(g),
                *final(g),
                *self,
                *rhs,
                CmpOp::Ne,
                CmpMethod::Sigmoid(CmpMethodSigmoid { k }),
                r,
            ),
    {
        self.cmp_op(rhs, CmpOp::Ne, CmpMethod::new_sigmoid(k), g)
    }

    /// `<=` smoothed by the logistic curve `1 / (1 + exp(k (a - b)))`.
    pub fn le_sigmoid(&self, rhs: &Expression, k: Fp, g: &mut Graph) -> (r: Result<
        Expression,
        ShapeMismatch,
    >)
        requires
            self.wf(*old(g)),
            rhs.wf(*old(g)),
            old(g).next_grad_id < u64::MAX,
            !sign_set(k.bits),
        ensures
            extends(*final(g), *old(g)),
            r is Ok ==> r->Ok_0.wf(*final(g)),
            cmp_result_ok(
                *old(g),
                *final(g),
                *self,
                *rhs,
                CmpOp::Le,
                CmpMethod::Sigmoid(CmpMethodSigmoid { k }),
                r,
            ),
    {
        self.cmp_op(rhs, CmpOp::Le, CmpMethod::new_sigmoid(k), g)
    }

    /// `>=` as the operand-swapped logistic curve.
    pub fn ge_sigmoid(&self, rhs: &Expression, k: Fp, g: &mut Graph) -> (r: Result<
        Expression,
        ShapeMismatch,
    >)
        requires
            self.wf(*old(g)),
            rhs.wf(*old(g)),
            old(g).next_grad_id < u64::MAX,
            !sign_set(k.bits),
        ensures
            extends(*final(g), *old(g)),
            r is Ok ==> r->Ok_0.wf(*final(g)),
            cmp_result_ok(
                *old(g),
                *final(g),
                *self,
                *rhs,
                CmpOp::Ge,
                CmpMethod::Sigmoid(CmpMethodSigmoid { k }),
                r,
            ),
    {
        self.cmp_op(rhs, CmpOp::Ge, CmpMethod::new_sigmoid(k), g)
    }

    /// `<` smoothed by the same logistic curve as `<=`.
    pub fn lt_sigmoid(&self, rhs: &Expression, k: Fp, g: &mut Graph) -> (r: Result<
        Expression,
        ShapeMismatch,
    >)
        requires
            self.wf(*old(g)),
            rhs.wf(*old(g)),
            old(g).next_grad_id < u64::MAX,
            !sign_set(k.bits),
        ensures
            extends(*final(g), *old(g)),
            r is Ok ==> r->Ok_0.wf(*final(g)),
            cmp_result_ok(
                *old(g),
                *final(g),
                *self,
                *rhs,
                CmpOp::Lt,
                CmpMethod::Sigmoid(CmpMethodSigmoid { k }),
                r,
            ),
    {
        self.cmp_op(rhs, CmpOp::Lt, CmpMethod::new_sigmoid(k), g)
    }

    /// `>` as the operand-swapped logistic curve.
    pub fn gt_sigmoid(&self, rhs: &Expression, k: Fp, g: &mut Graph) -> (r: Result<
        Expression,
        ShapeMismatch,
    >)
        requires
            self.wf(*old(g)),
            rhs.wf(*old(g)),
            old(g).next_grad_id < u64::MAX,
            !sign_set(k.bits),
        ensures
            extends(*final(g), *old(g)),
            r is Ok ==> r->Ok_0.wf(*final(g)),
            cmp_result_ok(
                *old(g),
                *final(g),
                *self,
                *rhs,
                CmpOp::Gt,
                CmpMethod::Sigmoid(CmpMethodSigmoid { k }),
                r,
            ),
    {
        self.cmp_op(rhs, CmpOp::Gt, CmpMethod::new_sigmoid(k), g)
    }

    /// Equality smoothed by the linear ramp of half-width `epsilon`.
    pub fn eq_linear(&self, rhs: &Expression, epsilon: Fp, g: &mut Graph) -> (r: Result<
        Expression,
        ShapeMismatch,
    >)
        requires
            self.wf(*old(g)),
            rhs.wf(*old(g)),
            old(g).next_grad_id < u64::MAX,
            !sign_set(epsilon.bits),
        ensures
            extends(*final(g), *old(g)),
            r is Ok ==> r->Ok_0.wf(*final(g)),
            cmp_result_ok(
                *old(g),
                *final(g),
                *self,
                *rhs,
                CmpOp::Eq,
                CmpMethod::Linear(CmpMethodLinear { epsilon }),
                r,
            ),
    {
        self.cmp_op(rhs, CmpOp::Eq, CmpMethod::new_linear(epsilon), g)
    }

    /// Inequality as `1 - eq` under the linear ramp.
    pub fn ne_linear(&self, rhs: &Expression, epsilon: Fp, g: &mut Graph) -> (r: Result<
        Expression,
        ShapeMismatch,
    >)
        requires
            self.wf(*old(g)),
            rhs.wf(*old(g)),
            old(g).next_grad_id < u64::MAX,
            !sign_set(epsilon.bits),
        ensures
            extends(*final(g), *old(g)),
            r is Ok ==> r->Ok_0.wf(*final(g)),
            cmp_result_ok(
                *old(g),
                *final(g),
                *self,
                *rhs,
                CmpOp::Ne,
                CmpMethod::Linear(CmpMethodLinear { epsilon }),
                r,
            ),
    {
        self.cmp_op(rhs, CmpOp::Ne, CmpMethod::new_linear(epsilon), g)
    }

    /// `<=` smoothed by the descending linear ramp.
    pub fn le_linear(&self, rhs: &Expression, epsilon: Fp, g: &mut Graph) -> (r: Result<
        Expression,
        ShapeMismatch,
    >)
        requires
            self.wf(*old(g)),
            rhs.wf(*old(g)),
            old(g).next_grad_id < u64::MAX,
            !sign_set(epsilon.bits),
        ensures
            extends(*final(g), *old(g)),
            r is Ok ==> r->Ok_0.wf(*final(g)),
            cmp_result_ok(
                *old(g),
                *final(g),
                *self,
                *rhs,
                CmpOp::Le,
                CmpMethod::Linear(CmpMethodLinear { epsilon }),
                r,
            ),
    {
        self.cmp_op(rhs, CmpOp::Le, CmpMethod::new_linear(epsilon), g)
    }

    /// `>=` as the operand-swapped linear ramp.
    pub fn ge_linear(&self, rhs: &Expression, epsilon: Fp, g: &mut Graph) -> (r: Result<
        Expression,
        ShapeMismatch,
    >)
        requires
            self.wf(*old(g)),
            rhs.wf(*old(g)),
            old(g).next_grad_id < u64::MAX,
            !sign_set(epsilon.bits),
        ensures
            extends(*final(g), *old(g)),
            r is Ok ==> r->Ok_0.wf(*final(g)),
            cmp_result_ok(
                *old(g),
                *final(g),
                *self,
                *rhs,
                CmpOp::Ge,
                CmpMethod::Linear(CmpMethodLinear { epsilon }),
                r,
            ),
    {
        self.cmp_op(rhs, CmpOp::Ge, CmpMethod::new_linear(epsilon), g)
    }

    /// `<` smoothed by the same linear ramp as `<=`.
    pub fn lt_linear(&self, rhs: &Expression, epsilon: Fp, g: &mut Graph) -> (r: Result<
        Expression,
        ShapeMismatch,
    >)
        requires
            self.wf(*old(g)),
            rhs.wf(*old(g)),
            old(g).next_grad_id < u64::MAX,
            !sign_set(epsilon.bits),
        ensures
            extends(*final(g), *old(g)),
            r is Ok ==> r->Ok_0.wf(*final(g)),
            cmp_result_ok(
                *old(g),
                *final(g),
                *self,
                *rhs,
                CmpOp::Lt,
                CmpMethod::Linear(CmpMethodLinear { epsilon }),
                r,
            ),
    {
        self.cmp_op(rhs, CmpOp::Lt, CmpMethod::new_linear(epsilon), g)
    }

    /// `>` as the operand-swapped linear ramp.
    pub fn gt_linear(&self, rhs: &Expression, epsilon: Fp, g: &mut Graph) -> (r: Result<
        Expression,
        ShapeMismatch,
    >)
        requires
            self.wf(*old(g)),
            rhs.wf(*old(g)),
            old(g).next_grad_id < u64::MAX,
            !sign_set(epsilon.bits),
        ensures
            extends(*final(g), *old(g)),
            r is Ok ==> r->Ok_0.wf(*final(g)),
            cmp_result_ok(
                *old(g),
                *final(g),
                *self,
                *rhs,
                CmpOp::Gt,
                CmpMethod::Linear(CmpMethodLinear { epsilon }),
                r,
            ),
    {
        self.cmp_op(rhs, CmpOp::Gt, CmpMethod::new_linear(epsilon), g)
    }
}

/// What a select call leaves behind.  A constant condition with at least
/// one tensor branch short-circuits: the branch expression picked by the
/// exact zero test is returned as it is and the graph is left alone.  Three
/// constants fold to the blended scalar.  A tensor condition blends
/// elementwise, requiring every tensor operand to share one length, and the
/// result carries a fresh identity exactly when a tensor operand did.
pub open spec fn cond_result_ok(
    pre: Graph,
    post: Graph,
    c: Expression,
    t: Expression,
    f: Expression,
    r: Result<Expression, ShapeMismatch>,
) -> bool {
    match c.spec_tensor() {
        Option::None => same_graph(post, pre) && match (t.spec_tensor(), f.spec_tensor()) {
            (Option::None, Option::None) => r == Result::<Expression, ShapeMismatch>::Ok(
                Expression::Const(
                    Fp {
                        bits: cond_fwd_bits(
                            c.spec_const().bits,
                            t.spec_const().bits,
                            f.spec_const().bits,
                        ),
                    },
                ),
            ),
            _ => r == Result::<Expression, ShapeMismatch>::Ok(
                if is_zero_bits(c.spec_const().bits) {
                    f
                } else {
                    t
                },
            ),
        },
        Option::Some(tc) => {
            let cs = tc.spec_values(pre);
            let with_grad = c.tracks_grad(pre) || t.tracks_grad(pre) || f.tracks_grad(pre);
            match (t.spec_tensor(), f.spec_tensor()) {
                (Option::None, Option::None) => {
                    let out = post.tensors@.last().values@;
                    &&& r is Ok
                    &&& appended_node(pre, post, Op::Cond(c, t, f), with_grad, r->Ok_0)
                    &&& out.len() == cs.len()
                    &&& forall|i: int|
                        0 <= i < cs.len() ==> out[i].bits == cond_fwd_bits(
                            cs[i].bits,
                            t.spec_const().bits,
                            f.spec_const().bits,
                        )
                },
                (Option::None, Option::Some(tf)) => {
                    let fs = tf.spec_values(pre);
                    if cs.len() == fs.len() {
                        let out = post.tensors@.last().values@;
                        &&& r is Ok
                        &&& appended_node(pre, post, Op::Cond(c, t, f), with_grad, r->Ok_0)
                        &&& out.len() == cs.len()
                        &&& forall|i: int|
                            0 <= i < cs.len() ==> out[i].bits == cond_fwd_bits(
                                cs[i].bits,
                                t.spec_const().bits,
                                fs[i].bits,
                            )
                    } else {
                        same_graph(post, pre) && r == Result::<Expression, ShapeMismatch>::Err(
                            ShapeMismatch {
                                lhs_len: cs.len() as usize,
                                rhs_len: fs.len() as usize,
                            },
                        )
                    }
                },
                (Option::Some(tt), Option::None) => {
                    let ts = tt.spec_values(pre);
                    if cs.len() == ts.len() {
                        let out = post.tensors@.last().values@;
                        &&& r is Ok
                        &&& appended_node(pre, post, Op::Cond(c, t, f), with_grad, r->Ok_0)
                        &&& out.len() == cs.len()
                        &&& forall|i: int|
                            0 <= i < cs.len() ==> out[i].bits == cond_fwd_bits(
                                cs[i].bits,
                                ts[i].bits,
                                f.spec_const().bits,
                            )
                    } else {
                        same_graph(post, pre) && r == Result::<Expression, ShapeMismatch>::Err(
                            ShapeMismatch {
                                lhs_len: cs.len() as usize,
                                rhs_len: ts.len() as usize,
                            },
                        )
                    }
                },
                (Option::Some(tt), Option::Some(tf)) => {
                    let ts = tt.spec_values(pre);
                    let fs = tf.spec_values(pre);
                    if cs.len() == ts.len() && cs.len() == fs.len() {
                        let out = post.tensors@.last().values@;
                        &&& r is Ok
                        &&& appended_node(pre, post, Op::Cond(c, t, f), with_grad, r->Ok_0)
                        &&& out.len() == cs.len()
                        &&& forall|i: int|
                            0 <= i < cs.len() ==> out[i].bits == cond_fwd_bits(
                                cs[i].bits,
                                ts[i].bits,
                                fs[i].bits,
                            )
                    } else if cs.len() != ts.len() {
                        same_graph(post, pre) && r == Result::<Expression, ShapeMismatch>::Err(
                            ShapeMismatch {
                                lhs_len: cs.len() as usize,
                                rhs_len: ts.len() as usize,
                            },
                        )
                    } else {
                        same_graph(post, pre) && r == Result::<Expression, ShapeMismatch>::Err(
                            ShapeMismatch {
                                lhs_len: cs.len() as usize,
                                rhs_len: fs.len() as usize,
                            },
                        )
                    }
                },
            }
        },
    }
}

impl Expression {
    /// The smoothed select `(self) ? on_true : on_false`, blending the
    /// branches by `cond * on_true + (1 - cond) * on_false`.  A constant
    /// condition with a tensor branch selects the branch expression by an
    /// exact zero test instead of building a node.
    pub fn cond(&self, on_true: &Expression, on_false: &Expression, g: &mut Graph) -> (r: Result<
        Expression,
        ShapeMismatch,
    >)
        requires
            self.wf(*old(g)),
            on_true.wf(*old(g)),
            on_false.wf(*old(g)),
            old(g).next_grad_id < u64::MAX,
        ensures
            extends(*final(g), *old(g)),
            r is Ok ==> r->Ok_0.wf(*final(g)),
            cond_result_ok(*old(g), *final(g), *self, *on_true, *on_false, r),
    {
        let cv = self.value(g);
        let tv = on_true.value(g);
        let fv = on_false.value(g);
        match (cv, tv, fv) {
            (ScalarTensor::Scalar(c), ScalarTensor::Scalar(t), ScalarTensor::Scalar(f)) => Ok(
                Expression::Const(Cond::forward(c, t, f)),
            ),
            (ScalarTensor::Scalar(c), _, _) => {
                if c.is_zero() {
                    Ok(*on_false)
                } else {
                    Ok(*on_true)
                }
            },
            (ScalarTensor::Tensor(tc), ScalarTensor::Scalar(t), ScalarTensor::Scalar(f)) => {
                let out = Cond::iter_tensor_x_x(&g.tensors[tc.id].values, t, f);
                let with_grad = g.tensors[tc.id].grad_id.is_some();
                Ok(self.push_cond_node(on_true, on_false, out, with_grad, g))
            },
            (ScalarTensor::Tensor(tc), ScalarTensor::Scalar(t), ScalarTensor::Tensor(tf)) => {
                let lc = g.tensors[tc.id].values.len();
                let lf = g.tensors[tf.id].values.len();
                if lc != lf {
                    return Err(ShapeMismatch { lhs_len: lc, rhs_len: lf });
                }
                let out = Cond::iter_tensor_x_tensor(
                    &g.tensors[tc.id].values,
                    t,
                    &g.tensors[tf.id].values,
                );
                let with_grad = g.tensors[tc.id].grad_id.is_some() || g.tensors[
                    tf.id
                ].grad_id.is_some();
                Ok(self.push_cond_node(on_true, on_false, out, with_grad, g))
            },
            (ScalarTensor::Tensor(tc), ScalarTensor::Tensor(tt), ScalarTensor::Scalar(f)) => {
                let lc = g.tensors[tc.id].values.len();
                let lt = g.tensors[tt.id].values.len();
                if lc != lt {
                    return Err(ShapeMismatch { lhs_len: lc, rhs_len: lt });
                }
                let out = Cond::iter_tensor_tensor_x(
                    &g.tensors[tc.id].values,
                    &g.tensors[tt.id].values,
                    f,
                );
                let with_grad = g.tensors[tc.id].grad_id.is_some() || g.tensors[
                    tt.id
                ].grad_id.is_some();
                Ok(self.push_cond_node(on_true, on_false, out, with_grad, g))
            },
            (ScalarTensor::Tensor(tc), ScalarTensor::Tensor(tt), ScalarTensor::Tensor(tf)) => {
                let lc = g.tensors[tc.id].values.len();
                let lt = g.tensors[tt.id].values.len();
                let lf = g.tensors[tf.id].values.len();
                if lc != lt {
                    return Err(ShapeMismatch { lhs_len: lc, rhs_len: lt });
                }
                if lc != lf {
                    return Err(ShapeMismatch { lhs_len: lc, rhs_len: lf });
                }
                let out = Cond::iter_tensor_tensor_tensor(
                    &g.tensors[tc.id].values,
                    &g.tensors[tt.id].values,
                    &g.tensors[tf.id].values,
                );
                let with_grad = g.tensors[tc.id].grad_id.is_some() || g.tensors[
                    tt.id
                ].grad_id.is_some() || g.tensors[tf.id].grad_id.is_some();
                Ok(self.push_cond_node(on_true, on_false, out, with_grad, g))
            },
        }
    }

    /// Appends the blended buffer and the select's provenance to the graph.
    fn push_cond_node(
        &self,
        on_true: &Expression,
        on_false: &Expression,
        out: Vec<Fp>,
        with_grad: bool,
        g: &mut Graph,
    ) -> (r: Expression)
        requires
            old(g).next_grad_id < u64::MAX,
        ensures
            appended_node(
                *old(g),
                *final(g),
                Op::Cond(*self, *on_true, *on_false),
                with_grad,
                r,
            ),
            final(g).tensors@.last().values@ == out@,
            extends(*final(g), *old(g)),
            r.wf(*final(g)),
    {
        let grad_id: Option<GradId> = if with_grad {
            let id = g.next_grad_id;
            g.next_grad_id = id + 1;
            Some(GradId { id })
        } else {
            None
        };
        let opid = g.ops.len();
        g.ops.push(Op::Cond(*self, *on_true, *on_false));
        let tid = g.tensors.len();
        g.tensors.push(TensorBuf { grad_id, values: out, changed: false });
        Expression::Operation(Tensor { id: tid }, opid)
    }
}

impl Graph {
    /// An empty arena.
    pub fn new() -> (r: Graph)
        ensures
            r.tensors@.len() == 0,
            r.ops@.len() == 0,
            r.next_grad_id == 0,
    {
        Graph { tensors: Vec::new(), ops: Vec::new(), next_grad_id: 0 }
    }
}

} // verus!
