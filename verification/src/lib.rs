//! A differentiable expression evaluation engine.
//!
//! Callers compose constants and parameters into an eagerly evaluated
//! expression graph over scalars and equal-length vectors.  Every operator
//! supplies an exact forward rule and a matching additive backward rule,
//! comparisons and the ternary select can be smoothed into differentiable
//! surrogates, and a result is tagged with a fresh gradient identity
//! exactly when one of its operands already tracks gradients.
//!
//! Scalars are IEEE-754 double-precision values carried by their bit
//! pattern (see [`fp::Fp`]), so that every rule of the engine is stated
//! and checked exactly, down to the bits the platform's arithmetic
//! returns.

pub mod binary;
pub mod cmp;
pub mod cond;
pub mod fp;
pub mod graph;
pub mod laws;
pub mod unary;

pub use binary::BinaryOp;
pub use cmp::{CmpMethod, CmpMethodDiscret, CmpMethodLinear, CmpMethodSigmoid, CmpOp};
pub use cond::{Cond, Powf};
pub use fp::Fp;
pub use graph::{Expression, GradId, Graph, Op, ScalarTensor, ShapeMismatch, Tensor, TensorBuf};
pub use unary::UnaryOp;
