//! Shape calculus for GPT-Neo-style local self-attention.
//!
//! A GPT-Neo attention layer splits projected hidden states into heads,
//! builds sliding-window lookback blocks for local attention, computes
//! masked scaled dot-product attention, and merges the heads back into a
//! hidden-size tensor.  Every one of those steps is, at its core, a
//! transformation of tensor shapes: rank checks, paddings, reshapes,
//! permutations and unfolds.  This crate verifies that shape calculus.
//!
//! Each public function takes tensor shapes (vectors of dimension sizes)
//! and returns the shape the corresponding tensor operation produces, or
//! the error the attention layer reports for an unsupported rank.  A
//! caller that owns the actual tensors drives its tensor library with the
//! results.

pub mod attention;
pub mod shape;
