//! Parameterless activation variants.
use vstd::prelude::*;

verus! {

/// The hyperbolic tangent activation: maps a weighted sum `x` to `tanh(x)`.
#[derive(Debug, Clone, Copy, PartialEq, Eq)]
pub struct HyperbolicTangent;

/// The logistic activation: maps a weighted sum `x` to `1 / (1 + e^-x)`.
#[derive(Debug, Clone, Copy, PartialEq, Eq)]
pub struct Logistic;

} // verus!
