//! Composite Simpson quadrature over evenly spaced samples.
//!
//! The library holds the exact, integer-valued core of two quadrature rules:
//! the composite Simpson 1/3 rule with its 1-4-2-...-2-4-1 weight pattern,
//! and a boundary-corrected variant whose four samples at each end carry the
//! fixed Newton-Cotes correction weights 17, 59, 43, 49 while every sample in
//! between carries 48. Input validation, the weight tables, and the exactness
//! laws of the Simpson pattern are stated and proved here; the floating-point
//! evaluation of an integral from a weight table is left to callers.
//!
//! Node positions are assumed uniformly spaced: a caller that derives the step
//! from the endpoints of a non-uniform grid gets a mathematically wrong value,
//! which no validation here detects.

use vstd::prelude::*;

pub mod laws;
pub mod weights;

verus! {

/// Why a sample table was rejected before any weight was computed.
#[derive(Clone, Copy, Debug, PartialEq, Eq, Structural)]
pub enum InvalidInput {
    /// The composite Simpson rule needs an even number of subintervals.
    OddSubintervalCount,
    /// The rule has no room for its stencil: no pair of subintervals for the
    /// composite rule, or overlapping boundary blocks for the corrected rule.
    TooFewSubintervals,
    /// The table of samples and the table of node positions differ in length.
    MismatchedLengths,
}

/// Checks that the sample table and the node table describe one grid and
/// returns its subinterval count: one less than the shared length.
pub fn subinterval_count(fx_len: usize, x_len: usize) -> (r: Result<usize, InvalidInput>)
    ensures
        fx_len != x_len ==> r == Err::<usize, InvalidInput>(InvalidInput::MismatchedLengths),
        fx_len == x_len && fx_len == 0 ==> r == Err::<usize, InvalidInput>(
            InvalidInput::TooFewSubintervals,
        ),
        fx_len == x_len && fx_len >= 1 ==> r == Ok::<usize, InvalidInput>((fx_len - 1) as usize),
{
    if fx_len != x_len {
        Err(InvalidInput::MismatchedLengths)
    } else if fx_len == 0 {
        Err(InvalidInput::TooFewSubintervals)
    } else {
        Ok(fx_len - 1)
    }
}

} // verus!
