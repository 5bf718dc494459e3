use vstd::prelude::*;

verus! {

/// Why a density could not be given for the operands of a call.
#[derive(Clone, Copy, Debug, PartialEq, Eq, Structural)]
pub enum DomainError {
    /// The query point is a uniform marker, which has no position to evaluate at.
    UniformQuery,
    /// The scalar bandwidth is zero or negative.
    NonPositiveBandwidth,
    /// The interval of a uniform marker has zero or negative width.
    NonPositiveWidth,
    /// The determinant of the bandwidth matrix is zero or negative.
    NotPositiveDefinite,
    /// The matrix has determinant zero and so no inverse.
    Singular,
}

} // verus!
