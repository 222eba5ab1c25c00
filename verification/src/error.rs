//! The error vocabulary of the fitting core.
//!
//! The fit itself never raises these: a numerically invalid fit is encoded
//! as the all-zero degenerate coefficient state.  The variants are offered
//! for validation layers that callers may put on top of the core.

use vstd::prelude::*;
use crate::fp32::Real32;

verus! {

/// A typed failure of the fitting pipeline or of validation layered on it.
#[derive(Clone, Copy, Debug, PartialEq, Eq, Structural)]
pub enum CustomError {
    /// A spread parameter was constructed as non-positive or out of domain.
    IllegalSigma(Real32),
    /// One of the two axis spreads was constructed as non-positive or out
    /// of domain.
    IllegalSigmaXY(Real32, Real32),
    /// The linear solve produced a numerically unusable result.
    IllegalResult,
    /// The singular value decomposition could not complete.
    SvdFailed,
    /// The supplied matrix, target and column dimensions do not agree.
    MatrixSizeNotMatch,
}

} // verus!
