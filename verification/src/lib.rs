//! Estimation of Gaussian curve parameters — amplitude, center and spread —
//! from a fixed number of sampled points, by log-linearization and a
//! singular-value-decomposition least-squares solve.
//!
//! Every quantity is a single-precision IEEE 754 value carried as its raw
//! bit pattern ([`fp32::Real32`]); the rounded arithmetic itself is done by
//! the `rustc_apfloat` software implementation of IEEE 754 behind exact
//! bit-level contracts, while the transcendental steps (the logarithm of
//! the dependent samples, the final exponential and square root) and the
//! SVD solve are left to the caller.

pub mod error;
pub mod fp32;
pub mod gaussian_curve_fit;
