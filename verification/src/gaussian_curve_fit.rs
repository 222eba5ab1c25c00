//! The Gaussian curve fitting core.
//!
//! A Gaussian `f(x) = alpha * exp(-(x - mu)^2 / (2 sigma^2))` becomes, after
//! taking logarithms, a quadratic polynomial whose coefficients are linear
//! in the unknowns; the fit is therefore a linear least-squares problem.
//! This module builds the design matrix, turns a solved coefficient vector
//! back into the physical parameters, and evaluates the fitted curve, all
//! over raw single-precision bit patterns.  The caller supplies the three
//! steps that cannot be carried out on bit patterns here: the logarithm of
//! the dependent samples, the least-squares solve itself, and the final
//! exponential and square root of the reconstruction.

use vstd::prelude::*;
use crate::error::CustomError;
use crate::fp32::{
    Real32, add_bits, sub_bits, mul_bits, div_bits, neg_bits, is_below_zero_bits,
    has_positive_magnitude, is_zero_bits, BITS_ZERO, BITS_ONE, BITS_TWO, BITS_FOUR, BITS_NEG_TWO,
};

verus! {

/// Validates runtime-supplied dimensions of a solve call: a row-major
/// matrix of `matrix_len` entries with `columns` columns agrees with a
/// target vector of `target_len` entries exactly when
/// `matrix_len == columns * target_len`.  The fixed-size entry points of
/// this crate make a mismatch impossible by type; a caller that takes
/// dimensions at run time must reject a mismatch through this check
/// rather than truncate.
pub fn validate_solve_dimensions(matrix_len: usize, columns: usize, target_len: usize) -> (r:
    Result<(), CustomError>)
    ensures
        r is Ok <==> matrix_len == columns * target_len,
        r is Err ==> r == Err::<(), CustomError>(CustomError::MatrixSizeNotMatch),
{
    match columns.checked_mul(target_len) {
        Some(product) => {
            if matrix_len == product {
                Ok(())
            } else {
                Err(CustomError::MatrixSizeNotMatch)
            }
        },
        None => Err(CustomError::MatrixSizeNotMatch),
    }
}

/// Coefficients of a one-variable Gaussian curve `f(x)`: amplitude `alpha`,
/// center `mu` and spread `sigma`.  The all-zero state is the degenerate
/// "no valid peak found" result.
#[derive(Clone, Copy, Debug, PartialEq, Eq, Structural)]
pub struct GaussianCoefficents2D {
    pub alpha: Real32,
    pub mu: Real32,
    pub sigma: Real32,
}

/// Outcome of the linear back-transform for a one-variable curve, before
/// the final exponential and square root.  A solved vector `[r0, r1, r2]`
/// admits a peak only if `r2 < 0`, since `sigma^2 = -1 / (2 r2)` must be
/// positive; the peak carries `log_alpha = r0 - r1^2 / (4 r2)`,
/// `mu = -r1 / (2 r2)` and `neg_two_r2 = -2 r2`, from whose square root
/// the spread `sigma = 1 / sqrt(-2 r2)` is formed.
#[derive(Clone, Copy, Debug, PartialEq, Eq, Structural)]
pub enum Reconstruction2D {
    NoPeak,
    Peak { log_alpha: Real32, mu: Real32, neg_two_r2: Real32 },
}

/// The all-zero degenerate coefficient state for a one-variable curve.
pub open spec fn spec_degenerate_2d() -> GaussianCoefficents2D {
    GaussianCoefficents2D {
        alpha: Real32 { bits: BITS_ZERO },
        mu: Real32 { bits: BITS_ZERO },
        sigma: Real32 { bits: BITS_ZERO },
    }
}

/// The back-transform of a solved vector for a one-variable curve.
pub open spec fn spec_reconstruct_2d(solved: Option<[Real32; 3]>) -> Reconstruction2D {
    match solved {
        Option::None => Reconstruction2D::NoPeak,
        Option::Some(r) => {
            if is_below_zero_bits(r[2].bits) {
                Reconstruction2D::Peak {
                    log_alpha: Real32 {
                        bits: sub_bits(
                            r[0].bits,
                            div_bits(mul_bits(r[1].bits, r[1].bits), mul_bits(BITS_FOUR, r[2].bits)),
                        ),
                    },
                    mu: Real32 { bits: div_bits(neg_bits(r[1].bits), mul_bits(BITS_TWO, r[2].bits)) },
                    neg_two_r2: Real32 { bits: mul_bits(BITS_NEG_TWO, r[2].bits) },
                }
            } else {
                Reconstruction2D::NoPeak
            }
        },
    }
}

/// The coefficient state that a reconstruction settles into, once the
/// caller has taken `alpha = exp(log_alpha)` and `root = sqrt(neg_two_r2)`.
pub open spec fn spec_apply_2d(rec: Reconstruction2D, alpha: Real32, root: Real32) -> GaussianCoefficents2D {
    match rec {
        Reconstruction2D::NoPeak => spec_degenerate_2d(),
        Reconstruction2D::Peak { mu, .. } => GaussianCoefficents2D {
            alpha,
            mu,
            sigma: Real32 { bits: div_bits(BITS_ONE, root.bits) },
        },
    }
}

/// The exponent `-(x - mu)^2 / (2 sigma sigma)` of the fitted curve at `x`,
/// as a bit pattern.
pub open spec fn spec_exponent_2d(c: GaussianCoefficents2D, x: Real32) -> u32 {
    div_bits(
        neg_bits(mul_bits(sub_bits(x.bits, c.mu.bits), sub_bits(x.bits, c.mu.bits))),
        mul_bits(mul_bits(BITS_TWO, c.sigma.bits), c.sigma.bits),
    )
}

/// The value of the fitted curve, given the exponential factor
/// `f = exp(spec_exponent_2d(c, x))` that the caller computed: zero
/// whenever the spread has no positive magnitude (the degenerate state),
/// and `alpha * f` otherwise.
pub open spec fn spec_value_2d(c: GaussianCoefficents2D, f: Option<Real32>) -> u32 {
    if has_positive_magnitude(c.sigma.bits) {
        match f {
            Option::Some(e) => mul_bits(c.alpha.bits, e.bits),
            Option::None => BITS_ZERO,
        }
    } else {
        BITS_ZERO
    }
}

impl Default for GaussianCoefficents2D {
    /// The empty (degenerate, all-zero) coefficient state.
    fn default() -> (r: Self)
        ensures
            r == spec_degenerate_2d(),
    {
        GaussianCoefficents2D {
            alpha: Real32 { bits: BITS_ZERO },
            mu: Real32 { bits: BITS_ZERO },
            sigma: Real32 { bits: BITS_ZERO },
        }
    }
}

/// Entry `j` of the row-major design matrix built from the sample
/// abscissas `x` for a one-variable curve: row `k = j / 3` is
/// `[1, x_k, x_k^2]`.
pub open spec fn spec_design_entry_2d(x: Seq<Real32>, j: int) -> Real32 {
    let k = j / 3;
    if j % 3 == 0 {
        Real32 { bits: BITS_ONE }
    } else if j % 3 == 1 {
        x[k]
    } else {
        Real32 { bits: mul_bits(x[k].bits, x[k].bits) }
    }
}

impl GaussianCoefficents2D {
    /// The raw coefficient triple `(alpha, mu, sigma)`.
    pub fn coefficents(&self) -> (r: (Real32, Real32, Real32))
        ensures
            r == (self.alpha, self.mu, self.sigma),
    {
        (self.alpha, self.mu, self.sigma)
    }

    /// The peak of the curve: its center and its amplitude.
    pub fn peak(&self) -> (r: (Real32, Real32))
        ensures
            r == (self.mu, self.alpha),
    {
        (self.mu, self.alpha)
    }

    /// Builds the design matrix and target vector of the log-linearized
    /// least-squares problem from 8 sample points.  Row `i` of the matrix
    /// is `[1, x_i, x_i^2]`, stored row-major; the target entries are the
    /// natural logarithms of the strictly positive dependent samples,
    /// which the caller computes (`ln_y[i] = ln(y_i)`), since the
    /// logarithm cannot be taken on raw bit patterns here.
    pub fn get_matrix_data_from_8_points(x: &[Real32; 8], ln_y: &[Real32; 8]) -> (r: (
        [Real32; 24],
        [Real32; 8],
    ))
        ensures
            forall|j: int| 0 <= j < 24 ==> #[trigger] r.0@[j] == spec_design_entry_2d(x@, j),
            r.1@ == ln_y@,
    {
        let mut m: [Real32; 24] = [Real32 { bits: BITS_ZERO }; 24];
        let mut i: usize = 0;
        while i < 8
            invariant
                i <= 8,
                forall|j: int| 0 <= j < 3 * i ==> #[trigger] m@[j] == spec_design_entry_2d(x@, j),
            decreases 8 - i,
        {
            let xi = x[i];
            m[3 * i] = Real32 { bits: BITS_ONE };
            m[3 * i + 1] = xi;
            m[3 * i + 2] = xi.mul(xi);
            i = i + 1;
        }
        (m, *ln_y)
    }

    /// The back-transform of a solved vector `[r0, r1, r2]` of the linear
    /// system: a peak exists only under the curvature-sign precondition
    /// `r2 < 0`; otherwise the outcome is `NoPeak`, which
    /// [`Self::get_coefficents_from_reconstruction`] turns into the
    /// all-zero degenerate state.  `None` stands for a failed solve and is
    /// likewise `NoPeak`.
    pub fn reconstruct_from_solved(solved: &Option<[Real32; 3]>) -> (r: Reconstruction2D)
        ensures
            r == spec_reconstruct_2d(*solved),
    {
        match solved {
            None => Reconstruction2D::NoPeak,
            Some(v) => {
                let r2 = v[2];
                if r2.is_below_zero() {
                    let quad = v[1].mul(v[1]).div(Real32 { bits: BITS_FOUR }.mul(r2));
                    Reconstruction2D::Peak {
                        log_alpha: v[0].sub(quad),
                        mu: v[1].neg().div(Real32 { bits: BITS_TWO }.mul(r2)),
                        neg_two_r2: Real32 { bits: BITS_NEG_TWO }.mul(r2),
                    }
                } else {
                    Reconstruction2D::NoPeak
                }
            },
        }
    }

    /// Stores the reconstructed coefficients and returns a copy of the new
    /// state.  The caller supplies the two steps that cannot be carried
    /// out on raw bit patterns here: `alpha = exp(log_alpha)` and
    /// `root = sqrt(neg_two_r2)` of a `Peak` reconstruction; the spread
    /// becomes `sigma = 1 / root`.  On `NoPeak` both arguments are ignored
    /// and every field is set to zero: "no valid peak found" is a defined
    /// output state, not an error.
    pub fn get_coefficents_from_reconstruction(
        &mut self,
        rec: &Reconstruction2D,
        alpha: Real32,
        root: Real32,
    ) -> (r: Self)
        ensures
            *final(self) == spec_apply_2d(*rec, alpha, root),
            r == *final(self),
    {
        match rec {
            Reconstruction2D::NoPeak => {
                self.alpha = Real32 { bits: BITS_ZERO };
                self.mu = Real32 { bits: BITS_ZERO };
                self.sigma = Real32 { bits: BITS_ZERO };
            },
            Reconstruction2D::Peak { log_alpha: _, mu, neg_two_r2: _ } => {
                self.alpha = alpha;
                self.mu = *mu;
                self.sigma = Real32 { bits: BITS_ONE }.div(root);
            },
        }
        GaussianCoefficents2D { alpha: self.alpha, mu: self.mu, sigma: self.sigma }
    }

    /// The exponent `-(x - mu)^2 / (2 sigma sigma)` of the curve at `x`,
    /// or `None` when the spread has no positive magnitude — the caller
    /// must then not form the exponential, and the curve value is zero.
    pub fn value_exponent(&self, x: Real32) -> (r: Option<Real32>)
        ensures
            r is Some <==> has_positive_magnitude(self.sigma.bits),
            r matches Some(t) ==> t.bits == spec_exponent_2d(*self, x),
    {
        if self.sigma.has_positive_magnitude() {
            let d = x.sub(self.mu);
            let num = d.mul(d).neg();
            let den = Real32 { bits: BITS_TWO }.mul(self.sigma).mul(self.sigma);
            Some(num.div(den))
        } else {
            None
        }
    }

    /// The value of the curve at the point whose exponential factor
    /// `f = exp(value_exponent(x))` the caller computed: exactly zero in
    /// the degenerate state (zero or NaN spread, or no factor), and
    /// `alpha * f` otherwise.
    pub fn value_from_exp_factor(&self, f: Option<Real32>) -> (r: Real32)
        ensures
            r.bits == spec_value_2d(*self, f),
    {
        if self.sigma.has_positive_magnitude() {
            match f {
                Some(e) => self.alpha.mul(e),
                None => Real32 { bits: BITS_ZERO },
            }
        } else {
            Real32 { bits: BITS_ZERO }
        }
    }
}

/// Degeneracy law for the one-variable fit: whenever the solve failed or
/// the curvature coefficient `r2` is not strictly negative (in particular
/// whenever `r2 >= 0`), the stored coefficients are all exactly zero,
/// whatever values the caller supplies for the exponential and the root.
pub proof fn lemma_nonnegative_curvature_gives_degenerate_2d(
    solved: Option<[Real32; 3]>,
    alpha: Real32,
    root: Real32,
)
    requires
        solved matches Some(v) ==> !is_below_zero_bits(v[2].bits),
    ensures
        spec_apply_2d(spec_reconstruct_2d(solved), alpha, root) == spec_degenerate_2d(),
{
}

/// Zero-spread law for the one-variable evaluator: when `sigma` is zero
/// (either signed zero), the curve value is exactly zero, whatever
/// exponential factor is supplied.
pub proof fn lemma_zero_sigma_evaluates_to_zero_2d(c: GaussianCoefficents2D, f: Option<Real32>)
    requires
        is_zero_bits(c.sigma.bits),
    ensures
        spec_value_2d(c, f) == BITS_ZERO,
{
}

/// The degenerate all-zero state evaluates to exactly zero everywhere.
pub proof fn lemma_degenerate_evaluates_to_zero_2d(f: Option<Real32>)
    ensures
        spec_value_2d(spec_degenerate_2d(), f) == BITS_ZERO,
{
    assert(0u32 & 0x7FFF_FFFFu32 == 0u32) by (bit_vector);
}

/// End to end: a fit whose solve failed or whose curvature coefficient is
/// not strictly negative stores the all-zero state, and that state
/// evaluates to exactly zero everywhere, whatever the caller supplies for
/// the exponential factors and the root.
pub proof fn lemma_no_peak_fit_evaluates_to_zero_2d(
    solved: Option<[Real32; 3]>,
    alpha: Real32,
    root: Real32,
    f: Option<Real32>,
)
    requires
        solved matches Some(v) ==> !is_below_zero_bits(v[2].bits),
    ensures
        spec_value_2d(spec_apply_2d(spec_reconstruct_2d(solved), alpha, root), f) == BITS_ZERO,
{
    lemma_nonnegative_curvature_gives_degenerate_2d(solved, alpha, root);
    lemma_degenerate_evaluates_to_zero_2d(f);
}

/// Coefficients of a two-variable, axis-aligned Gaussian surface
/// `f(x, y)`: amplitude `alpha`, centers `mu_x`, `mu_y` and independent
/// spreads `sigma_x`, `sigma_y`.  The all-zero state is the degenerate
/// "no valid peak found" result.
#[derive(Clone, Copy, Debug, PartialEq, Eq, Structural)]
pub struct GaussianCoefficents3D {
    pub alpha: Real32,
    pub mu_x: Real32,
    pub mu_y: Real32,
    pub sigma_x: Real32,
    pub sigma_y: Real32,
}

/// Outcome of the linear back-transform for a two-variable surface.  A
/// solved vector `[r0, r1, r2, r3, r4]` admits a peak only if both
/// curvature coefficients `r3` and `r4` are strictly negative; the peak
/// carries `log_alpha = r0 - r1^2 / (4 r3) - r2^2 / (4 r4)`, the centers
/// `mu_x = -r1 / (2 r3)`, `mu_y = -r2 / (2 r4)`, and `-2 r3`, `-2 r4`,
/// from whose square roots the spreads are formed.
#[derive(Clone, Copy, Debug, PartialEq, Eq, Structural)]
pub enum Reconstruction3D {
    NoPeak,
    Peak {
        log_alpha: Real32,
        mu_x: Real32,
        mu_y: Real32,
        neg_two_r3: Real32,
        neg_two_r4: Real32,
    },
}

/// The all-zero degenerate coefficient state for a two-variable surface.
pub open spec fn spec_degenerate_3d() -> GaussianCoefficents3D {
    GaussianCoefficents3D {
        alpha: Real32 { bits: BITS_ZERO },
        mu_x: Real32 { bits: BITS_ZERO },
        mu_y: Real32 { bits: BITS_ZERO },
        sigma_x: Real32 { bits: BITS_ZERO },
        sigma_y: Real32 { bits: BITS_ZERO },
    }
}

/// The back-transform of a solved vector for a two-variable surface.
pub open spec fn spec_reconstruct_3d(solved: Option<[Real32; 5]>) -> Reconstruction3D {
    match solved {
        Option::None => Reconstruction3D::NoPeak,
        Option::Some(r) => {
            if is_below_zero_bits(r[3].bits) && is_below_zero_bits(r[4].bits) {
                Reconstruction3D::Peak {
                    log_alpha: Real32 {
                        bits: sub_bits(
                            sub_bits(
                                r[0].bits,
                                div_bits(
                                    mul_bits(r[1].bits, r[1].bits),
                                    mul_bits(BITS_FOUR, r[3].bits),
                                ),
                            ),
                            div_bits(mul_bits(r[2].bits, r[2].bits), mul_bits(BITS_FOUR, r[4].bits)),
                        ),
                    },
                    mu_x: Real32 {
                        bits: div_bits(neg_bits(r[1].bits), mul_bits(BITS_TWO, r[3].bits)),
                    },
                    mu_y: Real32 {
                        bits: div_bits(neg_bits(r[2].bits), mul_bits(BITS_TWO, r[4].bits)),
                    },
                    neg_two_r3: Real32 { bits: mul_bits(BITS_NEG_TWO, r[3].bits) },
                    neg_two_r4: Real32 { bits: mul_bits(BITS_NEG_TWO, r[4].bits) },
                }
            } else {
                Reconstruction3D::NoPeak
            }
        },
    }
}

/// The coefficient state that a reconstruction settles into, once the
/// caller has taken `alpha = exp(log_alpha)` and the roots
/// `root_x = sqrt(neg_two_r3)`, `root_y = sqrt(neg_two_r4)`.
pub open spec fn spec_apply_3d(
    rec: Reconstruction3D,
    alpha: Real32,
    root_x: Real32,
    root_y: Real32,
) -> GaussianCoefficents3D {
    match rec {
        Reconstruction3D::NoPeak => spec_degenerate_3d(),
        Reconstruction3D::Peak { mu_x, mu_y, .. } => GaussianCoefficents3D {
            alpha,
            mu_x,
            mu_y,
            sigma_x: Real32 { bits: div_bits(BITS_ONE, root_x.bits) },
            sigma_y: Real32 { bits: div_bits(BITS_ONE, root_y.bits) },
        },
    }
}

/// The exponent `-(x - mu_x)^2 / (2 sigma_x^2) + -(y - mu_y)^2 / (2 sigma_y^2)`
/// of the fitted surface at `(x, y)`, as a bit pattern.
pub open spec fn spec_exponent_3d(c: GaussianCoefficents3D, x: Real32, y: Real32) -> u32 {
    add_bits(
        div_bits(
            neg_bits(mul_bits(sub_bits(x.bits, c.mu_x.bits), sub_bits(x.bits, c.mu_x.bits))),
            mul_bits(BITS_TWO, mul_bits(c.sigma_x.bits, c.sigma_x.bits)),
        ),
        div_bits(
            neg_bits(mul_bits(sub_bits(y.bits, c.mu_y.bits), sub_bits(y.bits, c.mu_y.bits))),
            mul_bits(BITS_TWO, mul_bits(c.sigma_y.bits, c.sigma_y.bits)),
        ),
    )
}

/// The value of the fitted surface, given the exponential factor that the
/// caller computed: zero unless both spreads have positive magnitude.
pub open spec fn spec_value_3d(c: GaussianCoefficents3D, f: Option<Real32>) -> u32 {
    if has_positive_magnitude(c.sigma_x.bits) && has_positive_magnitude(c.sigma_y.bits) {
        match f {
            Option::Some(e) => mul_bits(c.alpha.bits, e.bits),
            Option::None => BITS_ZERO,
        }
    } else {
        BITS_ZERO
    }
}

impl Default for GaussianCoefficents3D {
    /// The empty (degenerate, all-zero) coefficient state.
    fn default() -> (r: Self)
        ensures
            r == spec_degenerate_3d(),
    {
        GaussianCoefficents3D {
            alpha: Real32 { bits: BITS_ZERO },
            mu_x: Real32 { bits: BITS_ZERO },
            mu_y: Real32 { bits: BITS_ZERO },
            sigma_x: Real32 { bits: BITS_ZERO },
            sigma_y: Real32 { bits: BITS_ZERO },
        }
    }
}

/// Entry `j` of the row-major design matrix built from the sample
/// abscissas `x`, `y` for a two-variable surface: row `k = j / 5` is
/// `[1, x_k, y_k, x_k^2, y_k^2]`.
pub open spec fn spec_design_entry_3d(x: Seq<Real32>, y: Seq<Real32>, j: int) -> Real32 {
    let k = j / 5;
    if j % 5 == 0 {
        Real32 { bits: BITS_ONE }
    } else if j % 5 == 1 {
        x[k]
    } else if j % 5 == 2 {
        y[k]
    } else if j % 5 == 3 {
        Real32 { bits: mul_bits(x[k].bits, x[k].bits) }
    } else {
        Real32 { bits: mul_bits(y[k].bits, y[k].bits) }
    }
}

impl GaussianCoefficents3D {
    /// The raw coefficient tuple `(alpha, mu_x, mu_y, sigma_x, sigma_y)`.
    pub fn coefficents(&self) -> (r: (Real32, Real32, Real32, Real32, Real32))
        ensures
            r == (self.alpha, self.mu_x, self.mu_y, self.sigma_x, self.sigma_y),
    {
        (self.alpha, self.mu_x, self.mu_y, self.sigma_x, self.sigma_y)
    }

    /// The peak of the surface: its two centers and its amplitude.
    pub fn peak(&self) -> (r: (Real32, Real32, Real32))
        ensures
            r == (self.mu_x, self.mu_y, self.alpha),
    {
        (self.mu_x, self.mu_y, self.alpha)
    }

    /// Builds the design matrix and target vector of the log-linearized
    /// least-squares problem from 16 sample points.  Row `i` of the matrix
    /// is `[1, x_i, y_i, x_i^2, y_i^2]`, stored row-major; the target
    /// entries are the natural logarithms of the strictly positive
    /// dependent samples, which the caller computes (`ln_z[i] = ln(z_i)`),
    /// since the logarithm cannot be taken on raw bit patterns here.
    pub fn get_matrix_data_from_16_points(
        x: &[Real32; 16],
        y: &[Real32; 16],
        ln_z: &[Real32; 16],
    ) -> (r: ([Real32; 80], [Real32; 16]))
        ensures
            forall|j: int| 0 <= j < 80 ==> #[trigger] r.0@[j] == spec_design_entry_3d(x@, y@, j),
            r.1@ == ln_z@,
    {
        let mut m: [Real32; 80] = [Real32 { bits: BITS_ZERO }; 80];
        let mut i: usize = 0;
        while i < 16
            invariant
                i <= 16,
                forall|j: int| 0 <= j < 5 * i ==> #[trigger] m@[j] == spec_design_entry_3d(x@, y@, j),
            decreases 16 - i,
        {
            let xi = x[i];
            let yi = y[i];
            m[5 * i] = Real32 { bits: BITS_ONE };
            m[5 * i + 1] = xi;
            m[5 * i + 2] = yi;
            m[5 * i + 3] = xi.mul(xi);
            m[5 * i + 4] = yi.mul(yi);
            i = i + 1;
        }
        (m, *ln_z)
    }

    /// The back-transform of a solved vector `[r0, r1, r2, r3, r4]` of the
    /// linear system: a peak exists only under the curvature-sign
    /// precondition `r3 < 0 && r4 < 0`; otherwise the outcome is `NoPeak`,
    /// which [`Self::get_coefficents_from_reconstruction`] turns into the
    /// all-zero degenerate state.  `None` stands for a failed solve and is
    /// likewise `NoPeak`.
    pub fn reconstruct_from_solved(solved: &Option<[Real32; 5]>) -> (r: Reconstruction3D)
        ensures
            r == spec_reconstruct_3d(*solved),
    {
        match solved {
            None => Reconstruction3D::NoPeak,
            Some(v) => {
                let r3 = v[3];
                let r4 = v[4];
                if r3.is_below_zero() && r4.is_below_zero() {
                    let quad_x = v[1].mul(v[1]).div(Real32 { bits: BITS_FOUR }.mul(r3));
                    let quad_y = v[2].mul(v[2]).div(Real32 { bits: BITS_FOUR }.mul(r4));
                    Reconstruction3D::Peak {
                        log_alpha: v[0].sub(quad_x).sub(quad_y),
                        mu_x: v[1].neg().div(Real32 { bits: BITS_TWO }.mul(r3)),
                        mu_y: v[2].neg().div(Real32 { bits: BITS_TWO }.mul(r4)),
                        neg_two_r3: Real32 { bits: BITS_NEG_TWO }.mul(r3),
                        neg_two_r4: Real32 { bits: BITS_NEG_TWO }.mul(r4),
                    }
                } else {
                    Reconstruction3D::NoPeak
                }
            },
        }
    }

    /// Stores the reconstructed coefficients and returns a copy of the new
    /// state.  The caller supplies `alpha = exp(log_alpha)` and the roots
    /// `root_x = sqrt(neg_two_r3)`, `root_y = sqrt(neg_two_r4)` of a
    /// `Peak` reconstruction; the spreads become `1 / root_x` and
    /// `1 / root_y`.  On `NoPeak` the arguments are ignored and every
    /// field is set to zero: "no valid peak found" is a defined output
    /// state, not an error.
    pub fn get_coefficents_from_reconstruction(
        &mut self,
        rec: &Reconstruction3D,
        alpha: Real32,
        root_x: Real32,
        root_y: Real32,
    ) -> (r: Self)
        ensures
            *final(self) == spec_apply_3d(*rec, alpha, root_x, root_y),
            r == *final(self),
    {
        match rec {
            Reconstruction3D::NoPeak => {
                self.alpha = Real32 { bits: BITS_ZERO };
                self.mu_x = Real32 { bits: BITS_ZERO };
                self.mu_y = Real32 { bits: BITS_ZERO };
                self.sigma_x = Real32 { bits: BITS_ZERO };
                self.sigma_y = Real32 { bits: BITS_ZERO };
            },
            Reconstruction3D::Peak { log_alpha: _, mu_x, mu_y, neg_two_r3: _, neg_two_r4: _ } => {
                self.alpha = alpha;
                self.mu_x = *mu_x;
                self.mu_y = *mu_y;
                self.sigma_x = Real32 { bits: BITS_ONE }.div(root_x);
                self.sigma_y = Real32 { bits: BITS_ONE }.div(root_y);
            },
        }
        GaussianCoefficents3D {
            alpha: self.alpha,
            mu_x: self.mu_x,
            mu_y: self.mu_y,
            sigma_x: self.sigma_x,
            sigma_y: self.sigma_y,
        }
    }

    /// The exponent of the surface at `(x, y)`, or `None` when either
    /// spread has no positive magnitude — the caller must then not form
    /// the exponential, and the surface value is zero.
    pub fn value_exponent(&self, x: Real32, y: Real32) -> (r: Option<Real32>)
        ensures
            r is Some <==> (has_positive_magnitude(self.sigma_x.bits) && has_positive_magnitude(
                self.sigma_y.bits,
            )),
            r matches Some(t) ==> t.bits == spec_exponent_3d(*self, x, y),
    {
        if self.sigma_x.has_positive_magnitude() && self.sigma_y.has_positive_magnitude() {
            let dx = x.sub(self.mu_x);
            let denom_x = Real32 { bits: BITS_TWO }.mul(self.sigma_x.mul(self.sigma_x));
            let tx = dx.mul(dx).neg().div(denom_x);
            let dy = y.sub(self.mu_y);
            let denom_y = Real32 { bits: BITS_TWO }.mul(self.sigma_y.mul(self.sigma_y));
            let ty = dy.mul(dy).neg().div(denom_y);
            Some(tx.add(ty))
        } else {
            None
        }
    }

    /// The value of the surface at the point whose exponential factor the
    /// caller computed: exactly zero in the degenerate state (zero or NaN
    /// spread on either axis, or no factor), and `alpha * f` otherwise.
    pub fn value_from_exp_factor(&self, f: Option<Real32>) -> (r: Real32)
        ensures
            r.bits == spec_value_3d(*self, f),
    {
        if self.sigma_x.has_positive_magnitude() && self.sigma_y.has_positive_magnitude() {
            match f {
                Some(e) => self.alpha.mul(e),
                None => Real32 { bits: BITS_ZERO },
            }
        } else {
            Real32 { bits: BITS_ZERO }
        }
    }
}

/// Degeneracy law for the two-variable fit: whenever the solve failed or
/// either curvature coefficient is not strictly negative (in particular
/// whenever `r3 >= 0` or `r4 >= 0`), the stored coefficients are all
/// exactly zero, whatever values the caller supplies for the exponential
/// and the roots.
pub proof fn lemma_nonnegative_curvature_gives_degenerate_3d(
    solved: Option<[Real32; 5]>,
    alpha: Real32,
    root_x: Real32,
    root_y: Real32,
)
    requires
        solved matches Some(v) ==> !(is_below_zero_bits(v[3].bits) && is_below_zero_bits(
            v[4].bits,
        )),
    ensures
        spec_apply_3d(spec_reconstruct_3d(solved), alpha, root_x, root_y) == spec_degenerate_3d(),
{
}

/// Zero-spread law for the two-variable evaluator: when either spread is
/// zero (either signed zero), the surface value is exactly zero, whatever
/// exponential factor is supplied.
pub proof fn lemma_zero_sigma_evaluates_to_zero_3d(c: GaussianCoefficents3D, f: Option<Real32>)
    requires
        is_zero_bits(c.sigma_x.bits) || is_zero_bits(c.sigma_y.bits),
    ensures
        spec_value_3d(c, f) == BITS_ZERO,
{
}

/// The degenerate all-zero state evaluates to exactly zero everywhere.
pub proof fn lemma_degenerate_evaluates_to_zero_3d(f: Option<Real32>)
    ensures
        spec_value_3d(spec_degenerate_3d(), f) == BITS_ZERO,
{
    assert(0u32 & 0x7FFF_FFFFu32 == 0u32) by (bit_vector);
}

/// End to end: a fit whose solve failed or whose curvature coefficients
/// are not both strictly negative stores the all-zero state, and that
/// state evaluates to exactly zero everywhere, whatever the caller
/// supplies for the exponential factors and the roots.
pub proof fn lemma_no_peak_fit_evaluates_to_zero_3d(
    solved: Option<[Real32; 5]>,
    alpha: Real32,
    root_x: Real32,
    root_y: Real32,
    f: Option<Real32>,
)
    requires
        solved matches Some(v) ==> !(is_below_zero_bits(v[3].bits) && is_below_zero_bits(
            v[4].bits,
        )),
    ensures
        spec_value_3d(
            spec_apply_3d(spec_reconstruct_3d(solved), alpha, root_x, root_y),
            f,
        ) == BITS_ZERO,
{
    lemma_nonnegative_curvature_gives_degenerate_3d(solved, alpha, root_x, root_y);
    lemma_degenerate_evaluates_to_zero_3d(f);
}

} // verus!
