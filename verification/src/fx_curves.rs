//! Errors and extrapolation policies of FX forward curves.
//!
//! Floating-point quantities in errors are carried as their IEEE-754 bit
//! patterns (`f64::to_bits`), so that the value is reproduced exactly.
use vstd::prelude::*;

verus! {

/// Errors of FX curve operations.
#[derive(Debug, Clone, PartialEq)]
pub enum FxCurveError {
    /// Missing domestic discount curve.
    MissingDomesticCurve,
    /// Missing foreign discount curve.
    MissingForeignCurve,
    /// Missing spot rate.
    MissingSpotRate,
    /// Negative or otherwise invalid expiry.
    InvalidExpiry { expiry_bits: u64 },
    /// Extrapolation beyond `[min, max]` requested.
    ExtrapolationNotAllowed { t_bits: u64, min_bits: u64, max_bits: u64 },
    /// Interpolation failed.
    InterpolationFailed { message: String },
    /// Error of an underlying discount curve.
    DiscountCurveError { message: String },
    /// Fewer market points than needed.
    InsufficientData { expected: usize, got: usize },
    /// Bootstrap failed.
    BootstrapFailed { message: String },
}

impl FxCurveError {
    /// An invalid expiry error.
    pub fn invalid_expiry(expiry_bits: u64) -> (r: Self)
        ensures
            r == (FxCurveError::InvalidExpiry { expiry_bits }),
    {
        FxCurveError::InvalidExpiry { expiry_bits }
    }

    /// An extrapolation error for `t` outside `[min, max]`.
    pub fn extrapolation_not_allowed(t_bits: u64, min_bits: u64, max_bits: u64) -> (r: Self)
        ensures
            r == (FxCurveError::ExtrapolationNotAllowed { t_bits, min_bits, max_bits }),
    {
        FxCurveError::ExtrapolationNotAllowed { t_bits, min_bits, max_bits }
    }

    /// An interpolation error.
    pub fn interpolation_failed(message: &str) -> (r: Self)
        ensures
            r matches FxCurveError::InterpolationFailed { message: m } && m@ == message@,
    {
        FxCurveError::InterpolationFailed { message: message.to_owned() }
    }

    /// A discount curve error.
    pub fn discount_curve_error(message: &str) -> (r: Self)
        ensures
            r matches FxCurveError::DiscountCurveError { message: m } && m@ == message@,
    {
        FxCurveError::DiscountCurveError { message: message.to_owned() }
    }

    /// An insufficient data error.
    pub fn insufficient_data(expected: usize, got: usize) -> (r: Self)
        ensures
            r == (FxCurveError::InsufficientData { expected, got }),
    {
        FxCurveError::InsufficientData { expected, got }
    }

    /// A bootstrap error.
    pub fn bootstrap_failed(message: &str) -> (r: Self)
        ensures
            r matches FxCurveError::BootstrapFailed { message: m } && m@ == message@,
    {
        FxCurveError::BootstrapFailed { message: message.to_owned() }
    }
}

/// What an FX curve does with a query outside its range.
#[derive(Debug, Clone, Copy, PartialEq, Eq, Hash, Structural)]
pub enum ExtrapolationPolicy {
    /// Use the boundary value (default).
    Flat,
    /// Extend the slope at the boundary.
    Linear,
    /// Refuse the query.
    Error,
}

/// The description of a policy.
pub open spec fn policy_description(p: ExtrapolationPolicy) -> &'static str {
    match p {
        ExtrapolationPolicy::Flat => "Flat extrapolation using boundary value",
        ExtrapolationPolicy::Linear => "Linear extrapolation based on boundary slope",
        ExtrapolationPolicy::Error => "Return error for out-of-bounds queries",
    }
}

impl Default for ExtrapolationPolicy {
    fn default() -> (r: Self)
        ensures
            r == ExtrapolationPolicy::Flat,
    {
        ExtrapolationPolicy::Flat
    }
}

impl ExtrapolationPolicy {
    /// A description of the policy.
    pub fn description(&self) -> (r: &'static str)
        ensures
            r@ == policy_description(*self)@,
    {
        match self {
            ExtrapolationPolicy::Flat => "Flat extrapolation using boundary value",
            ExtrapolationPolicy::Linear => "Linear extrapolation based on boundary slope",
            ExtrapolationPolicy::Error => "Return error for out-of-bounds queries",
        }
    }
}

} // verus!
