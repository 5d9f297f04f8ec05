//! Curve vocabulary: payment frequencies, interpolation methods of
//! bootstrapped curves, standard curve names, and forward rate decompositions.
use vstd::prelude::*;

verus! {

/// Payment frequency of bootstrap instruments.
#[derive(Debug, Clone, Copy, PartialEq, Eq, Hash, Structural)]
pub enum Frequency {
    /// Daily payments.
    Daily,
    /// Weekly payments.
    Weekly,
    /// Monthly payments (default).
    Monthly,
    /// Quarterly payments (4 per year).
    Quarterly,
    /// Semi-annual payments (2 per year).
    SemiAnnual,
    /// Annual payments (1 per year).
    Annual,
}

impl Default for Frequency {
    fn default() -> (r: Self)
        ensures
            r == Frequency::Monthly,
    {
        Frequency::Monthly
    }
}

/// Interpolation method of a bootstrapped curve.
#[derive(Debug, Clone, Copy, PartialEq, Eq, Hash, Structural)]
pub enum BootstrapInterpolation {
    /// Linear interpolation on discount factors.
    Linear,
    /// Linear interpolation on log discount factors (default).
    LogLinear,
    /// Constant simple forward rate between pillars.
    FlatForward,
    /// Cubic spline on forward rates.
    CubicSplineFwd,
    /// Monotone convex (Hagan-West).
    MonotoneConvex,
    /// Log-cubic on discount factors.
    LogCubicDF,
    /// Tension spline on forward rates.
    TensionSpline,
}

impl Default for BootstrapInterpolation {
    fn default() -> (r: Self)
        ensures
            r == BootstrapInterpolation::LogLinear,
    {
        BootstrapInterpolation::LogLinear
    }
}

/// The spline-based methods, which need precomputed spline coefficients.
pub open spec fn is_spline_method(m: BootstrapInterpolation) -> bool {
    match m {
        BootstrapInterpolation::CubicSplineFwd | BootstrapInterpolation::MonotoneConvex
        | BootstrapInterpolation::LogCubicDF | BootstrapInterpolation::TensionSpline => true,
        _ => false,
    }
}

impl BootstrapInterpolation {
    /// True if the method requires precomputed spline coefficients.
    pub fn requires_spline_coefficients(self) -> (r: bool)
        ensures
            r == is_spline_method(self),
    {
        matches!(
            self,
            BootstrapInterpolation::CubicSplineFwd | BootstrapInterpolation::MonotoneConvex
                | BootstrapInterpolation::LogCubicDF | BootstrapInterpolation::TensionSpline
        )
    }
}

/// Named curve identifiers of the multi-curve framework.
#[derive(Debug, Clone, Copy, PartialEq, Eq, Hash)]
pub enum CurveName {
    /// SOFR.
    Sofr,
    /// EURIBOR.
    Euribor,
    /// ESTR.
    Estr,
    /// TONAR / TONA.
    Tonar,
    /// SONIA.
    Sonia,
    /// SARON.
    Saron,
    /// Generic discount curve.
    Discount,
    /// Generic forward curve.
    Forward,
    /// Custom curve with a name.
    Custom(&'static str),
}

/// A forward rate split into its continuous and jump components.
#[derive(Debug, Clone, Copy, PartialEq)]
pub struct ForwardRateDecomposition<T> {
    /// Continuous component.
    pub continuous: T,
    /// Jump component.
    pub jump: T,
    /// Total forward rate (continuous + jump).
    pub total: T,
}

} // verus!
