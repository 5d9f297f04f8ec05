//! FX market construction: its errors, diagnostics and sensitivity modes,
//! and the errors of FX volatility calibration.
//!
//! Floating-point quantities in errors are carried as their IEEE-754 bit
//! patterns (`f64::to_bits`), so that the value is reproduced exactly.
use vstd::prelude::*;
use crate::text::join2;
pub use crate::fx_curves::{ExtrapolationPolicy, FxCurveError};

verus! {

/// Errors of FX volatility surface calibration.
#[derive(Debug, Clone, PartialEq)]
pub enum FxCalibrationError {
    /// Fewer quotes than needed.
    InsufficientData { expected: usize, got: usize },
    /// Invalid market quote.
    InvalidQuote { message: String },
    /// No quote for a required instrument.
    MissingQuote { instrument: String },
    /// The optimiser did not converge.
    ConvergenceFailed { iterations: usize, residual_bits: u64 },
    /// Invalid configuration parameter.
    InvalidConfig { message: String },
    /// An arbitrage-free condition is violated.
    ArbitrageViolation { message: String },
    /// Forward curve construction failed.
    ForwardCurveError { message: String },
    /// Interpolation error.
    InterpolationError { message: String },
    /// Invalid expiry.
    InvalidExpiry { message: String },
    /// Delta to strike conversion failed.
    DeltaStrikeConversionFailed { message: String },
    /// SABR model error.
    SabrError { message: String },
    /// Currency pair not supported.
    UnsupportedCurrencyPair { pair: String },
}

impl FxCalibrationError {
    /// An insufficient data error.
    pub fn insufficient_data(expected: usize, got: usize) -> (r: Self)
        ensures
            r == (FxCalibrationError::InsufficientData { expected, got }),
    {
        FxCalibrationError::InsufficientData { expected, got }
    }

    /// A convergence failure after `iterations`, with the residual's bits.
    pub fn convergence_failed(iterations: usize, residual_bits: u64) -> (r: Self)
        ensures
            r == (FxCalibrationError::ConvergenceFailed { iterations, residual_bits }),
    {
        FxCalibrationError::ConvergenceFailed { iterations, residual_bits }
    }

    /// An invalid quote error.
    pub fn invalid_quote(message: &str) -> (r: Self)
        ensures
            r matches FxCalibrationError::InvalidQuote { message: m } && m@ == message@,
    {
        FxCalibrationError::InvalidQuote { message: message.to_owned() }
    }

    /// A missing quote error.
    pub fn missing_quote(instrument: &str) -> (r: Self)
        ensures
            r matches FxCalibrationError::MissingQuote { instrument: m } && m@ == instrument@,
    {
        FxCalibrationError::MissingQuote { instrument: instrument.to_owned() }
    }

    /// An invalid configuration error.
    pub fn invalid_config(message: &str) -> (r: Self)
        ensures
            r matches FxCalibrationError::InvalidConfig { message: m } && m@ == message@,
    {
        FxCalibrationError::InvalidConfig { message: message.to_owned() }
    }

    /// An arbitrage violation error.
    pub fn arbitrage_violation(message: &str) -> (r: Self)
        ensures
            r matches FxCalibrationError::ArbitrageViolation { message: m } && m@ == message@,
    {
        FxCalibrationError::ArbitrageViolation { message: message.to_owned() }
    }

    /// A forward curve error.
    pub fn forward_curve_error(message: &str) -> (r: Self)
        ensures
            r matches FxCalibrationError::ForwardCurveError { message: m } && m@ == message@,
    {
        FxCalibrationError::ForwardCurveError { message: message.to_owned() }
    }

    /// An interpolation error.
    pub fn interpolation_error(message: &str) -> (r: Self)
        ensures
            r matches FxCalibrationError::InterpolationError { message: m } && m@ == message@,
    {
        FxCalibrationError::InterpolationError { message: message.to_owned() }
    }

    /// An invalid expiry error.
    pub fn invalid_expiry(message: &str) -> (r: Self)
        ensures
            r matches FxCalibrationError::InvalidExpiry { message: m } && m@ == message@,
    {
        FxCalibrationError::InvalidExpiry { message: message.to_owned() }
    }

    /// A delta-to-strike conversion error.
    pub fn delta_strike_conversion_failed(message: &str) -> (r: Self)
        ensures
            r matches FxCalibrationError::DeltaStrikeConversionFailed { message: m } && m@ == message@,
    {
        FxCalibrationError::DeltaStrikeConversionFailed { message: message.to_owned() }
    }

    /// A SABR model error.
    pub fn sabr_error(message: &str) -> (r: Self)
        ensures
            r matches FxCalibrationError::SabrError { message: m } && m@ == message@,
    {
        FxCalibrationError::SabrError { message: message.to_owned() }
    }

    /// An unsupported currency pair error.
    pub fn unsupported_currency_pair(pair: &str) -> (r: Self)
        ensures
            r matches FxCalibrationError::UnsupportedCurrencyPair { pair: m } && m@ == pair@,
    {
        FxCalibrationError::UnsupportedCurrencyPair { pair: pair.to_owned() }
    }
}

/// Errors of FX market construction.
#[derive(Debug, Clone, PartialEq)]
pub enum FxMarketError {
    /// Building the domestic discount curve failed.
    DomesticCurveFailed { reason: String },
    /// Building the foreign discount curve failed.
    ForeignCurveFailed { reason: String },
    /// Building the FX forward curve failed.
    FxCurveFailed { reason: String },
    /// Calibrating the volatility surface failed.
    VolSurfaceFailed { reason: String },
    /// A required input is missing.
    MissingInput { field: String },
    /// The configuration is invalid.
    InvalidConfiguration { message: String },
}

/// The text of an FX market error.
pub open spec fn fx_market_error_text(e: FxMarketError) -> Seq<char> {
    match e {
        FxMarketError::DomesticCurveFailed { reason } => "Failed to build domestic curve: "@ + reason@,
        FxMarketError::ForeignCurveFailed { reason } => "Failed to build foreign curve: "@ + reason@,
        FxMarketError::FxCurveFailed { reason } => "Failed to build FX curve: "@ + reason@,
        FxMarketError::VolSurfaceFailed { reason } => "Failed to calibrate vol surface: "@ + reason@,
        FxMarketError::MissingInput { field } => "Missing required input: "@ + field@,
        FxMarketError::InvalidConfiguration { message } => "Invalid configuration: "@ + message@,
    }
}

impl FxMarketError {
    /// The text that `{}` prints.
    pub fn to_display_string(&self) -> (r: String)
        ensures
            r@ == fx_market_error_text(*self),
    {
        match self {
            FxMarketError::DomesticCurveFailed { reason } => join2("Failed to build domestic curve: ", reason.as_str()),
            FxMarketError::ForeignCurveFailed { reason } => join2("Failed to build foreign curve: ", reason.as_str()),
            FxMarketError::FxCurveFailed { reason } => join2("Failed to build FX curve: ", reason.as_str()),
            FxMarketError::VolSurfaceFailed { reason } => join2("Failed to calibrate vol surface: ", reason.as_str()),
            FxMarketError::MissingInput { field } => join2("Missing required input: ", field.as_str()),
            FxMarketError::InvalidConfiguration { message } => join2("Invalid configuration: ", message.as_str()),
        }
    }
}

/// Diagnostics of an FX market construction.
#[derive(Debug, Clone, Copy, PartialEq, Eq, Structural)]
pub struct FxMarketDiagnostics {
    /// Iterations of the domestic curve construction.
    pub domestic_iterations: usize,
    /// Iterations of the foreign curve construction.
    pub foreign_iterations: usize,
    /// Total build time in milliseconds.
    pub build_time_ms: u64,
}

impl Default for FxMarketDiagnostics {
    fn default() -> (r: Self)
        ensures
            r.domestic_iterations == 0,
            r.foreign_iterations == 0,
            r.build_time_ms == 0,
    {
        FxMarketDiagnostics { domestic_iterations: 0, foreign_iterations: 0, build_time_ms: 0 }
    }
}

/// How sensitivities are computed.
#[derive(Debug, Clone, Copy, PartialEq, Eq, Structural)]
pub enum SensitivityMode {
    /// Analytical sensitivities where available (default).
    Analytical,
    /// Finite differences.
    FiniteDifference,
    /// Automatic differentiation.
    AutomaticDifferentiation,
}

impl Default for SensitivityMode {
    fn default() -> (r: Self)
        ensures
            r == SensitivityMode::Analytical,
    {
        SensitivityMode::Analytical
    }
}

/// Bits of 1e-4 (one basis point), the default finite-difference bump.
pub const DEFAULT_BUMP_BITS: u64 = 0x3f1a_36e2_eb1c_432d;
/// Bits of 1e-6, the default smoothing epsilon.
pub const DEFAULT_SMOOTHING_BITS: u64 = 0x3eb0_c6f7_a0b5_ed8d;

/// Settings of sensitivity computation.
#[derive(Debug, Clone, Copy, PartialEq, Eq, Structural)]
pub struct SensitivityConfig {
    /// How sensitivities are computed.
    pub mode: SensitivityMode,
    /// Finite-difference bump as a fraction, as `f64` bits (default 1e-4).
    pub bump_size_bits: u64,
    /// Smoothing epsilon for differentiable approximations, as `f64` bits (default 1e-6).
    pub smoothing_epsilon_bits: u64,
}

impl Default for SensitivityConfig {
    fn default() -> (r: Self)
        ensures
            r == (SensitivityConfig {
                mode: SensitivityMode::Analytical,
                bump_size_bits: DEFAULT_BUMP_BITS,
                smoothing_epsilon_bits: DEFAULT_SMOOTHING_BITS,
            }),
    {
        SensitivityConfig {
            mode: SensitivityMode::Analytical,
            bump_size_bits: DEFAULT_BUMP_BITS,
            smoothing_epsilon_bits: DEFAULT_SMOOTHING_BITS,
        }
    }
}

impl SensitivityConfig {
    /// Finite differences with the given bump.
    pub fn finite_difference(bump_size_bits: u64) -> (r: Self)
        ensures
            r == (SensitivityConfig {
                mode: SensitivityMode::FiniteDifference,
                bump_size_bits,
                smoothing_epsilon_bits: DEFAULT_SMOOTHING_BITS,
            }),
    {
        SensitivityConfig { mode: SensitivityMode::FiniteDifference, bump_size_bits, ..Self::default() }
    }

    /// Automatic differentiation with the given smoothing epsilon.
    pub fn automatic_differentiation(smoothing_epsilon_bits: u64) -> (r: Self)
        ensures
            r == (SensitivityConfig {
                mode: SensitivityMode::AutomaticDifferentiation,
                bump_size_bits: DEFAULT_BUMP_BITS,
                smoothing_epsilon_bits,
            }),
    {
        SensitivityConfig { mode: SensitivityMode::AutomaticDifferentiation, smoothing_epsilon_bits, ..Self::default() }
    }
}

/// A node of a computation graph.
#[derive(Debug, Clone)]
pub struct ComputationGraphNode {
    /// Unique identifier.
    pub id: String,
    /// "input", "intermediate" or "output".
    pub node_type: String,
    /// Display label.
    pub label: String,
    /// Value, if known, as `f64` bits.
    pub value_bits: Option<u64>,
}

/// An edge of a computation graph, with the partial derivative along it.
#[derive(Debug, Clone)]
pub struct ComputationGraphEdge {
    /// Source node identifier.
    pub source: String,
    /// Target node identifier.
    pub target: String,
    /// Partial derivative, if computed, as `f64` bits.
    pub derivative_bits: Option<u64>,
}

/// A computation graph for visualising how inputs flow into outputs.
#[derive(Debug, Clone)]
pub struct ComputationGraph {
    /// Nodes, in the order they were added.
    pub nodes: Vec<ComputationGraphNode>,
    /// Edges, in the order they were added.
    pub edges: Vec<ComputationGraphEdge>,
}

impl Default for ComputationGraph {
    fn default() -> (r: Self)
        ensures
            r.nodes@.len() == 0,
            r.edges@.len() == 0,
    {
        Self::new()
    }
}

impl ComputationGraph {
    /// An empty graph.
    pub fn new() -> (r: Self)
        ensures
            r.nodes@.len() == 0,
            r.edges@.len() == 0,
    {
        ComputationGraph { nodes: Vec::new(), edges: Vec::new() }
    }

    /// Appends a node of the given type.
    fn add_node(&mut self, id: &str, node_type: &str, label: &str, value_bits: Option<u64>)
        ensures
            final(self).edges@ == old(self).edges@,
            final(self).nodes@.len() == old(self).nodes@.len() + 1,
            forall|i: int| 0 <= i < old(self).nodes@.len() ==> final(self).nodes@[i] == old(self).nodes@[i],
            final(self).nodes@.last().id@ == id@,
            final(self).nodes@.last().node_type@ == node_type@,
            final(self).nodes@.last().label@ == label@,
            final(self).nodes@.last().value_bits == value_bits,
    {
        self.nodes.push(ComputationGraphNode {
            id: id.to_owned(),
            node_type: node_type.to_owned(),
            label: label.to_owned(),
            value_bits,
        });
    }

    /// Appends an input node.
    pub fn add_input(&mut self, id: &str, label: &str, value_bits: Option<u64>)
        ensures
            final(self).edges@ == old(self).edges@,
            final(self).nodes@.len() == old(self).nodes@.len() + 1,
            forall|i: int| 0 <= i < old(self).nodes@.len() ==> final(self).nodes@[i] == old(self).nodes@[i],
            final(self).nodes@.last().id@ == id@,
            final(self).nodes@.last().node_type@ == "input"@,
            final(self).nodes@.last().label@ == label@,
            final(self).nodes@.last().value_bits == value_bits,
    {
        self.add_node(id, "input", label, value_bits);
    }

    /// Appends an output node.
    pub fn add_output(&mut self, id: &str, label: &str, value_bits: Option<u64>)
        ensures
            final(self).edges@ == old(self).edges@,
            final(self).nodes@.len() == old(self).nodes@.len() + 1,
            forall|i: int| 0 <= i < old(self).nodes@.len() ==> final(self).nodes@[i] == old(self).nodes@[i],
            final(self).nodes@.last().id@ == id@,
            final(self).nodes@.last().node_type@ == "output"@,
            final(self).nodes@.last().label@ == label@,
            final(self).nodes@.last().value_bits == value_bits,
    {
        self.add_node(id, "output", label, value_bits);
    }

    /// Appends an intermediate node.
    pub fn add_intermediate(&mut self, id: &str, label: &str, value_bits: Option<u64>)
        ensures
            final(self).edges@ == old(self).edges@,
            final(self).nodes@.len() == old(self).nodes@.len() + 1,
            forall|i: int| 0 <= i < old(self).nodes@.len() ==> final(self).nodes@[i] == old(self).nodes@[i],
            final(self).nodes@.last().id@ == id@,
            final(self).nodes@.last().node_type@ == "intermediate"@,
            final(self).nodes@.last().label@ == label@,
            final(self).nodes@.last().value_bits == value_bits,
    {
        self.add_node(id, "intermediate", label, value_bits);
    }

    /// Appends an edge with its derivative.
    pub fn add_edge(&mut self, source: &str, target: &str, derivative_bits: Option<u64>)
        ensures
            final(self).nodes@ == old(self).nodes@,
            final(self).edges@.len() == old(self).edges@.len() + 1,
            forall|i: int| 0 <= i < old(self).edges@.len() ==> final(self).edges@[i] == old(self).edges@[i],
            final(self).edges@.last().source@ == source@,
            final(self).edges@.last().target@ == target@,
            final(self).edges@.last().derivative_bits == derivative_bits,
    {
        self.edges.push(ComputationGraphEdge {
            source: source.to_owned(),
            target: target.to_owned(),
            derivative_bits,
        });
    }
}

} // verus!
