//! Errors of the curve engine.
use vstd::prelude::*;
use crate::bootstrap_config::BootstrapInterpolation;

verus! {

/// How curve parameters are stored internally.
#[derive(Debug, Clone, Copy, PartialEq, Eq, Structural)]
pub enum CurveParameterRepresentation {
    /// log(D(t)); interpolation on it gives piecewise constant forwards (default).
    LogDiscountFactor,
    /// Continuously compounded zero rate r(t), with D(t) = exp(-r(t) t).
    ZeroRate,
    /// Instantaneous forward rate f(t).
    InstantaneousForward,
}

impl Default for CurveParameterRepresentation {
    fn default() -> (r: Self)
        ensures
            r == CurveParameterRepresentation::LogDiscountFactor,
    {
        CurveParameterRepresentation::LogDiscountFactor
    }
}

/// A failure of the bootstrap solver.
///
/// Floating-point quantities are carried as their IEEE-754 bit patterns
/// (`f64::to_bits`), so that the value is reproduced exactly.
#[derive(Debug, Clone, Copy, PartialEq, Eq, Structural)]
pub enum BootstrapError {
    /// The solver did not converge at a pillar.
    ConvergenceFailure {
        /// Pillar maturity in years, as `f64` bits.
        maturity_bits: u64,
        /// Final residual, as `f64` bits.
        residual_bits: u64,
        /// Number of iterations that were run.
        iterations: usize,
    },
}

impl BootstrapError {
    /// A convergence failure at `maturity` after `iterations` steps.
    pub fn convergence_failure(maturity_bits: u64, residual_bits: u64, iterations: usize) -> (r: Self)
        ensures
            r == (BootstrapError::ConvergenceFailure { maturity_bits, residual_bits, iterations }),
    {
        BootstrapError::ConvergenceFailure { maturity_bits, residual_bits, iterations }
    }

    /// True for a convergence failure.
    pub fn is_convergence_failure(&self) -> (r: bool)
        ensures
            r == (*self is ConvergenceFailure),
    {
        match self {
            BootstrapError::ConvergenceFailure { .. } => true,
        }
    }
}

/// Errors that can occur during curve engine operations.
#[derive(Debug, Clone)]
pub enum CurveEngineError {
    /// Invalid setting, with the field's name and the reason.
    Configuration { field: &'static str, reason: String },
    /// Problem with the instrument at a tenor.
    Instrument { tenor: String, reason: String },
    /// Incomplete instrument definition.
    IncompleteInstrumentDefinition(String),
    /// Unknown rate index.
    UnknownIndex(String),
    /// Wrapped bootstrap error.
    Bootstrap(BootstrapError),
    /// Interpolation error.
    Interpolation(String),
    /// Cache operation error.
    Cache(String),
    /// Configuration parse error (JSON/YAML).
    ConfigurationParse(String),
    /// Circular dependency in curve definitions.
    CircularDependency,
    /// Parameter representation incompatible with the interpolation.
    InvalidConfiguration {
        param_repr: CurveParameterRepresentation,
        interpolation: BootstrapInterpolation,
    },
    /// IO error when loading configuration files.
    Io(String),
}

impl CurveEngineError {
    /// A configuration error for `field`.
    pub fn configuration(field: &'static str, reason: &str) -> (r: Self)
        ensures
            r matches CurveEngineError::Configuration { field: f, reason: m } && f@ == field@ && m@ == reason@,
    {
        CurveEngineError::Configuration { field, reason: reason.to_owned() }
    }

    /// An instrument error at `tenor`.
    pub fn instrument(tenor: &str, reason: &str) -> (r: Self)
        ensures
            r matches CurveEngineError::Instrument { tenor: t, reason: m } && t@ == tenor@ && m@ == reason@,
    {
        CurveEngineError::Instrument { tenor: tenor.to_owned(), reason: reason.to_owned() }
    }

    /// An incomplete instrument definition error.
    pub fn incomplete_definition(message: &str) -> (r: Self)
        ensures
            r matches CurveEngineError::IncompleteInstrumentDefinition(m) && m@ == message@,
    {
        CurveEngineError::IncompleteInstrumentDefinition(message.to_owned())
    }

    /// An unknown index error.
    pub fn unknown_index(index: &str) -> (r: Self)
        ensures
            r matches CurveEngineError::UnknownIndex(m) && m@ == index@,
    {
        CurveEngineError::UnknownIndex(index.to_owned())
    }

    /// An interpolation error.
    pub fn interpolation(message: &str) -> (r: Self)
        ensures
            r matches CurveEngineError::Interpolation(m) && m@ == message@,
    {
        CurveEngineError::Interpolation(message.to_owned())
    }

    /// A cache error.
    pub fn cache(message: &str) -> (r: Self)
        ensures
            r matches CurveEngineError::Cache(m) && m@ == message@,
    {
        CurveEngineError::Cache(message.to_owned())
    }

    /// A configuration parse error.
    pub fn parse(message: &str) -> (r: Self)
        ensures
            r matches CurveEngineError::ConfigurationParse(m) && m@ == message@,
    {
        CurveEngineError::ConfigurationParse(message.to_owned())
    }

    /// An invalid representation/interpolation combination.
    pub fn invalid_config(
        param_repr: CurveParameterRepresentation,
        interpolation: BootstrapInterpolation,
    ) -> (r: Self)
        ensures
            r == (CurveEngineError::InvalidConfiguration { param_repr, interpolation }),
    {
        CurveEngineError::InvalidConfiguration { param_repr, interpolation }
    }

    /// An IO error.
    pub fn io(message: &str) -> (r: Self)
        ensures
            r matches CurveEngineError::Io(m) && m@ == message@,
    {
        CurveEngineError::Io(message.to_owned())
    }

    /// True for a wrapped bootstrap error.
    pub fn is_bootstrap_error(&self) -> (r: bool)
        ensures
            r == (*self is Bootstrap),
    {
        matches!(self, CurveEngineError::Bootstrap(_))
    }

    /// True for a configuration error.
    pub fn is_configuration_error(&self) -> (r: bool)
        ensures
            r == (*self is Configuration),
    {
        matches!(self, CurveEngineError::Configuration { .. })
    }

    /// True for an instrument error.
    pub fn is_instrument_error(&self) -> (r: bool)
        ensures
            r == (*self is Instrument),
    {
        matches!(self, CurveEngineError::Instrument { .. })
    }

    /// True for a cache error.
    pub fn is_cache_error(&self) -> (r: bool)
        ensures
            r == (*self is Cache),
    {
        matches!(self, CurveEngineError::Cache(_))
    }

    /// True for a circular dependency error.
    pub fn is_circular_dependency(&self) -> (r: bool)
        ensures
            r == (*self is CircularDependency),
    {
        matches!(self, CurveEngineError::CircularDependency)
    }

    /// The wrapped bootstrap error, if this is a bootstrap error.
    pub fn as_bootstrap_error(&self) -> (r: Option<&BootstrapError>)
        ensures
            match *self {
                CurveEngineError::Bootstrap(e) => r == Some(&e),
                _ => r is None,
            },
    {
        match self {
            CurveEngineError::Bootstrap(err) => Some(err),
            _ => None,
        }
    }
}

impl From<BootstrapError> for CurveEngineError {
    fn from(err: BootstrapError) -> (r: Self) {
        CurveEngineError::Bootstrap(err)
    }
}

impl vstd::std_specs::convert::FromSpecImpl<BootstrapError> for CurveEngineError {
    open spec fn obeys_from_spec() -> bool {
        true
    }

    open spec fn from_spec(err: BootstrapError) -> Self {
        CurveEngineError::Bootstrap(err)
    }
}

} // verus!
