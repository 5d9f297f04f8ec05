//! Curve construction settings: the bootstrap solver settings together with
//! how curve parameters are stored, and which combinations are consistent.
use vstd::prelude::*;
use crate::bootstrap_config::{
    BootstrapInterpolation, GenericBootstrapConfig, bootstrap_config_with, DEFAULT_TOLERANCE_BITS,
    FAST_TOLERANCE_BITS, HIGH_PRECISION_TOLERANCE_BITS,
};
use crate::engine_error::{CurveEngineError, CurveParameterRepresentation};

verus! {

/// A parameter representation works with an interpolation unless the
/// representation is the instantaneous forward rate and the interpolation is
/// neither flat-forward nor monotonic cubic.
pub open spec fn representation_fits(repr: CurveParameterRepresentation, interp: BootstrapInterpolation) -> bool {
    !(repr == CurveParameterRepresentation::InstantaneousForward
        && interp != BootstrapInterpolation::FlatForward
        && interp != BootstrapInterpolation::MonotonicCubic)
}

/// Curve construction settings.
#[derive(Debug, Clone, Copy, PartialEq, Eq, Structural)]
pub struct CurveConfig {
    /// Bootstrap solver settings.
    pub bootstrap: GenericBootstrapConfig,
    /// How curve parameters are stored (default: log discount factors).
    pub parameter_representation: CurveParameterRepresentation,
}

/// Solver settings with the given tolerance and iteration limit, on log discount factors.
pub open spec fn curve_config_with(tolerance_bits: u64, max_iterations: usize) -> CurveConfig {
    CurveConfig {
        bootstrap: bootstrap_config_with(tolerance_bits, max_iterations),
        parameter_representation: CurveParameterRepresentation::LogDiscountFactor,
    }
}

/// Only the instantaneous forward representation is ever refused: every
/// other representation works with every interpolation, and the
/// instantaneous forward one works exactly with flat-forward and monotonic
/// cubic interpolation.
pub proof fn lemma_only_instantaneous_forward_refused(repr: CurveParameterRepresentation, interp: BootstrapInterpolation)
    ensures
        repr != CurveParameterRepresentation::InstantaneousForward ==> representation_fits(repr, interp),
        repr == CurveParameterRepresentation::InstantaneousForward ==> (representation_fits(repr, interp)
            <==> (interp == BootstrapInterpolation::FlatForward || interp == BootstrapInterpolation::MonotonicCubic)),
{
}

impl Default for CurveConfig {
    fn default() -> (r: Self)
        ensures
            r == curve_config_with(DEFAULT_TOLERANCE_BITS, 100),
    {
        CurveConfig {
            bootstrap: GenericBootstrapConfig::default(),
            parameter_representation: CurveParameterRepresentation::LogDiscountFactor,
        }
    }
}

impl CurveConfig {
    /// The default settings.
    pub fn new() -> (r: Self)
        ensures
            r == curve_config_with(DEFAULT_TOLERANCE_BITS, 100),
    {
        Self::default()
    }

    /// A builder starting from the default settings.
    pub fn builder() -> (r: CurveConfigBuilder)
        ensures
            r.config == curve_config_with(DEFAULT_TOLERANCE_BITS, 100),
    {
        CurveConfigBuilder::new()
    }

    /// High precision: tolerance 1e-14 and 500 iterations.
    pub fn high_precision() -> (r: Self)
        ensures
            r == curve_config_with(HIGH_PRECISION_TOLERANCE_BITS, 500),
    {
        CurveConfig {
            bootstrap: GenericBootstrapConfig::high_precision(),
            parameter_representation: CurveParameterRepresentation::LogDiscountFactor,
        }
    }

    /// Fast, for interactive use: tolerance 1e-8 and 50 iterations.
    pub fn fast() -> (r: Self)
        ensures
            r == curve_config_with(FAST_TOLERANCE_BITS, 50),
    {
        CurveConfig {
            bootstrap: GenericBootstrapConfig::fast(),
            parameter_representation: CurveParameterRepresentation::LogDiscountFactor,
        }
    }

    /// Sets the parameter representation.
    pub fn with_parameter_representation(self, repr: CurveParameterRepresentation) -> (r: Self)
        ensures
            r == (CurveConfig { parameter_representation: repr, ..self }),
    {
        CurveConfig { parameter_representation: repr, ..self }
    }

    /// Sets the tolerance.
    pub fn with_tolerance(self, tolerance_bits: u64) -> (r: Self)
        ensures
            r == (CurveConfig { bootstrap: GenericBootstrapConfig { tolerance_bits, ..self.bootstrap }, ..self }),
    {
        CurveConfig { bootstrap: self.bootstrap.with_tolerance(tolerance_bits), ..self }
    }

    /// Sets the iteration limit.
    pub fn with_max_iterations(self, max_iterations: usize) -> (r: Self)
        ensures
            r == (CurveConfig { bootstrap: GenericBootstrapConfig { max_iterations, ..self.bootstrap }, ..self }),
    {
        CurveConfig { bootstrap: self.bootstrap.with_max_iterations(max_iterations), ..self }
    }

    /// Sets the interpolation method.
    pub fn with_interpolation(self, interpolation: BootstrapInterpolation) -> (r: Self)
        ensures
            r == (CurveConfig { bootstrap: GenericBootstrapConfig { interpolation, ..self.bootstrap }, ..self }),
    {
        CurveConfig { bootstrap: self.bootstrap.with_interpolation(interpolation), ..self }
    }

    /// Sets whether extrapolation is allowed.
    pub fn with_extrapolation(self, allow: bool) -> (r: Self)
        ensures
            r == (CurveConfig { bootstrap: GenericBootstrapConfig { allow_extrapolation: allow, ..self.bootstrap }, ..self }),
    {
        CurveConfig { bootstrap: self.bootstrap.with_extrapolation(allow), ..self }
    }

    /// Sets whether negative rates are allowed.
    pub fn with_negative_rates(self, allow: bool) -> (r: Self)
        ensures
            r == (CurveConfig { bootstrap: GenericBootstrapConfig { allow_negative_rates: allow, ..self.bootstrap }, ..self }),
    {
        CurveConfig { bootstrap: self.bootstrap.with_negative_rates(allow), ..self }
    }

    /// Sets the maximum maturity.
    pub fn with_max_maturity(self, max_maturity_bits: u64) -> (r: Self)
        ensures
            r == (CurveConfig { bootstrap: GenericBootstrapConfig { max_maturity_bits, ..self.bootstrap }, ..self }),
    {
        CurveConfig { bootstrap: self.bootstrap.with_max_maturity(max_maturity_bits), ..self }
    }

    /// Checks that the parameter representation suits the interpolation.
    pub fn validate(&self) -> (r: Result<(), CurveEngineError>)
        ensures
            representation_fits(self.parameter_representation, self.bootstrap.interpolation) ==> r is Ok,
            !representation_fits(self.parameter_representation, self.bootstrap.interpolation) ==> r == Err::<(), CurveEngineError>(
                CurveEngineError::InvalidConfiguration {
                    param_repr: self.parameter_representation,
                    interpolation: self.bootstrap.interpolation,
                },
            ),
            self.parameter_representation != CurveParameterRepresentation::InstantaneousForward ==> r is Ok,
            self.parameter_representation == CurveParameterRepresentation::InstantaneousForward ==> (r is Ok
                <==> (self.bootstrap.interpolation == BootstrapInterpolation::FlatForward
                    || self.bootstrap.interpolation == BootstrapInterpolation::MonotonicCubic)),
    {
        match (self.parameter_representation, self.bootstrap.interpolation) {
            (CurveParameterRepresentation::LogDiscountFactor, BootstrapInterpolation::LogLinear)
            | (CurveParameterRepresentation::LogDiscountFactor, BootstrapInterpolation::FlatForward) => Ok(()),
            (CurveParameterRepresentation::ZeroRate, BootstrapInterpolation::LinearZeroRate)
            | (CurveParameterRepresentation::ZeroRate, BootstrapInterpolation::CubicSpline) => Ok(()),
            (_, BootstrapInterpolation::MonotonicCubic) => Ok(()),
            (CurveParameterRepresentation::InstantaneousForward, BootstrapInterpolation::FlatForward) => Ok(()),
            (CurveParameterRepresentation::InstantaneousForward, _) => Err(CurveEngineError::invalid_config(
                self.parameter_representation,
                self.bootstrap.interpolation,
            )),
            (CurveParameterRepresentation::LogDiscountFactor, BootstrapInterpolation::LinearZeroRate)
            | (CurveParameterRepresentation::LogDiscountFactor, BootstrapInterpolation::CubicSpline) => Ok(()),
            (CurveParameterRepresentation::ZeroRate, BootstrapInterpolation::LogLinear)
            | (CurveParameterRepresentation::ZeroRate, BootstrapInterpolation::FlatForward) => Ok(()),
        }
    }
}

/// Step-by-step construction of curve settings.
#[derive(Debug, Clone, Copy)]
pub struct CurveConfigBuilder {
    /// The settings built so far.
    pub config: CurveConfig,
}

impl Default for CurveConfigBuilder {
    fn default() -> (r: Self)
        ensures
            r.config == curve_config_with(DEFAULT_TOLERANCE_BITS, 100),
    {
        Self::new()
    }
}

impl CurveConfigBuilder {
    /// A builder starting from the default settings.
    pub fn new() -> (r: Self)
        ensures
            r.config == curve_config_with(DEFAULT_TOLERANCE_BITS, 100),
    {
        CurveConfigBuilder { config: CurveConfig::default() }
    }

    /// Sets the parameter representation.
    pub fn parameter_representation(self, repr: CurveParameterRepresentation) -> (r: Self)
        ensures
            r.config == (CurveConfig { parameter_representation: repr, ..self.config }),
    {
        CurveConfigBuilder { config: self.config.with_parameter_representation(repr) }
    }

    /// Sets the tolerance.
    pub fn tolerance(self, tolerance_bits: u64) -> (r: Self)
        ensures
            r.config.parameter_representation == self.config.parameter_representation,
            r.config.bootstrap == (GenericBootstrapConfig { tolerance_bits, ..self.config.bootstrap }),
    {
        CurveConfigBuilder { config: self.config.with_tolerance(tolerance_bits) }
    }

    /// Sets the iteration limit.
    pub fn max_iterations(self, max_iterations: usize) -> (r: Self)
        ensures
            r.config.parameter_representation == self.config.parameter_representation,
            r.config.bootstrap == (GenericBootstrapConfig { max_iterations, ..self.config.bootstrap }),
    {
        CurveConfigBuilder { config: self.config.with_max_iterations(max_iterations) }
    }

    /// Sets the interpolation method.
    pub fn interpolation(self, interpolation: BootstrapInterpolation) -> (r: Self)
        ensures
            r.config.parameter_representation == self.config.parameter_representation,
            r.config.bootstrap == (GenericBootstrapConfig { interpolation, ..self.config.bootstrap }),
    {
        CurveConfigBuilder { config: self.config.with_interpolation(interpolation) }
    }

    /// Sets whether extrapolation is allowed.
    pub fn allow_extrapolation(self, allow: bool) -> (r: Self)
        ensures
            r.config.parameter_representation == self.config.parameter_representation,
            r.config.bootstrap == (GenericBootstrapConfig { allow_extrapolation: allow, ..self.config.bootstrap }),
    {
        CurveConfigBuilder { config: self.config.with_extrapolation(allow) }
    }

    /// Sets whether negative rates are allowed.
    pub fn allow_negative_rates(self, allow: bool) -> (r: Self)
        ensures
            r.config.parameter_representation == self.config.parameter_representation,
            r.config.bootstrap == (GenericBootstrapConfig { allow_negative_rates: allow, ..self.config.bootstrap }),
    {
        CurveConfigBuilder { config: self.config.with_negative_rates(allow) }
    }

    /// Sets the maximum maturity.
    pub fn max_maturity(self, max_maturity_bits: u64) -> (r: Self)
        ensures
            r.config.parameter_representation == self.config.parameter_representation,
            r.config.bootstrap == (GenericBootstrapConfig { max_maturity_bits, ..self.config.bootstrap }),
    {
        CurveConfigBuilder { config: self.config.with_max_maturity(max_maturity_bits) }
    }

    /// The settings.
    pub fn build(self) -> (r: CurveConfig)
        ensures
            r == self.config,
    {
        self.config
    }

    /// The settings, when they validate; otherwise the validation error.
    pub fn build_validated(self) -> (r: Result<CurveConfig, CurveEngineError>)
        ensures
            representation_fits(self.config.parameter_representation, self.config.bootstrap.interpolation)
                ==> r == Ok::<CurveConfig, CurveEngineError>(self.config),
            !representation_fits(self.config.parameter_representation, self.config.bootstrap.interpolation)
                ==> r == Err::<CurveConfig, CurveEngineError>(CurveEngineError::InvalidConfiguration {
                    param_repr: self.config.parameter_representation,
                    interpolation: self.config.bootstrap.interpolation,
                }),
            self.config.parameter_representation != CurveParameterRepresentation::InstantaneousForward
                ==> r == Ok::<CurveConfig, CurveEngineError>(self.config),
    {
        let config = self.config;
        match config.validate() {
            Ok(()) => Ok(config),
            Err(e) => Err(e),
        }
    }
}

} // verus!
