//! Interpolation choices and solver settings of the curve bootstrapper.
//!
//! Floating-point settings are carried as their IEEE-754 bit patterns
//! (`f64::to_bits`), so that the value is reproduced exactly.
use vstd::prelude::*;

verus! {

/// Bootstrap interpolation methods, ordered by how often the industry uses them.
#[derive(Debug, Clone, Copy, PartialEq, Eq, Structural)]
pub enum BootstrapInterpolation {
    /// Log-linear interpolation (default): piecewise constant forward rates.
    LogLinear,
    /// Constant forward rate between pillars.
    FlatForward,
    /// Linear interpolation on zero rates.
    LinearZeroRate,
    /// Cubic spline interpolation on zero rates.
    CubicSpline,
    /// Monotonic cubic interpolation, free of arbitrage.
    MonotonicCubic,
}

impl Default for BootstrapInterpolation {
    fn default() -> (r: Self)
        ensures
            r == BootstrapInterpolation::LogLinear,
    {
        BootstrapInterpolation::LogLinear
    }
}

/// Bits of 1e-12, the default solver tolerance.
pub const DEFAULT_TOLERANCE_BITS: u64 = 0x3d71_9799_812d_ea11;
/// Bits of 1e-14, the high-precision solver tolerance.
pub const HIGH_PRECISION_TOLERANCE_BITS: u64 = 0x3d06_849b_86a1_2b9b;
/// Bits of 1e-8, the fast solver tolerance.
pub const FAST_TOLERANCE_BITS: u64 = 0x3e45_798e_e230_8c3a;
/// Bits of 50.0, the default maximum maturity in years.
pub const DEFAULT_MAX_MATURITY_BITS: u64 = 0x4049_0000_0000_0000;

/// Settings of the pillar-by-pillar bootstrap solver.
#[derive(Debug, Clone, Copy, PartialEq, Eq, Structural)]
pub struct GenericBootstrapConfig {
    /// Convergence tolerance of the solver, as `f64` bits (default 1e-12).
    pub tolerance_bits: u64,
    /// Maximum iterations per pillar (default 100).
    pub max_iterations: usize,
    /// Interpolation method (default log-linear).
    pub interpolation: BootstrapInterpolation,
    /// Whether the curve extrapolates beyond its pillars (default true).
    pub allow_extrapolation: bool,
    /// Whether negative rates are allowed (default false).
    pub allow_negative_rates: bool,
    /// Maximum supported maturity in years, as `f64` bits (default 50).
    pub max_maturity_bits: u64,
}

/// The default settings, with the given tolerance and iteration limit.
pub open spec fn bootstrap_config_with(tolerance_bits: u64, max_iterations: usize) -> GenericBootstrapConfig {
    GenericBootstrapConfig {
        tolerance_bits,
        max_iterations,
        interpolation: BootstrapInterpolation::LogLinear,
        allow_extrapolation: true,
        allow_negative_rates: false,
        max_maturity_bits: DEFAULT_MAX_MATURITY_BITS,
    }
}

impl Default for GenericBootstrapConfig {
    fn default() -> (r: Self)
        ensures
            r == bootstrap_config_with(DEFAULT_TOLERANCE_BITS, 100),
    {
        GenericBootstrapConfig {
            tolerance_bits: DEFAULT_TOLERANCE_BITS,
            max_iterations: 100,
            interpolation: BootstrapInterpolation::LogLinear,
            allow_extrapolation: true,
            allow_negative_rates: false,
            max_maturity_bits: DEFAULT_MAX_MATURITY_BITS,
        }
    }
}

impl GenericBootstrapConfig {
    /// The default settings.
    pub fn new() -> (r: Self)
        ensures
            r == bootstrap_config_with(DEFAULT_TOLERANCE_BITS, 100),
    {
        Self::default()
    }

    /// A builder starting from the default settings.
    pub fn builder() -> (r: GenericBootstrapConfigBuilder)
        ensures
            r.config == bootstrap_config_with(DEFAULT_TOLERANCE_BITS, 100),
    {
        GenericBootstrapConfigBuilder::new()
    }

    /// High precision: tolerance 1e-14 and 500 iterations.
    pub fn high_precision() -> (r: Self)
        ensures
            r == bootstrap_config_with(HIGH_PRECISION_TOLERANCE_BITS, 500),
    {
        GenericBootstrapConfig { tolerance_bits: HIGH_PRECISION_TOLERANCE_BITS, max_iterations: 500, ..Self::default() }
    }

    /// Fast, for interactive use: tolerance 1e-8 and 50 iterations.
    pub fn fast() -> (r: Self)
        ensures
            r == bootstrap_config_with(FAST_TOLERANCE_BITS, 50),
    {
        GenericBootstrapConfig { tolerance_bits: FAST_TOLERANCE_BITS, max_iterations: 50, ..Self::default() }
    }

    /// Sets the tolerance.
    pub fn with_tolerance(self, tolerance_bits: u64) -> (r: Self)
        ensures
            r == (GenericBootstrapConfig { tolerance_bits, ..self }),
    {
        GenericBootstrapConfig { tolerance_bits, ..self }
    }

    /// Sets the iteration limit.
    pub fn with_max_iterations(self, max_iterations: usize) -> (r: Self)
        ensures
            r == (GenericBootstrapConfig { max_iterations, ..self }),
    {
        GenericBootstrapConfig { max_iterations, ..self }
    }

    /// Sets the interpolation method.
    pub fn with_interpolation(self, interpolation: BootstrapInterpolation) -> (r: Self)
        ensures
            r == (GenericBootstrapConfig { interpolation, ..self }),
    {
        GenericBootstrapConfig { interpolation, ..self }
    }

    /// Sets whether extrapolation is allowed.
    pub fn with_extrapolation(self, allow: bool) -> (r: Self)
        ensures
            r == (GenericBootstrapConfig { allow_extrapolation: allow, ..self }),
    {
        GenericBootstrapConfig { allow_extrapolation: allow, ..self }
    }

    /// Sets whether negative rates are allowed.
    pub fn with_negative_rates(self, allow: bool) -> (r: Self)
        ensures
            r == (GenericBootstrapConfig { allow_negative_rates: allow, ..self }),
    {
        GenericBootstrapConfig { allow_negative_rates: allow, ..self }
    }

    /// Sets the maximum maturity.
    pub fn with_max_maturity(self, max_maturity_bits: u64) -> (r: Self)
        ensures
            r == (GenericBootstrapConfig { max_maturity_bits, ..self }),
    {
        GenericBootstrapConfig { max_maturity_bits, ..self }
    }
}

/// Step-by-step construction of bootstrap settings.
#[derive(Debug, Clone, Copy)]
pub struct GenericBootstrapConfigBuilder {
    /// The settings built so far.
    pub config: GenericBootstrapConfig,
}

impl GenericBootstrapConfigBuilder {
    /// A builder starting from the default settings.
    pub fn new() -> (r: Self)
        ensures
            r.config == bootstrap_config_with(DEFAULT_TOLERANCE_BITS, 100),
    {
        GenericBootstrapConfigBuilder { config: GenericBootstrapConfig::default() }
    }

    /// Sets the tolerance.
    pub fn tolerance(self, tolerance_bits: u64) -> (r: Self)
        ensures
            r.config == (GenericBootstrapConfig { tolerance_bits, ..self.config }),
    {
        GenericBootstrapConfigBuilder { config: self.config.with_tolerance(tolerance_bits) }
    }

    /// Sets the iteration limit.
    pub fn max_iterations(self, max_iterations: usize) -> (r: Self)
        ensures
            r.config == (GenericBootstrapConfig { max_iterations, ..self.config }),
    {
        GenericBootstrapConfigBuilder { config: self.config.with_max_iterations(max_iterations) }
    }

    /// Sets the interpolation method.
    pub fn interpolation(self, interpolation: BootstrapInterpolation) -> (r: Self)
        ensures
            r.config == (GenericBootstrapConfig { interpolation, ..self.config }),
    {
        GenericBootstrapConfigBuilder { config: self.config.with_interpolation(interpolation) }
    }

    /// Sets whether extrapolation is allowed.
    pub fn allow_extrapolation(self, allow: bool) -> (r: Self)
        ensures
            r.config == (GenericBootstrapConfig { allow_extrapolation: allow, ..self.config }),
    {
        GenericBootstrapConfigBuilder { config: self.config.with_extrapolation(allow) }
    }

    /// Sets whether negative rates are allowed.
    pub fn allow_negative_rates(self, allow: bool) -> (r: Self)
        ensures
            r.config == (GenericBootstrapConfig { allow_negative_rates: allow, ..self.config }),
    {
        GenericBootstrapConfigBuilder { config: self.config.with_negative_rates(allow) }
    }

    /// Sets the maximum maturity.
    pub fn max_maturity(self, max_maturity_bits: u64) -> (r: Self)
        ensures
            r.config == (GenericBootstrapConfig { max_maturity_bits, ..self.config }),
    {
        GenericBootstrapConfigBuilder { config: self.config.with_max_maturity(max_maturity_bits) }
    }

    /// The settings.
    pub fn build(self) -> (r: GenericBootstrapConfig)
        ensures
            r == self.config,
    {
        self.config
    }
}

impl Default for GenericBootstrapConfigBuilder {
    fn default() -> (r: Self)
        ensures
            r.config == bootstrap_config_with(DEFAULT_TOLERANCE_BITS, 100),
    {
        Self::new()
    }
}

} // verus!
