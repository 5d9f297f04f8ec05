//! Errors of market data operations: the hierarchy of curve, surface and
//! context errors under `MarketError`, and the flat `MarketDataError` and
//! `MarketBuildError` enums.
//!
//! Floating-point quantities in errors are carried as their IEEE-754 bit
//! patterns (`f64::to_bits`), so that the value is reproduced exactly.
use vstd::prelude::*;
use crate::curves::CurveName;
use crate::text::join2;

verus! {

/// Curve-related errors: interpolation, bootstrapping and lookup.
#[derive(Debug, Clone, PartialEq)]
pub enum CurveError {
    /// Interpolation failed at a time point.
    Interpolation { time_bits: u64, reason: String },
    /// Bootstrapping failed.
    Bootstrap(String),
    /// No curve of that name.
    NotFound(String),
    /// Invalid curve configuration.
    InvalidConfig(String),
    /// FX curve error.
    Fx(String),
}

impl CurveError {
    /// An interpolation error at the time whose bits are `time_bits`.
    pub fn interpolation(time_bits: u64, reason: &str) -> (r: Self)
        ensures
            r matches CurveError::Interpolation { time_bits: t, reason: m } && t == time_bits && m@ == reason@,
    {
        CurveError::Interpolation { time_bits, reason: reason.to_owned() }
    }

    /// A bootstrap error.
    pub fn bootstrap(message: &str) -> (r: Self)
        ensures
            r matches CurveError::Bootstrap(m) && m@ == message@,
    {
        CurveError::Bootstrap(message.to_owned())
    }

    /// A curve-not-found error.
    pub fn not_found(name: &str) -> (r: Self)
        ensures
            r matches CurveError::NotFound(m) && m@ == name@,
    {
        CurveError::NotFound(name.to_owned())
    }

    /// An invalid configuration error.
    pub fn invalid_config(message: &str) -> (r: Self)
        ensures
            r matches CurveError::InvalidConfig(m) && m@ == message@,
    {
        CurveError::InvalidConfig(message.to_owned())
    }

    /// An FX curve error.
    pub fn fx(message: &str) -> (r: Self)
        ensures
            r matches CurveError::Fx(m) && m@ == message@,
    {
        CurveError::Fx(message.to_owned())
    }
}

/// Surface-related errors: volatility lookup, calibration and strikes.
#[derive(Debug, Clone, PartialEq)]
pub enum SurfaceError {
    /// Volatility lookup failed.
    VolLookup(String),
    /// Calibration failed.
    Calibration(String),
    /// Invalid strike, with the strike as text.
    InvalidStrike(String),
    /// Swaption volatility error.
    Swaption(String),
    /// FX volatility error.
    FxVol(String),
}

/// The text of a surface error.
pub open spec fn surface_error_text(e: SurfaceError) -> Seq<char> {
    match e {
        SurfaceError::VolLookup(m) => "volatility lookup failed: "@ + m@,
        SurfaceError::Calibration(m) => "calibration failed: "@ + m@,
        SurfaceError::InvalidStrike(m) => "invalid strike: "@ + m@,
        SurfaceError::Swaption(m) => "swaption vol error: "@ + m@,
        SurfaceError::FxVol(m) => "fx vol error: "@ + m@,
    }
}

impl SurfaceError {
    /// A volatility lookup error.
    pub fn vol_lookup(message: &str) -> (r: Self)
        ensures
            r matches SurfaceError::VolLookup(m) && m@ == message@,
    {
        SurfaceError::VolLookup(message.to_owned())
    }

    /// A calibration error.
    pub fn calibration(message: &str) -> (r: Self)
        ensures
            r matches SurfaceError::Calibration(m) && m@ == message@,
    {
        SurfaceError::Calibration(message.to_owned())
    }

    /// A swaption volatility error.
    pub fn swaption(message: &str) -> (r: Self)
        ensures
            r matches SurfaceError::Swaption(m) && m@ == message@,
    {
        SurfaceError::Swaption(message.to_owned())
    }

    /// An FX volatility error.
    pub fn fx_vol(message: &str) -> (r: Self)
        ensures
            r matches SurfaceError::FxVol(m) && m@ == message@,
    {
        SurfaceError::FxVol(message.to_owned())
    }

    /// The text that `{}` prints.
    pub fn to_display_string(&self) -> (r: String)
        ensures
            r@ == surface_error_text(*self),
    {
        match self {
            SurfaceError::VolLookup(m) => join2("volatility lookup failed: ", m.as_str()),
            SurfaceError::Calibration(m) => join2("calibration failed: ", m.as_str()),
            SurfaceError::InvalidStrike(m) => join2("invalid strike: ", m.as_str()),
            SurfaceError::Swaption(m) => join2("swaption vol error: ", m.as_str()),
            SurfaceError::FxVol(m) => join2("fx vol error: ", m.as_str()),
        }
    }
}

/// Context-related errors: providers, validation and missing data.
#[derive(Debug, Clone, PartialEq)]
pub enum ContextError {
    /// Market data not found.
    NotFound(String),
    /// Validation failed.
    Validation(String),
    /// Provider error.
    Provider(String),
}

/// The text of a context error.
pub open spec fn context_error_text(e: ContextError) -> Seq<char> {
    match e {
        ContextError::NotFound(m) => "market data not found: "@ + m@,
        ContextError::Validation(m) => "validation failed: "@ + m@,
        ContextError::Provider(m) => "provider error: "@ + m@,
    }
}

impl ContextError {
    /// A not-found error.
    pub fn not_found(description: &str) -> (r: Self)
        ensures
            r matches ContextError::NotFound(m) && m@ == description@,
    {
        ContextError::NotFound(description.to_owned())
    }

    /// A validation error.
    pub fn validation(message: &str) -> (r: Self)
        ensures
            r matches ContextError::Validation(m) && m@ == message@,
    {
        ContextError::Validation(message.to_owned())
    }

    /// A provider error.
    pub fn provider(message: &str) -> (r: Self)
        ensures
            r matches ContextError::Provider(m) && m@ == message@,
    {
        ContextError::Provider(message.to_owned())
    }

    /// The text that `{}` prints.
    pub fn to_display_string(&self) -> (r: String)
        ensures
            r@ == context_error_text(*self),
    {
        match self {
            ContextError::NotFound(m) => join2("market data not found: ", m.as_str()),
            ContextError::Validation(m) => join2("validation failed: ", m.as_str()),
            ContextError::Provider(m) => join2("provider error: ", m.as_str()),
        }
    }
}

/// Root market error: a curve, surface or context error.
#[derive(Debug, Clone)]
pub enum MarketError {
    /// Curve-related error.
    Curve(CurveError),
    /// Surface-related error.
    Surface(SurfaceError),
    /// Context-related error.
    Context(ContextError),
}

impl From<CurveError> for MarketError {
    fn from(e: CurveError) -> (r: Self) {
        MarketError::Curve(e)
    }
}

impl vstd::std_specs::convert::FromSpecImpl<CurveError> for MarketError {
    open spec fn obeys_from_spec() -> bool {
        true
    }

    open spec fn from_spec(e: CurveError) -> Self {
        MarketError::Curve(e)
    }
}

impl From<SurfaceError> for MarketError {
    fn from(e: SurfaceError) -> (r: Self) {
        MarketError::Surface(e)
    }
}

impl vstd::std_specs::convert::FromSpecImpl<SurfaceError> for MarketError {
    open spec fn obeys_from_spec() -> bool {
        true
    }

    open spec fn from_spec(e: SurfaceError) -> Self {
        MarketError::Surface(e)
    }
}

impl From<ContextError> for MarketError {
    fn from(e: ContextError) -> (r: Self) {
        MarketError::Context(e)
    }
}

impl vstd::std_specs::convert::FromSpecImpl<ContextError> for MarketError {
    open spec fn obeys_from_spec() -> bool {
        true
    }

    open spec fn from_spec(e: ContextError) -> Self {
        MarketError::Context(e)
    }
}

/// Errors of market data operations on curves and surfaces.
#[derive(Debug, Clone, PartialEq)]
pub enum MarketDataError {
    /// Negative time to maturity.
    InvalidMaturity { t_bits: u64 },
    /// Non-positive strike.
    InvalidStrike { strike_bits: u64 },
    /// Non-positive time to expiry.
    InvalidExpiry { expiry_bits: u64 },
    /// Query point outside the valid domain `[min, max]`.
    OutOfBounds { x_bits: u64, min_bits: u64, max_bits: u64 },
    /// Not enough data points.
    InsufficientData { got: usize, need: usize },
    /// No curve of that name in a curve set.
    CurveNotFound { name: CurveName },
    /// Interpolation failed.
    InterpolationFailed { reason: String },
    /// Required market data is missing.
    MissingData { description: String },
    /// Feature not implemented for this curve type.
    NotImplemented { feature: String },
    /// Index that no curve is mapped to.
    UnsupportedIndex { index: String },
    /// Index not registered in the market.
    IndexNotFound { index: String },
    /// Curve of an index not built yet.
    CurveNotBuilt { index: String },
    /// Volatility cube of an index not calibrated yet.
    VolCubeNotCalibrated { index: String },
    /// Invalid input to a curve query.
    InvalidInput { message: String },
    /// Maturity beyond the last pillar of a curve that does not extrapolate.
    MaturityOutOfRange { maturity_bits: u64, max_maturity_bits: u64 },
}

/// Errors of building an indexed market.
#[derive(Debug, Clone, PartialEq)]
pub enum MarketBuildError {
    /// The same index was registered twice.
    DuplicateIndexMapping { index: String },
    /// A required index was not registered.
    IndexNotSpecified { context: String },
    /// The valuation date is invalid or inconsistent.
    InvalidValuationDate { reason: String },
}

/// The text of a market build error.
pub open spec fn market_build_error_text(e: MarketBuildError) -> Seq<char> {
    match e {
        MarketBuildError::DuplicateIndexMapping { index } => "Duplicate index mapping: "@ + index@,
        MarketBuildError::IndexNotSpecified { context } => "Index not specified: "@ + context@,
        MarketBuildError::InvalidValuationDate { reason } => "Invalid valuation date: "@ + reason@,
    }
}

impl MarketBuildError {
    /// The text that `{}` prints.
    pub fn to_display_string(&self) -> (r: String)
        ensures
            r@ == market_build_error_text(*self),
    {
        match self {
            MarketBuildError::DuplicateIndexMapping { index } => join2("Duplicate index mapping: ", index.as_str()),
            MarketBuildError::IndexNotSpecified { context } => join2("Index not specified: ", context.as_str()),
            MarketBuildError::InvalidValuationDate { reason } => join2("Invalid valuation date: ", reason.as_str()),
        }
    }
}

} // verus!
