use pricer_models::bootstrap_config::BootstrapInterpolation;
use pricer_models::engine_error::{BootstrapError, CurveEngineError, CurveParameterRepresentation};

#[test]
fn test_configuration_error_is_check() {
    let err = CurveEngineError::configuration("tolerance", "must be positive");
    assert!(err.is_configuration_error());
    assert!(!err.is_bootstrap_error());
    assert!(!err.is_instrument_error());
}

#[test]
fn test_instrument_error_is_check() {
    let err = CurveEngineError::instrument("5Y", "missing rate");
    assert!(err.is_instrument_error());
    assert!(!err.is_configuration_error());
}

#[test]
fn test_bootstrap_error_from() {
    let bootstrap_err = BootstrapError::convergence_failure(5.0f64.to_bits(), 0.001f64.to_bits(), 100);
    let engine_err: CurveEngineError = bootstrap_err.into();
    assert!(engine_err.is_bootstrap_error());
}

#[test]
fn test_bootstrap_error_as_bootstrap_error() {
    let bootstrap_err = BootstrapError::convergence_failure(5.0f64.to_bits(), 0.001f64.to_bits(), 100);
    let engine_err: CurveEngineError = bootstrap_err.clone().into();
    let inner = engine_err.as_bootstrap_error();
    assert!(inner.is_some());
    assert!(inner.unwrap().is_convergence_failure());
}

#[test]
fn test_non_bootstrap_error_as_bootstrap_error() {
    let err = CurveEngineError::configuration("field", "reason");
    assert!(err.as_bootstrap_error().is_none());
}

#[test]
fn test_cache_error_is_check() {
    let err = CurveEngineError::cache("lock poisoned");
    assert!(err.is_cache_error());
    assert!(!err.is_bootstrap_error());
}

#[test]
fn test_circular_dependency_is_check() {
    let err = CurveEngineError::CircularDependency;
    assert!(err.is_circular_dependency());
    assert!(!err.is_bootstrap_error());
}

#[test]
fn test_param_repr_default() {
    let repr: CurveParameterRepresentation = Default::default();
    assert_eq!(repr, CurveParameterRepresentation::LogDiscountFactor);
}

#[test]
fn test_param_repr_clone() {
    let repr1 = CurveParameterRepresentation::ZeroRate;
    let repr2 = repr1.clone();
    assert_eq!(repr1, repr2);
}

#[test]
fn test_param_repr_copy() {
    let repr1 = CurveParameterRepresentation::InstantaneousForward;
    let repr2 = repr1;
    assert_eq!(repr1, repr2);
}

#[test]
fn test_param_repr_debug() {
    let debug_str = format!("{:?}", CurveParameterRepresentation::ZeroRate);
    assert!(debug_str.contains("ZeroRate"));
}

#[test]
fn test_param_repr_equality() {
    assert_eq!(CurveParameterRepresentation::LogDiscountFactor, CurveParameterRepresentation::LogDiscountFactor);
    assert_ne!(CurveParameterRepresentation::LogDiscountFactor, CurveParameterRepresentation::ZeroRate);
}

#[test]
fn engine_error_test_clone() {
    let err = CurveEngineError::instrument("5Y", "missing rate");
    let cloned = err.clone();
    assert!(cloned.is_instrument_error());
}

#[test]
fn test_debug() {
    let err = CurveEngineError::configuration("tolerance", "must be positive");
    let debug_str = format!("{:?}", err);
    assert!(debug_str.contains("Configuration"));
}

// --- own tests ---------------------------------------------------------------

#[test]
fn constructors_keep_their_text() {
    match CurveEngineError::configuration("tolerance", "must be positive") {
        CurveEngineError::Configuration { field, reason } => {
            assert_eq!(field, "tolerance");
            assert_eq!(reason, "must be positive");
        }
        _ => panic!("expected a configuration error"),
    }
    match CurveEngineError::instrument("5Y", "missing rate") {
        CurveEngineError::Instrument { tenor, reason } => {
            assert_eq!(tenor, "5Y");
            assert_eq!(reason, "missing rate");
        }
        _ => panic!("expected an instrument error"),
    }
    assert!(matches!(CurveEngineError::incomplete_definition("x"), CurveEngineError::IncompleteInstrumentDefinition(m) if m == "x"));
    assert!(matches!(CurveEngineError::unknown_index("Foo"), CurveEngineError::UnknownIndex(m) if m == "Foo"));
    assert!(matches!(CurveEngineError::interpolation("y"), CurveEngineError::Interpolation(m) if m == "y"));
    assert!(matches!(CurveEngineError::parse("bad json"), CurveEngineError::ConfigurationParse(m) if m == "bad json"));
    assert!(matches!(CurveEngineError::io("no file"), CurveEngineError::Io(m) if m == "no file"));
    assert!(matches!(
        CurveEngineError::invalid_config(CurveParameterRepresentation::ZeroRate, BootstrapInterpolation::CubicSpline),
        CurveEngineError::InvalidConfiguration {
            param_repr: CurveParameterRepresentation::ZeroRate,
            interpolation: BootstrapInterpolation::CubicSpline,
        }
    ));
}

#[test]
fn bootstrap_error_round_trips_through_engine_error() {
    let e = BootstrapError::convergence_failure(2.5f64.to_bits(), 1e-3f64.to_bits(), 42);
    let engine: CurveEngineError = CurveEngineError::from(e);
    assert_eq!(engine.as_bootstrap_error(), Some(&e));
    match e {
        BootstrapError::ConvergenceFailure { maturity_bits, residual_bits, iterations } => {
            assert_eq!(f64::from_bits(maturity_bits), 2.5);
            assert_eq!(f64::from_bits(residual_bits), 1e-3);
            assert_eq!(iterations, 42);
        }
    }
    assert!(!CurveEngineError::CircularDependency.is_cache_error());
    assert!(!CurveEngineError::cache("c").is_circular_dependency());
}

#[test]
fn bootstrap_interpolation_default() {
    let d: BootstrapInterpolation = Default::default();
    assert_eq!(d, BootstrapInterpolation::LogLinear);
}
