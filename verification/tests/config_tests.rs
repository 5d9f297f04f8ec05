use pricer_models::bootstrap_config::{BootstrapInterpolation, GenericBootstrapConfig};
use pricer_models::curve_config::CurveConfig;
use pricer_models::engine_error::{CurveEngineError, CurveParameterRepresentation};
use pricer_models::global_bootstrapper::GlobalBootstrapConfig;

fn f(bits: u64) -> f64 {
    f64::from_bits(bits)
}

fn b(x: f64) -> u64 {
    x.to_bits()
}

#[test]
fn config_test_default_config() {
    let config = GenericBootstrapConfig::default();
    assert!((f(config.tolerance_bits) - 1e-12).abs() < 1e-17);
    assert_eq!(config.max_iterations, 100);
    assert_eq!(config.interpolation, BootstrapInterpolation::LogLinear);
    assert!(config.allow_extrapolation);
    assert!(!config.allow_negative_rates);
    assert!((f(config.max_maturity_bits) - 50.0).abs() < 1e-10);
}

#[test]
fn config_test_high_precision_config() {
    let config = GenericBootstrapConfig::high_precision();
    assert!(f(config.tolerance_bits) < 1e-12);
    assert!(config.max_iterations >= 500);
}

#[test]
fn config_test_fast_config() {
    let config = GenericBootstrapConfig::fast();
    assert!(f(config.tolerance_bits) > 1e-10);
    assert!(config.max_iterations <= 50);
}

#[test]
fn test_chained_configuration() {
    let config = GenericBootstrapConfig::default()
        .with_tolerance(b(1e-14))
        .with_max_iterations(200)
        .with_interpolation(BootstrapInterpolation::MonotonicCubic)
        .with_extrapolation(false)
        .with_negative_rates(true)
        .with_max_maturity(b(60.0));
    assert!((f(config.tolerance_bits) - 1e-14).abs() < 1e-19);
    assert_eq!(config.max_iterations, 200);
    assert_eq!(config.interpolation, BootstrapInterpolation::MonotonicCubic);
    assert!(!config.allow_extrapolation);
    assert!(config.allow_negative_rates);
    assert!((f(config.max_maturity_bits) - 60.0).abs() < 1e-10);
}

#[test]
fn test_legacy_builder() {
    let config = GenericBootstrapConfig::builder().tolerance(b(1e-14)).max_iterations(200).build();
    assert!((f(config.tolerance_bits) - 1e-14).abs() < 1e-19);
    assert_eq!(config.max_iterations, 200);
}

#[test]
fn test_interpolation_default() {
    assert_eq!(BootstrapInterpolation::default(), BootstrapInterpolation::LogLinear);
}

#[test]
fn test_interpolation_clone_copy() {
    let interp1 = BootstrapInterpolation::CubicSpline;
    let interp2 = interp1;
    let interp3 = interp1.clone();
    assert_eq!(interp1, interp2);
    assert_eq!(interp1, interp3);
}

#[test]
fn curve_config_test_default_config() {
    let config = CurveConfig::default();
    assert_eq!(config.parameter_representation, CurveParameterRepresentation::LogDiscountFactor);
    assert!((f(config.bootstrap.tolerance_bits) - 1e-12).abs() < 1e-17);
    assert_eq!(config.bootstrap.max_iterations, 100);
    assert_eq!(config.bootstrap.interpolation, BootstrapInterpolation::LogLinear);
}

#[test]
fn curve_config_test_high_precision_config() {
    let config = CurveConfig::high_precision();
    assert!(f(config.bootstrap.tolerance_bits) < 1e-12);
    assert!(config.bootstrap.max_iterations >= 500);
}

#[test]
fn curve_config_test_fast_config() {
    let config = CurveConfig::fast();
    assert!(f(config.bootstrap.tolerance_bits) > 1e-10);
    assert!(config.bootstrap.max_iterations <= 50);
}

#[test]
fn test_builder_chained() {
    let config = CurveConfig::builder()
        .parameter_representation(CurveParameterRepresentation::ZeroRate)
        .tolerance(b(1e-14))
        .max_iterations(200)
        .interpolation(BootstrapInterpolation::LinearZeroRate)
        .allow_extrapolation(false)
        .allow_negative_rates(true)
        .max_maturity(b(60.0))
        .build();
    assert_eq!(config.parameter_representation, CurveParameterRepresentation::ZeroRate);
    assert!((f(config.bootstrap.tolerance_bits) - 1e-14).abs() < 1e-19);
    assert_eq!(config.bootstrap.max_iterations, 200);
    assert_eq!(config.bootstrap.interpolation, BootstrapInterpolation::LinearZeroRate);
    assert!(!config.bootstrap.allow_extrapolation);
    assert!(config.bootstrap.allow_negative_rates);
}

#[test]
fn test_builder_validated() {
    let ok = CurveConfig::builder()
        .parameter_representation(CurveParameterRepresentation::ZeroRate)
        .interpolation(BootstrapInterpolation::LinearZeroRate)
        .build_validated();
    assert!(ok.is_ok());
    let err = CurveConfig::builder()
        .parameter_representation(CurveParameterRepresentation::InstantaneousForward)
        .interpolation(BootstrapInterpolation::CubicSpline)
        .build_validated();
    assert!(err.is_err());
}

#[test]
fn test_deref_access() {
    let config = CurveConfig::default();
    assert!((f(config.bootstrap.tolerance_bits) - 1e-12).abs() < 1e-17);
    assert_eq!(config.bootstrap.max_iterations, 100);
}

#[test]
fn test_deref_mut_access() {
    let mut config = CurveConfig::default();
    config.bootstrap.max_iterations = 300;
    config.bootstrap.tolerance_bits = b(1e-15);
    assert_eq!(config.bootstrap.max_iterations, 300);
    assert_eq!(f(config.bootstrap.tolerance_bits), 1e-15);
}

#[test]
fn global_bootstrapper_test_config_default() {
    let config = GlobalBootstrapConfig::default();
    assert!((f(config.tolerance_bits) - 1e-10).abs() < 1e-15);
    assert_eq!(config.max_iterations, 100);
    assert!(config.store_jacobian_inverse);
}

#[test]
fn test_config_high_precision() {
    let config = GlobalBootstrapConfig::high_precision();
    assert!(f(config.tolerance_bits) < 1e-12);
    assert!(config.max_iterations >= 500);
}

#[test]
fn test_config_fast() {
    let config = GlobalBootstrapConfig::fast();
    assert!(f(config.tolerance_bits) > 1e-8);
    assert!(!config.store_jacobian_inverse);
}

// --- own tests ---------------------------------------------------------------

#[test]
fn representation_and_interpolation_combinations() {
    use_cases(&[
        (CurveParameterRepresentation::LogDiscountFactor, BootstrapInterpolation::LogLinear, true),
        (CurveParameterRepresentation::LogDiscountFactor, BootstrapInterpolation::FlatForward, true),
        (CurveParameterRepresentation::ZeroRate, BootstrapInterpolation::LinearZeroRate, true),
        (CurveParameterRepresentation::ZeroRate, BootstrapInterpolation::CubicSpline, true),
        (CurveParameterRepresentation::InstantaneousForward, BootstrapInterpolation::FlatForward, true),
        (CurveParameterRepresentation::InstantaneousForward, BootstrapInterpolation::LogLinear, false),
        (CurveParameterRepresentation::InstantaneousForward, BootstrapInterpolation::CubicSpline, false),
        (CurveParameterRepresentation::InstantaneousForward, BootstrapInterpolation::LinearZeroRate, false),
        (CurveParameterRepresentation::InstantaneousForward, BootstrapInterpolation::MonotonicCubic, true),
        (CurveParameterRepresentation::LogDiscountFactor, BootstrapInterpolation::MonotonicCubic, true),
        (CurveParameterRepresentation::ZeroRate, BootstrapInterpolation::MonotonicCubic, true),
        (CurveParameterRepresentation::LogDiscountFactor, BootstrapInterpolation::CubicSpline, true),
        (CurveParameterRepresentation::ZeroRate, BootstrapInterpolation::FlatForward, true),
    ]);
}

fn use_cases(cases: &[(CurveParameterRepresentation, BootstrapInterpolation, bool)]) {
    for &(repr, interp, valid) in cases {
        let config = CurveConfig::builder().parameter_representation(repr).interpolation(interp).build();
        match config.validate() {
            Ok(()) => assert!(valid),
            Err(CurveEngineError::InvalidConfiguration { param_repr, interpolation }) => {
                assert!(!valid);
                assert_eq!(param_repr, repr);
                assert_eq!(interpolation, interp);
            }
            Err(e) => panic!("unexpected error {:?}", e),
        }
    }
}

#[test]
fn with_methods_change_one_setting() {
    let base = CurveConfig::default();
    assert_eq!(base.with_max_iterations(50).bootstrap.max_iterations, 50);
    assert!(!base.with_extrapolation(false).bootstrap.allow_extrapolation);
    assert!(base.with_negative_rates(true).bootstrap.allow_negative_rates);
    assert_eq!(f(base.with_tolerance(b(1e-8)).bootstrap.tolerance_bits), 1e-8);
    assert_eq!(f(base.with_max_maturity(b(75.0)).bootstrap.max_maturity_bits), 75.0);
    assert_eq!(
        base.with_interpolation(BootstrapInterpolation::FlatForward).bootstrap.interpolation,
        BootstrapInterpolation::FlatForward
    );
    assert_eq!(
        base.with_parameter_representation(CurveParameterRepresentation::ZeroRate).bootstrap,
        base.bootstrap
    );
    let g = GlobalBootstrapConfig::new(b(1e-9), 42);
    assert_eq!(g.tolerance_bits, g.param_tolerance_bits);
    assert_eq!(g.max_iterations, 42);
    assert!(!g.with_jacobian_inverse(false).store_jacobian_inverse);
    assert_eq!(
        g.with_interpolation(BootstrapInterpolation::CubicSpline).interpolation,
        BootstrapInterpolation::CubicSpline
    );
}
