use std::collections::HashMap;
use pricer_models::fx_calibration::ExtrapolationPolicy as Policy;
use pricer_models::bootstrap_config::BootstrapInterpolation as ConfigInterpolation;
use pricer_models::curves::{BootstrapInterpolation, CurveName, ForwardRateDecomposition, Frequency};
use pricer_models::engine::CalibrationScope;
use pricer_models::fx_calibration::{
    FxCalibrationError, FxMarketDiagnostics, FxMarketError, SensitivityMode,
};
use pricer_models::fx_curves::{ExtrapolationPolicy, FxCurveError};
use pricer_models::index_mapper::{DefaultIndexCurveMapper, IndexCurveMapper};
use pricer_models::market_error::{
    ContextError, CurveError, MarketBuildError, MarketDataError, MarketError, SurfaceError,
};
use pricer_models::rate_index::RateIndex;
use pricer_models::result_cache::{CacheStats, CurveKey};

// --- cache keys and statistics -------------------------------------------------

#[test]
fn test_curve_key_new() {
    let key = CurveKey::new(RateIndex::Sofr, 12345, 67890);
    assert_eq!(key.index(), RateIndex::Sofr);
    assert_eq!(key.rates_hash(), 12345);
    assert_eq!(key.config_hash(), 67890);
}

#[test]
fn test_curve_key_equality() {
    let key1 = CurveKey::new(RateIndex::Sofr, 12345, 67890);
    let key2 = CurveKey::new(RateIndex::Sofr, 12345, 67890);
    let key3 = CurveKey::new(RateIndex::Sofr, 12345, 99999);
    assert_eq!(key1, key2);
    assert_ne!(key1, key3);
}

#[test]
fn test_curve_key_clone() {
    let key = CurveKey::new(RateIndex::Sofr, 12345, 67890);
    let cloned = key.clone();
    assert_eq!(key, cloned);
}

#[test]
fn test_curve_key_debug() {
    let debug_str = format!("{:?}", CurveKey::new(RateIndex::Sofr, 12345, 67890));
    assert!(debug_str.contains("CurveKey"));
    assert!(debug_str.contains("12345"));
}

#[test]
fn test_curve_key_as_hash_map_key() {
    let mut map = HashMap::new();
    let key = CurveKey::new(RateIndex::Sofr, 12345, 67890);
    map.insert(key.clone(), "curve1");
    assert_eq!(map.get(&key), Some(&"curve1"));
}

#[test]
fn test_cache_stats_new() {
    let stats = CacheStats::new(10, 5, 8);
    assert_eq!(stats.hits, 10);
    assert_eq!(stats.misses, 5);
    assert_eq!(stats.entries, 8);
}

#[test]
fn test_cache_stats_default() {
    let stats = CacheStats::default();
    assert_eq!(stats.hits, 0);
    assert_eq!(stats.misses, 0);
    assert_eq!(stats.entries, 0);
}

#[test]
fn test_cache_stats_total_lookups() {
    let stats = CacheStats::new(80, 20, 50);
    assert_eq!(stats.total_lookups(), 100);
}

#[test]
fn test_cache_stats_clone() {
    let stats = CacheStats::new(10, 5, 8);
    let cloned = stats.clone();
    assert_eq!(cloned.hits, 10);
    assert_eq!(cloned.misses, 5);
    assert_eq!(cloned.entries, 8);
}

#[test]
fn test_cache_stats_debug() {
    let debug_str = format!("{:?}", CacheStats::new(10, 5, 8));
    assert!(debug_str.contains("CacheStats"));
    assert!(debug_str.contains("hits"));
}

// --- calibration scope -----------------------------------------------------------

#[test]
fn test_calibration_scope() {
    assert_eq!(CalibrationScope::default(), CalibrationScope::Global);
    assert!(CalibrationScope::Global.is_global());
    assert!(!CalibrationScope::TermByTerm.is_global());
    assert!(!CalibrationScope::Piecewise.is_global());
    assert_eq!(CalibrationScope::Global.name(), "Global");
    assert_eq!(CalibrationScope::TermByTerm.name(), "Term-by-Term");
    assert_eq!(CalibrationScope::Piecewise.name(), "Piecewise");
}

// --- market errors -----------------------------------------------------------------

#[test]
fn test_market_build_error_equality() {
    let err1 = MarketBuildError::DuplicateIndexMapping { index: "SOFR".to_string() };
    let err2 = MarketBuildError::DuplicateIndexMapping { index: "SOFR".to_string() };
    let err3 = MarketBuildError::DuplicateIndexMapping { index: "SONIA".to_string() };
    assert_eq!(err1, err2);
    assert_ne!(err1, err3);
}

#[test]
fn test_market_build_error_clone() {
    let err1 = MarketBuildError::InvalidValuationDate { reason: "test".to_string() };
    let err2 = err1.clone();
    assert_eq!(err1, err2);
}

#[test]
fn test_duplicate_index_mapping_display() {
    let display = MarketBuildError::DuplicateIndexMapping { index: "SOFR".to_string() }.to_display_string();
    assert!(display.contains("Duplicate index mapping"));
    assert!(display.contains("SOFR"));
}

#[test]
fn test_index_not_specified_display() {
    let display = MarketBuildError::IndexNotSpecified { context: "No curves registered".to_string() }.to_display_string();
    assert!(display.contains("Index not specified"));
    assert!(display.contains("No curves"));
}

#[test]
fn test_invalid_valuation_date_display() {
    let display = MarketBuildError::InvalidValuationDate { reason: "Date is in the past".to_string() }.to_display_string();
    assert!(display.contains("Invalid valuation date"));
    assert!(display.contains("past"));
}

#[test]
fn test_surface_error_vol_lookup() {
    let display = SurfaceError::vol_lookup("out of strike range").to_display_string();
    assert!(display.contains("volatility lookup failed"));
    assert!(display.contains("out of strike range"));
}

#[test]
fn test_surface_error_calibration() {
    let display = SurfaceError::calibration("optimiser did not converge").to_display_string();
    assert!(display.contains("calibration failed"));
    assert!(display.contains("optimiser"));
}

#[test]
fn test_surface_error_swaption() {
    let display = SurfaceError::swaption("missing ATM quote").to_display_string();
    assert!(display.contains("swaption vol error"));
    assert!(display.contains("ATM"));
}

#[test]
fn test_surface_error_fx_vol() {
    let display = SurfaceError::fx_vol("smile too steep").to_display_string();
    assert!(display.contains("fx vol error"));
    assert!(display.contains("smile"));
}

#[test]
fn test_surface_error_equality() {
    let err1 = SurfaceError::vol_lookup("test");
    let err2 = SurfaceError::vol_lookup("test");
    let err3 = SurfaceError::vol_lookup("other");
    assert_eq!(err1, err2);
    assert_ne!(err1, err3);
}

#[test]
fn test_context_error_not_found() {
    let display = ContextError::not_found("SOFR curve").to_display_string();
    assert!(display.contains("market data not found"));
    assert!(display.contains("SOFR"));
}

#[test]
fn test_context_error_validation() {
    let display = ContextError::validation("negative rate").to_display_string();
    assert!(display.contains("validation failed"));
    assert!(display.contains("negative rate"));
}

#[test]
fn test_context_error_provider() {
    let display = ContextError::provider("timeout").to_display_string();
    assert!(display.contains("provider error"));
    assert!(display.contains("timeout"));
}

#[test]
fn test_context_error_equality() {
    let err1 = ContextError::not_found("SOFR");
    let err2 = ContextError::not_found("SOFR");
    let err3 = ContextError::not_found("SONIA");
    assert_eq!(err1, err2);
    assert_ne!(err1, err3);
}

#[test]
fn test_curve_error_equality() {
    let err1 = CurveError::not_found("SOFR");
    let err2 = CurveError::not_found("SOFR");
    let err3 = CurveError::not_found("SONIA");
    assert_eq!(err1, err2);
    assert_ne!(err1, err3);
}

#[test]
fn test_curve_error_clone() {
    let err1 = CurveError::bootstrap("test");
    let err2 = err1.clone();
    assert_eq!(err1, err2);
}

#[test]
fn test_market_error_from_curve_error() {
    let err: MarketError = CurveError::not_found("SOFR").into();
    assert!(matches!(err, MarketError::Curve(_)));
}

#[test]
fn test_market_error_from_surface_error() {
    let err: MarketError = SurfaceError::vol_lookup("test").into();
    assert!(matches!(err, MarketError::Surface(_)));
}

#[test]
fn test_market_error_from_context_error() {
    let err: MarketError = ContextError::not_found("test").into();
    assert!(matches!(err, MarketError::Context(_)));
}

#[test]
fn test_market_error_matches_variant() {
    let err: MarketError = CurveError::bootstrap("failed").into();
    match err {
        MarketError::Curve(CurveError::Bootstrap(msg)) => assert_eq!(msg, "failed"),
        _ => panic!("Expected Curve(Bootstrap) variant"),
    }
}

#[test]
fn test_market_error_clone() {
    let err: MarketError = SurfaceError::calibration("x").into();
    let cloned = err.clone();
    assert!(matches!(cloned, MarketError::Surface(SurfaceError::Calibration(m)) if m == "x"));
}

#[test]
fn test_index_not_found_equality() {
    let err1 = MarketDataError::IndexNotFound { index: "SOFR".to_string() };
    let err2 = MarketDataError::IndexNotFound { index: "SOFR".to_string() };
    let err3 = MarketDataError::IndexNotFound { index: "EURIBOR3M".to_string() };
    assert_eq!(err1, err2);
    assert_ne!(err1, err3);
}

#[test]
fn test_clone_and_equality() {
    let err1 = MarketDataError::InvalidStrike { strike_bits: 0.0f64.to_bits() };
    let err2 = err1.clone();
    assert_eq!(err1, err2);
}

// --- FX curves and calibration -------------------------------------------------------

#[test]
fn fx_test_extrapolation_policy_default() {
    assert_eq!(ExtrapolationPolicy::default(), ExtrapolationPolicy::Flat);
}

#[test]
fn fx_test_extrapolation_policy_description() {
    assert!(ExtrapolationPolicy::Flat.description().contains("boundary"));
    assert!(ExtrapolationPolicy::Linear.description().contains("slope"));
    assert!(ExtrapolationPolicy::Error.description().contains("error"));
}

#[test]
fn curve_test_extrapolation_policy_default() {
    let policy: pricer_models::fx_calibration::ExtrapolationPolicy = Default::default();
    assert_eq!(policy, ExtrapolationPolicy::Flat);
}

#[test]
fn curve_test_extrapolation_policy_description() {
    assert!(Policy::Flat.description().contains("boundary"));
    assert!(Policy::Linear.description().contains("slope"));
    assert!(Policy::Error.description().contains("error"));
}

#[test]
fn test_fx_market_error_display() {
    let err = FxMarketError::MissingInput { field: "spot_rate".to_string() };
    assert!(err.to_display_string().contains("spot_rate"));
}

#[test]
fn test_error_equality() {
    let err1 = FxCalibrationError::insufficient_data(5, 3);
    let err2 = FxCalibrationError::insufficient_data(5, 3);
    let err3 = FxCalibrationError::insufficient_data(5, 4);
    assert_eq!(err1, err2);
    assert_ne!(err1, err3);
}

#[test]
fn test_error_clone() {
    let err = FxCalibrationError::invalid_quote("test");
    let cloned = err.clone();
    assert_eq!(err, cloned);
}

// --- index to curve mapping ----------------------------------------------------------

#[test]
fn test_sofr_mapping() {
    assert_eq!(DefaultIndexCurveMapper.map_to_curve(RateIndex::Sofr).unwrap(), CurveName::Sofr);
}

#[test]
fn test_tonar_mapping() {
    assert_eq!(DefaultIndexCurveMapper.map_to_curve(RateIndex::Tonar).unwrap(), CurveName::Tonar);
}

#[test]
fn test_sonia_mapping() {
    assert_eq!(DefaultIndexCurveMapper.map_to_curve(RateIndex::Sonia).unwrap(), CurveName::Sonia);
}

#[test]
fn test_saron_mapping() {
    assert_eq!(DefaultIndexCurveMapper.map_to_curve(RateIndex::Saron).unwrap(), CurveName::Saron);
}

#[test]
fn test_estr_mapping() {
    assert_eq!(DefaultIndexCurveMapper.map_to_curve(RateIndex::Estr).unwrap(), CurveName::Estr);
}

#[test]
fn test_euribor_3m_mapping() {
    assert_eq!(DefaultIndexCurveMapper.map_to_curve(RateIndex::Euribor3M).unwrap(), CurveName::Euribor);
}

#[test]
fn test_euribor_6m_mapping() {
    assert_eq!(DefaultIndexCurveMapper.map_to_curve(RateIndex::Euribor6M).unwrap(), CurveName::Euribor);
}

#[test]
fn test_all_rate_indices_covered() {
    let mapper = DefaultIndexCurveMapper;
    let indices = [
        RateIndex::Sofr,
        RateIndex::Tonar,
        RateIndex::Estr,
        RateIndex::Sonia,
        RateIndex::Saron,
        RateIndex::Euribor3M,
        RateIndex::Euribor6M,
    ];
    for index in indices {
        assert!(mapper.map_to_curve(index).is_ok(), "Index {:?} should be mapped", index);
    }
}

// --- own tests ---------------------------------------------------------------------

#[test]
fn error_texts_are_exact() {
    assert_eq!(SurfaceError::vol_lookup("a").to_display_string(), "volatility lookup failed: a");
    assert_eq!(SurfaceError::InvalidStrike("-0.01".to_string()).to_display_string(), "invalid strike: -0.01");
    assert_eq!(ContextError::provider("b").to_display_string(), "provider error: b");
    assert_eq!(
        MarketBuildError::IndexNotSpecified { context: "c".to_string() }.to_display_string(),
        "Index not specified: c"
    );
    assert_eq!(
        FxMarketError::VolSurfaceFailed { reason: "d".to_string() }.to_display_string(),
        "Failed to calibrate vol surface: d"
    );
    assert_eq!(
        FxMarketError::DomesticCurveFailed { reason: "e".to_string() }.to_display_string(),
        "Failed to build domestic curve: e"
    );
}

#[test]
fn error_constructors_keep_their_values() {
    assert_eq!(
        CurveError::interpolation(2.5f64.to_bits(), "x"),
        CurveError::Interpolation { time_bits: 2.5f64.to_bits(), reason: "x".to_string() }
    );
    assert_eq!(CurveError::invalid_config("y"), CurveError::InvalidConfig("y".to_string()));
    assert_eq!(CurveError::fx("z"), CurveError::Fx("z".to_string()));
    assert_eq!(FxCurveError::insufficient_data(3, 1), FxCurveError::InsufficientData { expected: 3, got: 1 });
    assert_eq!(
        FxCurveError::extrapolation_not_allowed(1, 2, 3),
        FxCurveError::ExtrapolationNotAllowed { t_bits: 1, min_bits: 2, max_bits: 3 }
    );
    assert_eq!(
        FxCurveError::bootstrap_failed("m"),
        FxCurveError::BootstrapFailed { message: "m".to_string() }
    );
    assert_eq!(
        FxCalibrationError::unsupported_currency_pair("XXXYYY"),
        FxCalibrationError::UnsupportedCurrencyPair { pair: "XXXYYY".to_string() }
    );
    assert_eq!(
        FxCalibrationError::convergence_failed(7, 0.5f64.to_bits()),
        FxCalibrationError::ConvergenceFailed { iterations: 7, residual_bits: 0.5f64.to_bits() }
    );
}

#[test]
fn defaults_of_small_enums() {
    assert_eq!(Frequency::default(), Frequency::Monthly);
    assert_eq!(BootstrapInterpolation::default(), BootstrapInterpolation::LogLinear);
    assert_eq!(ConfigInterpolation::default(), ConfigInterpolation::LogLinear);
    assert_eq!(SensitivityMode::default(), SensitivityMode::Analytical);
    let d = FxMarketDiagnostics::default();
    assert_eq!((d.domestic_iterations, d.foreign_iterations, d.build_time_ms), (0, 0, 0));
}

#[test]
fn spline_methods_need_coefficients() {
    assert!(BootstrapInterpolation::CubicSplineFwd.requires_spline_coefficients());
    assert!(BootstrapInterpolation::MonotoneConvex.requires_spline_coefficients());
    assert!(BootstrapInterpolation::LogCubicDF.requires_spline_coefficients());
    assert!(BootstrapInterpolation::TensionSpline.requires_spline_coefficients());
    assert!(!BootstrapInterpolation::Linear.requires_spline_coefficients());
    assert!(!BootstrapInterpolation::LogLinear.requires_spline_coefficients());
    assert!(!BootstrapInterpolation::FlatForward.requires_spline_coefficients());
}

#[test]
fn forward_rate_decomposition_holds_its_parts() {
    let d = ForwardRateDecomposition { continuous: 0.03, jump: 0.01, total: 0.04 };
    assert_eq!(d, ForwardRateDecomposition { continuous: 0.03, jump: 0.01, total: 0.04 });
    assert_eq!(RateIndex::Euribor6M.name(), "Euribor6M");
}

#[test]
fn test_sensitivity_config_default() {
    let config = pricer_models::fx_calibration::SensitivityConfig::default();
    assert_eq!(config.mode, SensitivityMode::Analytical);
    assert!((f64::from_bits(config.bump_size_bits) - 0.0001).abs() < 1e-10);
    assert_eq!(f64::from_bits(config.smoothing_epsilon_bits), 1e-6);
}

#[test]
fn test_sensitivity_config_finite_difference() {
    let config = pricer_models::fx_calibration::SensitivityConfig::finite_difference(0.0005f64.to_bits());
    assert_eq!(config.mode, SensitivityMode::FiniteDifference);
    assert!((f64::from_bits(config.bump_size_bits) - 0.0005).abs() < 1e-10);
}

#[test]
fn test_sensitivity_config_ad() {
    let config = pricer_models::fx_calibration::SensitivityConfig::automatic_differentiation(1e-8f64.to_bits());
    assert_eq!(config.mode, SensitivityMode::AutomaticDifferentiation);
    assert!((f64::from_bits(config.smoothing_epsilon_bits) - 1e-8).abs() < 1e-12);
}

#[test]
fn test_computation_graph() {
    let mut graph = pricer_models::fx_calibration::ComputationGraph::new();
    graph.add_input("atm", "ATM Vol", Some(0.10f64.to_bits()));
    graph.add_input("bf", "Butterfly", Some(0.005f64.to_bits()));
    graph.add_output("vol_25d", "Vol at 25Δ", Some(0.105f64.to_bits()));
    graph.add_edge("atm", "vol_25d", Some(1.0f64.to_bits()));
    graph.add_edge("bf", "vol_25d", Some(1.0f64.to_bits()));
    assert_eq!(graph.nodes.len(), 3);
    assert_eq!(graph.edges.len(), 2);
    assert_eq!(graph.nodes[2].id, "vol_25d");
    assert_eq!(graph.nodes[2].node_type, "output");
    assert_eq!(graph.nodes[0].node_type, "input");
    assert_eq!(graph.edges[1].source, "bf");
    graph.add_intermediate("mid", "Middle", None);
    assert_eq!(graph.nodes[3].node_type, "intermediate");
    assert_eq!(graph.nodes[3].value_bits, None);
}

#[test]
fn cache_stats_record_lookup_counts_hits_and_misses() {
    let mut stats = CacheStats::new(2, 5, 3);
    stats.record_lookup(true);
    assert_eq!(stats, CacheStats::new(3, 5, 3));
    stats.record_lookup(false);
    stats.record_lookup(false);
    assert_eq!(stats, CacheStats::new(3, 7, 3));
    assert_eq!(stats.total_lookups(), 10);
}
