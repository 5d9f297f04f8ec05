use pricer_models::adapter::{BootstrapInstrument, InstrumentAdapter};
use pricer_models::convention::{PaymentFrequency, SwapConvention};
use pricer_models::curves::Frequency;
use pricer_models::definition::{CurveDefinition, CurveInstrumentType, InstrumentSpec, InstrumentTenor};
use pricer_models::engine_error::CurveEngineError;
use pricer_models::rate_index::RateIndex;

fn sofr_definition(specs: &[InstrumentSpec]) -> CurveDefinition {
    CurveDefinition::new("USD-SOFR", RateIndex::Sofr, SwapConvention::usd_sofr()).with_instruments_iter(specs.to_vec())
}

#[test]
fn test_create_ois_basic() {
    let convention = SwapConvention::usd_sofr();
    let result = InstrumentAdapter::create_ois(InstrumentTenor::FiveYears, 0.03_f64, &convention);
    assert!(result.is_ok());
    let instrument = result.unwrap();
    assert!(instrument.is_ois());
    assert_eq!(instrument.tenor(), InstrumentTenor::FiveYears);
    assert_eq!(instrument.rate(), 0.03);
}

#[test]
fn test_create_ois_applies_convention_frequency() {
    let convention = SwapConvention::usd_sofr();
    let instrument = InstrumentAdapter::create_ois(InstrumentTenor::TwoYears, 0.025_f64, &convention).unwrap();
    assert!(instrument.is_ois());
    if let BootstrapInstrument::Ois { payment_frequency, .. } = instrument {
        assert_eq!(payment_frequency, Frequency::Annual);
    } else {
        panic!("Expected OIS variant");
    }
}

#[test]
fn test_create_ois_semiannual_frequency() {
    let convention = SwapConvention::eur_euribor_6m();
    let instrument = InstrumentAdapter::create_ois(InstrumentTenor::FiveYears, 0.02_f64, &convention).unwrap();
    if let BootstrapInstrument::Ois { payment_frequency, .. } = instrument {
        assert_eq!(payment_frequency, Frequency::Annual);
    }
}

#[test]
fn test_create_irs_basic() {
    let convention = SwapConvention::usd_sofr();
    let result = InstrumentAdapter::create_irs(InstrumentTenor::TenYears, 0.04_f64, &convention);
    assert!(result.is_ok());
    let instrument = result.unwrap();
    assert!(instrument.is_irs());
    assert_eq!(instrument.tenor(), InstrumentTenor::TenYears);
    assert_eq!(instrument.rate(), 0.04);
}

#[test]
fn test_create_irs_applies_convention_frequencies() {
    let convention = SwapConvention::eur_euribor_6m();
    let instrument = InstrumentAdapter::create_irs(InstrumentTenor::FiveYears, 0.02_f64, &convention).unwrap();
    if let BootstrapInstrument::Irs { fixed_frequency, float_frequency, .. } = instrument {
        assert_eq!(fixed_frequency, Frequency::Annual);
        assert_eq!(float_frequency, Frequency::SemiAnnual);
    } else {
        panic!("Expected IRS variant");
    }
}

#[test]
fn test_create_fra_basic() {
    let spec = InstrumentSpec::fra(InstrumentTenor::ThreeMonths);
    let result = InstrumentAdapter::create_fra::<f64>(&spec, 0.025);
    assert!(result.is_ok());
    let instrument = result.unwrap();
    assert!(instrument.is_fra());
    assert_eq!(instrument.tenor(), InstrumentTenor::ThreeMonths);
    assert_eq!(instrument.rate(), 0.025);
}

#[test]
fn test_create_future_basic() {
    let spec = InstrumentSpec::future(InstrumentTenor::ThreeMonths, 0.0001f64.to_bits());
    let result = InstrumentAdapter::create_future::<f64>(&spec, 97.5);
    assert!(result.is_ok());
    let instrument = result.unwrap();
    assert!(instrument.is_future());
    assert_eq!(instrument.tenor(), InstrumentTenor::ThreeMonths);
}

#[test]
fn test_create_future_with_convexity_adjustment() {
    let spec = InstrumentSpec::future(InstrumentTenor::SixMonths, 0.0005f64.to_bits());
    let instrument = InstrumentAdapter::create_future(&spec, 97.0_f64).unwrap();
    if let BootstrapInstrument::Future { convexity_adjustment, .. } = instrument {
        assert_eq!(f64::from_bits(convexity_adjustment), 0.0005);
    } else {
        panic!("Expected Future variant");
    }
}

#[test]
fn test_create_future_no_convexity() {
    let spec = InstrumentSpec::new(CurveInstrumentType::Future, InstrumentTenor::ThreeMonths);
    let instrument = InstrumentAdapter::create_future(&spec, 97.5_f64).unwrap();
    if let BootstrapInstrument::Future { convexity_adjustment, .. } = instrument {
        assert_eq!(f64::from_bits(convexity_adjustment), 0.0);
    }
}

#[test]
fn test_convert_basic() {
    let definition = sofr_definition(&[
        InstrumentSpec::ois(InstrumentTenor::OneYear),
        InstrumentSpec::ois(InstrumentTenor::TwoYears),
        InstrumentSpec::ois(InstrumentTenor::FiveYears),
    ]);
    let rates = [
        (InstrumentTenor::OneYear, 0.035_f64),
        (InstrumentTenor::TwoYears, 0.037),
        (InstrumentTenor::FiveYears, 0.040),
    ];
    let result = InstrumentAdapter::convert(&definition, &rates);
    assert!(result.is_ok());
    let instruments = result.unwrap();
    assert_eq!(instruments.len(), 3);
    assert_eq!(instruments[0].tenor(), InstrumentTenor::OneYear);
    assert_eq!(instruments[1].tenor(), InstrumentTenor::TwoYears);
    assert_eq!(instruments[2].tenor(), InstrumentTenor::FiveYears);
    assert_eq!(instruments[0].rate(), 0.035);
    assert_eq!(instruments[1].rate(), 0.037);
    assert_eq!(instruments[2].rate(), 0.040);
}

#[test]
fn test_convert_unsorted_input() {
    let definition = sofr_definition(&[
        InstrumentSpec::ois(InstrumentTenor::FiveYears),
        InstrumentSpec::ois(InstrumentTenor::OneYear),
        InstrumentSpec::ois(InstrumentTenor::TwoYears),
    ]);
    let rates = [
        (InstrumentTenor::FiveYears, 0.040_f64),
        (InstrumentTenor::OneYear, 0.035),
        (InstrumentTenor::TwoYears, 0.037),
    ];
    let instruments = InstrumentAdapter::convert(&definition, &rates).unwrap();
    assert_eq!(instruments[0].tenor(), InstrumentTenor::OneYear);
    assert_eq!(instruments[1].tenor(), InstrumentTenor::TwoYears);
    assert_eq!(instruments[2].tenor(), InstrumentTenor::FiveYears);
    assert_eq!(instruments[0].rate(), 0.035);
    assert_eq!(instruments[1].rate(), 0.037);
    assert_eq!(instruments[2].rate(), 0.040);
}

#[test]
fn test_convert_mismatched_rates_count() {
    let definition = sofr_definition(&[
        InstrumentSpec::ois(InstrumentTenor::OneYear),
        InstrumentSpec::ois(InstrumentTenor::TwoYears),
    ]);
    let rates = [(InstrumentTenor::OneYear, 0.035_f64)];
    assert!(InstrumentAdapter::convert(&definition, &rates).is_err());
}

#[test]
fn test_convert_mismatched_tenors() {
    let definition = sofr_definition(&[
        InstrumentSpec::ois(InstrumentTenor::OneYear),
        InstrumentSpec::ois(InstrumentTenor::TwoYears),
    ]);
    let rates = [(InstrumentTenor::OneYear, 0.035_f64), (InstrumentTenor::ThreeYears, 0.038)];
    assert!(InstrumentAdapter::convert(&definition, &rates).is_err());
}

#[test]
fn test_convert_mixed_instruments() {
    let definition = sofr_definition(&[
        InstrumentSpec::deposit(InstrumentTenor::OneMonth),
        InstrumentSpec::ois(InstrumentTenor::OneYear),
        InstrumentSpec::irs(InstrumentTenor::FiveYears),
    ]);
    let rates = [
        (InstrumentTenor::OneMonth, 0.030_f64),
        (InstrumentTenor::OneYear, 0.035),
        (InstrumentTenor::FiveYears, 0.040),
    ];
    let instruments = InstrumentAdapter::convert(&definition, &rates).unwrap();
    assert_eq!(instruments.len(), 3);
    assert!(instruments[0].is_ois());
    assert!(instruments[1].is_ois());
    assert!(instruments[2].is_irs());
}

#[test]
fn test_convert_frequency_annual() {
    assert_eq!(InstrumentAdapter::convert_frequency(PaymentFrequency::Annual).unwrap(), Frequency::Annual);
}

#[test]
fn test_convert_frequency_semiannual() {
    assert_eq!(InstrumentAdapter::convert_frequency(PaymentFrequency::SemiAnnual).unwrap(), Frequency::SemiAnnual);
}

#[test]
fn test_convert_frequency_quarterly() {
    assert_eq!(InstrumentAdapter::convert_frequency(PaymentFrequency::Quarterly).unwrap(), Frequency::Quarterly);
}

#[test]
fn test_convert_frequency_monthly() {
    assert_eq!(InstrumentAdapter::convert_frequency(PaymentFrequency::Monthly).unwrap(), Frequency::Monthly);
}

#[test]
fn test_convert_frequency_daily() {
    assert_eq!(InstrumentAdapter::convert_frequency(PaymentFrequency::Daily).unwrap(), Frequency::Daily);
}

#[test]
fn test_convert_frequency_weekly_unsupported() {
    assert!(InstrumentAdapter::convert_frequency(PaymentFrequency::Weekly).is_err());
}

#[test]
fn test_convert_with_f32() {
    let definition = sofr_definition(&[InstrumentSpec::ois(InstrumentTenor::OneYear)]);
    let rates = [(InstrumentTenor::OneYear, 0.035_f32)];
    let result = InstrumentAdapter::convert::<f32>(&definition, &rates);
    assert!(result.is_ok());
    let instruments = result.unwrap();
    assert_eq!(instruments.len(), 1);
    assert_eq!(instruments[0].rate(), 0.035_f32);
}

#[test]
fn test_convert_default_sofr_definition() {
    let definition = CurveDefinition::default_usd_sofr();
    let rates: Vec<(InstrumentTenor, f64)> = definition
        .instruments()
        .iter()
        .enumerate()
        .map(|(i, spec)| (spec.tenor(), 0.03 + 0.001 * i as f64))
        .collect();
    let instruments = InstrumentAdapter::convert(&definition, &rates).unwrap();
    assert_eq!(instruments.len(), 12);
    for w in instruments.windows(2) {
        assert!(w[0].tenor() < w[1].tenor());
    }
    assert!(instruments.iter().all(|i| i.is_ois()));
}

// --- own tests ---------------------------------------------------------------

#[test]
fn rate_count_error_message() {
    let definition = sofr_definition(&[
        InstrumentSpec::ois(InstrumentTenor::OneYear),
        InstrumentSpec::ois(InstrumentTenor::TwoYears),
    ]);
    match InstrumentAdapter::convert(&definition, &[(InstrumentTenor::OneYear, 0.035_f64)]) {
        Err(CurveEngineError::Instrument { tenor, reason }) => {
            assert_eq!(tenor, "rates");
            assert_eq!(reason, "Expected 2 rates for USD-SOFR instruments, got 1");
        }
        _ => panic!("expected an instrument error"),
    }
}

#[test]
fn tenor_mismatch_error_message() {
    let definition = sofr_definition(&[
        InstrumentSpec::ois(InstrumentTenor::OneYear),
        InstrumentSpec::ois(InstrumentTenor::TwoYears),
    ]);
    let rates = [(InstrumentTenor::OneYear, 0.035_f64), (InstrumentTenor::ThreeYears, 0.038)];
    match InstrumentAdapter::convert(&definition, &rates) {
        Err(CurveEngineError::Instrument { tenor, reason }) => {
            assert_eq!(tenor, "2Y");
            assert_eq!(reason, "Rate tenor 3Y doesn't match instrument tenor 2Y");
        }
        _ => panic!("expected an instrument error"),
    }
}

fn weekly_convention() -> SwapConvention {
    let mut c = SwapConvention::usd_sofr();
    c.float_leg.payment_frequency = PaymentFrequency::Weekly;
    c
}

#[test]
fn weekly_legs_refuse_swaps_only_where_needed() {
    let convention = weekly_convention();
    // The fixed leg is annual: an OIS converts, an IRS needs the weekly floating leg.
    assert!(InstrumentAdapter::create_ois(InstrumentTenor::OneYear, 0.03_f64, &convention).is_ok());
    match InstrumentAdapter::create_irs(InstrumentTenor::OneYear, 0.03_f64, &convention) {
        Err(CurveEngineError::Configuration { field, reason }) => {
            assert_eq!(field, "frequency");
            assert_eq!(reason, "Weekly frequency is not supported for bootstrap instruments");
        }
        _ => panic!("expected a configuration error"),
    }
    let definition = CurveDefinition::new("K", RateIndex::Sofr, convention)
        .with_instrument(InstrumentSpec::ois(InstrumentTenor::OneYear))
        .with_instrument(InstrumentSpec::irs(InstrumentTenor::FiveYears));
    let rates = [(InstrumentTenor::OneYear, 0.03_f64), (InstrumentTenor::FiveYears, 0.04)];
    assert!(matches!(
        InstrumentAdapter::convert(&definition, &rates),
        Err(CurveEngineError::Configuration { field: "frequency", .. })
    ));
}

#[test]
fn tenor_mismatch_is_reported_before_frequency_errors() {
    let definition = CurveDefinition::new("K", RateIndex::Sofr, weekly_convention())
        .with_instrument(InstrumentSpec::irs(InstrumentTenor::OneYear));
    let rates = [(InstrumentTenor::TwoYears, 0.03_f64)];
    assert!(matches!(InstrumentAdapter::convert(&definition, &rates), Err(CurveEngineError::Instrument { .. })));
}

#[test]
fn conversion_of_each_instrument_type() {
    let definition = sofr_definition(&[
        InstrumentSpec::future(InstrumentTenor::SixMonths, 0.0002f64.to_bits()),
        InstrumentSpec::fra(InstrumentTenor::ThreeMonths),
        InstrumentSpec::deposit(InstrumentTenor::OneWeek),
    ]);
    let rates = [
        (InstrumentTenor::SixMonths, 97.25_f64),
        (InstrumentTenor::ThreeMonths, 0.031),
        (InstrumentTenor::OneWeek, 0.029),
    ];
    let instruments = InstrumentAdapter::convert(&definition, &rates).unwrap();
    assert_eq!(
        instruments,
        vec![
            BootstrapInstrument::Ois { tenor: InstrumentTenor::OneWeek, rate: 0.029, payment_frequency: Frequency::Annual },
            BootstrapInstrument::Fra { tenor: InstrumentTenor::ThreeMonths, rate: 0.031 },
            BootstrapInstrument::Future {
                tenor: InstrumentTenor::SixMonths,
                price: 97.25,
                convexity_adjustment: 0.0002f64.to_bits(),
            },
        ]
    );
}

#[test]
fn rates_for_equal_tenors_pair_up_in_order() {
    let definition = sofr_definition(&[
        InstrumentSpec::irs(InstrumentTenor::FiveYears),
        InstrumentSpec::ois(InstrumentTenor::FiveYears),
    ]);
    let rates = [(InstrumentTenor::FiveYears, 0.041_f64), (InstrumentTenor::FiveYears, 0.039)];
    let instruments = InstrumentAdapter::convert(&definition, &rates).unwrap();
    assert!(instruments[0].is_irs());
    assert_eq!(instruments[0].rate(), 0.041);
    assert!(instruments[1].is_ois());
    assert_eq!(instruments[1].rate(), 0.039);
}
