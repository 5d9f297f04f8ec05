use std::collections::HashSet;
use pricer_models::convention::SwapConvention;
use pricer_models::definition::{CurveDefinition, CurveInstrumentType, InstrumentSpec, InstrumentTenor};
use pricer_models::engine_error::CurveEngineError;
use pricer_models::rate_index::RateIndex;

fn bits(x: f64) -> u64 {
    x.to_bits()
}

#[test]
fn test_instrument_type_code() {
    assert_eq!(CurveInstrumentType::Ois.code(), "OIS");
    assert_eq!(CurveInstrumentType::Irs.code(), "IRS");
    assert_eq!(CurveInstrumentType::Fra.code(), "FRA");
    assert_eq!(CurveInstrumentType::Future.code(), "FUT");
    assert_eq!(CurveInstrumentType::Deposit.code(), "DEP");
}

#[test]
fn test_instrument_type_description() {
    assert_eq!(CurveInstrumentType::Ois.description(), "Overnight Index Swap");
    assert_eq!(CurveInstrumentType::Irs.description(), "Interest Rate Swap");
}

#[test]
fn test_instrument_type_default() {
    let default: CurveInstrumentType = Default::default();
    assert_eq!(default, CurveInstrumentType::Ois);
}

#[test]
fn test_instrument_type_display() {
    assert_eq!(CurveInstrumentType::Ois.to_display_string(), "OIS");
    assert_eq!(CurveInstrumentType::Future.to_display_string(), "FUT");
}

#[test]
fn test_instrument_type_from_str() {
    assert_eq!("OIS".parse::<CurveInstrumentType>().unwrap(), CurveInstrumentType::Ois);
    assert_eq!("irs".parse::<CurveInstrumentType>().unwrap(), CurveInstrumentType::Irs);
    assert_eq!("SWAP".parse::<CurveInstrumentType>().unwrap(), CurveInstrumentType::Irs);
    assert_eq!("FUT".parse::<CurveInstrumentType>().unwrap(), CurveInstrumentType::Future);
    assert_eq!("FUTURE".parse::<CurveInstrumentType>().unwrap(), CurveInstrumentType::Future);
    assert_eq!("DEP".parse::<CurveInstrumentType>().unwrap(), CurveInstrumentType::Deposit);
    assert_eq!("MM".parse::<CurveInstrumentType>().unwrap(), CurveInstrumentType::Deposit);
}

#[test]
fn test_instrument_type_from_str_invalid() {
    assert!("INVALID".parse::<CurveInstrumentType>().is_err());
}

#[test]
fn test_instrument_type_all() {
    let all = CurveInstrumentType::all();
    assert_eq!(all.len(), 5);
    assert!(all.contains(&CurveInstrumentType::Ois));
    assert!(all.contains(&CurveInstrumentType::Deposit));
}

#[test]
fn test_instrument_type_clone_copy() {
    let t1 = CurveInstrumentType::Ois;
    let t2 = t1;
    let t3 = t1.clone();
    assert_eq!(t1, t2);
    assert_eq!(t1, t3);
}

#[test]
fn test_instrument_type_hash() {
    let mut set = HashSet::new();
    set.insert(CurveInstrumentType::Ois);
    set.insert(CurveInstrumentType::Irs);
    set.insert(CurveInstrumentType::Ois);
    assert_eq!(set.len(), 2);
}

#[test]
fn test_tenor_code() {
    assert_eq!(InstrumentTenor::Overnight.code(), "ON");
    assert_eq!(InstrumentTenor::OneWeek.code(), "1W");
    assert_eq!(InstrumentTenor::ThreeMonths.code(), "3M");
    assert_eq!(InstrumentTenor::OneYear.code(), "1Y");
    assert_eq!(InstrumentTenor::TenYears.code(), "10Y");
    assert_eq!(InstrumentTenor::FiftyYears.code(), "50Y");
}

#[test]
fn test_tenor_to_months() {
    assert_eq!(InstrumentTenor::Overnight.to_months(), 0);
    assert_eq!(InstrumentTenor::OneMonth.to_months(), 1);
    assert_eq!(InstrumentTenor::ThreeMonths.to_months(), 3);
    assert_eq!(InstrumentTenor::OneYear.to_months(), 12);
    assert_eq!(InstrumentTenor::FiveYears.to_months(), 60);
    assert_eq!(InstrumentTenor::FiftyYears.to_months(), 600);
}

#[test]
fn definition_test_tenor_default() {
    let default: InstrumentTenor = Default::default();
    assert_eq!(default, InstrumentTenor::OneYear);
}

#[test]
fn definition_test_tenor_display() {
    assert_eq!(InstrumentTenor::ThreeMonths.to_display_string(), "3M");
    assert_eq!(InstrumentTenor::TenYears.to_display_string(), "10Y");
}

#[test]
fn test_tenor_from_str() {
    assert_eq!("ON".parse::<InstrumentTenor>().unwrap(), InstrumentTenor::Overnight);
    assert_eq!("3M".parse::<InstrumentTenor>().unwrap(), InstrumentTenor::ThreeMonths);
    assert_eq!("1Y".parse::<InstrumentTenor>().unwrap(), InstrumentTenor::OneYear);
    assert_eq!("12M".parse::<InstrumentTenor>().unwrap(), InstrumentTenor::OneYear);
    assert_eq!("10Y".parse::<InstrumentTenor>().unwrap(), InstrumentTenor::TenYears);
    assert_eq!("50Y".parse::<InstrumentTenor>().unwrap(), InstrumentTenor::FiftyYears);
}

#[test]
fn test_tenor_from_str_invalid() {
    assert!("100Y".parse::<InstrumentTenor>().is_err());
    assert!("INVALID".parse::<InstrumentTenor>().is_err());
}

#[test]
fn test_tenor_ordering() {
    assert!(InstrumentTenor::Overnight < InstrumentTenor::OneMonth);
    assert!(InstrumentTenor::OneMonth < InstrumentTenor::OneYear);
    assert!(InstrumentTenor::OneYear < InstrumentTenor::TenYears);
    assert!(InstrumentTenor::TenYears < InstrumentTenor::FiftyYears);
}

#[test]
fn test_tenor_all() {
    let all = InstrumentTenor::all();
    assert_eq!(all.len(), 26);
    assert_eq!(all[0], InstrumentTenor::Overnight);
    assert_eq!(all[all.len() - 1], InstrumentTenor::FiftyYears);
    for i in 1..all.len() {
        assert!(all[i - 1] < all[i], "Tenors should be in ascending order");
    }
}

#[test]
fn test_standard_ois_tenors() {
    let tenors = InstrumentTenor::standard_ois_tenors();
    assert!(!tenors.is_empty());
    assert!(tenors.contains(&InstrumentTenor::OneYear));
    assert!(tenors.contains(&InstrumentTenor::TenYears));
    assert!(tenors.contains(&InstrumentTenor::ThirtyYears));
}

#[test]
fn definition_test_tenor_hash() {
    let mut set = HashSet::new();
    set.insert(InstrumentTenor::OneYear);
    set.insert(InstrumentTenor::FiveYears);
    set.insert(InstrumentTenor::OneYear);
    assert_eq!(set.len(), 2);
}

#[test]
fn test_spec_new() {
    let spec = InstrumentSpec::new(CurveInstrumentType::Ois, InstrumentTenor::FiveYears);
    assert_eq!(spec.instrument_type(), CurveInstrumentType::Ois);
    assert_eq!(spec.tenor(), InstrumentTenor::FiveYears);
    assert!(spec.convexity_adjustment().is_none());
}

#[test]
fn test_spec_ois() {
    let spec = InstrumentSpec::ois(InstrumentTenor::TenYears);
    assert_eq!(spec.instrument_type(), CurveInstrumentType::Ois);
    assert_eq!(spec.tenor(), InstrumentTenor::TenYears);
}

#[test]
fn test_spec_irs() {
    assert_eq!(InstrumentSpec::irs(InstrumentTenor::FiveYears).instrument_type(), CurveInstrumentType::Irs);
}

#[test]
fn test_spec_fra() {
    assert_eq!(InstrumentSpec::fra(InstrumentTenor::ThreeMonths).instrument_type(), CurveInstrumentType::Fra);
}

#[test]
fn test_spec_deposit() {
    assert_eq!(InstrumentSpec::deposit(InstrumentTenor::OneMonth).instrument_type(), CurveInstrumentType::Deposit);
}

#[test]
fn test_spec_future() {
    let spec = InstrumentSpec::future(InstrumentTenor::ThreeMonths, bits(0.0001));
    assert_eq!(spec.instrument_type(), CurveInstrumentType::Future);
    assert_eq!(spec.convexity_adjustment(), Some(bits(0.0001)));
}

#[test]
fn test_spec_with_convexity_adjustment() {
    let spec = InstrumentSpec::new(CurveInstrumentType::Future, InstrumentTenor::SixMonths)
        .with_convexity_adjustment(bits(0.0002));
    assert_eq!(spec.convexity_adjustment(), Some(bits(0.0002)));
}

#[test]
fn test_spec_validate_valid_ois() {
    assert!(InstrumentSpec::ois(InstrumentTenor::TenYears).validate().is_ok());
}

#[test]
fn test_spec_validate_valid_future() {
    assert!(InstrumentSpec::future(InstrumentTenor::ThreeMonths, bits(0.0001)).validate().is_ok());
}

#[test]
fn test_spec_validate_convexity_on_non_future() {
    let spec = InstrumentSpec::ois(InstrumentTenor::OneYear).with_convexity_adjustment(bits(0.0001));
    let result = spec.validate();
    assert!(result.is_err());
    assert!(result.unwrap_err().contains("Convexity adjustment"));
}

#[test]
fn test_spec_validate_future_long_tenor() {
    let result = InstrumentSpec::future(InstrumentTenor::FiveYears, bits(0.0001)).validate();
    assert!(result.is_err());
    assert!(result.unwrap_err().contains("unusually long"));
}

#[test]
fn test_spec_validate_deposit_long_tenor() {
    let result = InstrumentSpec::deposit(InstrumentTenor::TwoYears).validate();
    assert!(result.is_err());
    assert!(result.unwrap_err().contains("unusually long"));
}

#[test]
fn test_spec_clone() {
    let spec1 = InstrumentSpec::ois(InstrumentTenor::TenYears);
    let spec2 = spec1.clone();
    assert_eq!(spec1, spec2);
}

#[test]
fn test_spec_equality() {
    let spec1 = InstrumentSpec::ois(InstrumentTenor::FiveYears);
    let spec2 = InstrumentSpec::ois(InstrumentTenor::FiveYears);
    let spec3 = InstrumentSpec::ois(InstrumentTenor::TenYears);
    assert_eq!(spec1, spec2);
    assert_ne!(spec1, spec3);
}

#[test]
fn test_spec_debug() {
    let debug_str = format!("{:?}", InstrumentSpec::ois(InstrumentTenor::FiveYears));
    assert!(debug_str.contains("InstrumentSpec"));
    assert!(debug_str.contains("Ois"));
    assert!(debug_str.contains("FiveYears"));
}

#[test]
fn test_curve_definition_require_default_for_index_known() {
    let def = CurveDefinition::require_default_for_index(RateIndex::Sofr);
    assert!(def.is_ok());
    assert_eq!(def.unwrap().rate_index(), RateIndex::Sofr);
}

#[test]
fn test_curve_definition_require_default_for_index_unknown() {
    let result = CurveDefinition::require_default_for_index(RateIndex::Sonia);
    assert!(result.is_err());
}

#[test]
fn test_curve_definition_new() {
    let def = CurveDefinition::new("USD-SOFR", RateIndex::Sofr, SwapConvention::usd_sofr());
    assert_eq!(def.index_key(), "USD-SOFR");
    assert_eq!(def.rate_index(), RateIndex::Sofr);
    assert!(def.instruments().is_empty());
    assert!(def.is_empty());
    assert_eq!(def.len(), 0);
}

#[test]
fn test_curve_definition_with_instrument() {
    let def = CurveDefinition::new("USD-SOFR", RateIndex::Sofr, SwapConvention::usd_sofr())
        .with_instrument(InstrumentSpec::ois(InstrumentTenor::OneYear))
        .with_instrument(InstrumentSpec::ois(InstrumentTenor::FiveYears));
    assert_eq!(def.len(), 2);
    assert!(!def.is_empty());
    assert_eq!(def.instruments()[0].tenor(), InstrumentTenor::OneYear);
    assert_eq!(def.instruments()[1].tenor(), InstrumentTenor::FiveYears);
}

#[test]
fn test_curve_definition_with_instruments() {
    let instruments = vec![
        InstrumentSpec::ois(InstrumentTenor::OneYear),
        InstrumentSpec::ois(InstrumentTenor::TwoYears),
        InstrumentSpec::ois(InstrumentTenor::ThreeYears),
    ];
    let def = CurveDefinition::with_instruments("USD-SOFR", RateIndex::Sofr, SwapConvention::usd_sofr(), instruments);
    assert_eq!(def.len(), 3);
}

#[test]
fn test_curve_definition_with_instruments_iter() {
    let def = CurveDefinition::new("USD-SOFR", RateIndex::Sofr, SwapConvention::usd_sofr())
        .with_instruments_iter(vec![
            InstrumentSpec::ois(InstrumentTenor::OneYear),
            InstrumentSpec::ois(InstrumentTenor::FiveYears),
        ]);
    assert_eq!(def.len(), 2);
}

#[test]
fn test_curve_definition_sorted_instruments() {
    let def = CurveDefinition::new("USD-SOFR", RateIndex::Sofr, SwapConvention::usd_sofr())
        .with_instrument(InstrumentSpec::ois(InstrumentTenor::TenYears))
        .with_instrument(InstrumentSpec::ois(InstrumentTenor::OneYear))
        .with_instrument(InstrumentSpec::ois(InstrumentTenor::FiveYears))
        .with_instrument(InstrumentSpec::ois(InstrumentTenor::TwoYears));
    let sorted = def.sorted_instruments();
    assert_eq!(sorted[0].tenor(), InstrumentTenor::OneYear);
    assert_eq!(sorted[1].tenor(), InstrumentTenor::TwoYears);
    assert_eq!(sorted[2].tenor(), InstrumentTenor::FiveYears);
    assert_eq!(sorted[3].tenor(), InstrumentTenor::TenYears);
}

#[test]
fn test_curve_definition_sorted_instruments_owned() {
    let def = CurveDefinition::new("USD-SOFR", RateIndex::Sofr, SwapConvention::usd_sofr())
        .with_instrument(InstrumentSpec::ois(InstrumentTenor::ThirtyYears))
        .with_instrument(InstrumentSpec::ois(InstrumentTenor::ThreeMonths));
    let sorted = def.sorted_instruments_owned();
    assert_eq!(sorted[0].tenor(), InstrumentTenor::ThreeMonths);
    assert_eq!(sorted[1].tenor(), InstrumentTenor::ThirtyYears);
}

#[test]
fn test_curve_definition_validate_empty() {
    let def = CurveDefinition::new("USD-SOFR", RateIndex::Sofr, SwapConvention::usd_sofr());
    let result = def.validate();
    assert!(result.is_err());
    assert!(result.unwrap_err().contains("at least one instrument"));
}

#[test]
fn test_curve_definition_validate_valid() {
    let def = CurveDefinition::new("USD-SOFR", RateIndex::Sofr, SwapConvention::usd_sofr())
        .with_instrument(InstrumentSpec::ois(InstrumentTenor::OneYear));
    assert!(def.validate().is_ok());
}

#[test]
fn test_curve_definition_validate_invalid_instrument() {
    let def = CurveDefinition::new("USD-SOFR", RateIndex::Sofr, SwapConvention::usd_sofr())
        .with_instrument(InstrumentSpec::ois(InstrumentTenor::OneYear).with_convexity_adjustment(bits(0.1)));
    let result = def.validate();
    assert!(result.is_err());
    assert!(result.unwrap_err().contains("validation failed"));
}

#[test]
fn test_curve_definition_default_usd_sofr() {
    let def = CurveDefinition::default_usd_sofr();
    assert_eq!(def.index_key(), "USD-SOFR");
    assert_eq!(def.rate_index(), RateIndex::Sofr);
    assert_eq!(def.len(), 12);
    assert!(def.validate().is_ok());
    let sorted = def.sorted_instruments();
    for i in 1..sorted.len() {
        assert!(sorted[i - 1].tenor() < sorted[i].tenor(), "Default instruments should be in sorted order");
    }
}

#[test]
fn test_curve_definition_default_for_index_sofr() {
    let def = CurveDefinition::default_for_index(RateIndex::Sofr);
    assert!(def.is_some());
    assert_eq!(def.unwrap().rate_index(), RateIndex::Sofr);
}

#[test]
fn test_curve_definition_default_for_index_unknown() {
    assert!(CurveDefinition::default_for_index(RateIndex::Sonia).is_none());
}

#[test]
fn test_curve_definition_display() {
    let def = CurveDefinition::new("USD-SOFR", RateIndex::Sofr, SwapConvention::usd_sofr())
        .with_instrument(InstrumentSpec::ois(InstrumentTenor::OneYear))
        .with_instrument(InstrumentSpec::ois(InstrumentTenor::FiveYears));
    let display = def.to_display_string();
    assert!(display.contains("USD-SOFR"));
    assert!(display.contains("2 instruments"));
}

#[test]
fn test_curve_definition_clone() {
    let def1 = CurveDefinition::default_usd_sofr();
    let def2 = def1.clone();
    assert_eq!(def1.index_key(), def2.index_key());
    assert_eq!(def1.rate_index(), def2.rate_index());
    assert_eq!(def1.len(), def2.len());
}

#[test]
fn test_curve_definition_convention() {
    let convention = SwapConvention::usd_sofr();
    let def = CurveDefinition::new("USD-SOFR", RateIndex::Sofr, convention.clone());
    assert_eq!(def.convention().float_index, RateIndex::Sofr);
    assert_eq!(def.convention().spot_lag, 2);
}

#[test]
fn test_curve_definition_debug() {
    let debug_str = format!("{:?}", CurveDefinition::default_usd_sofr());
    assert!(debug_str.contains("CurveDefinition"));
    assert!(debug_str.contains("USD-SOFR"));
}

// --- own tests ---------------------------------------------------------------

#[test]
fn every_tenor_code_parses_back() {
    for t in InstrumentTenor::all() {
        assert_eq!(t.code().parse::<InstrumentTenor>().unwrap(), *t);
        assert_eq!(t.code().to_lowercase().parse::<InstrumentTenor>().unwrap(), *t);
    }
    for t in CurveInstrumentType::all() {
        assert_eq!(t.code().parse::<CurveInstrumentType>().unwrap(), *t);
    }
}

#[test]
fn tenor_parse_aliases_and_error_messages() {
    assert_eq!("O/N".parse::<InstrumentTenor>().unwrap(), InstrumentTenor::Overnight);
    assert_eq!("overnight".parse::<InstrumentTenor>().unwrap(), InstrumentTenor::Overnight);
    assert_eq!("600m".parse::<InstrumentTenor>().unwrap(), InstrumentTenor::FiftyYears);
    assert_eq!("100Y".parse::<InstrumentTenor>().unwrap_err(), "Unknown tenor: 100Y");
    assert_eq!("futures".parse::<CurveInstrumentType>().unwrap(), CurveInstrumentType::Future);
    assert_eq!("xyz".parse::<CurveInstrumentType>().unwrap_err(), "Unknown instrument type: xyz");
}

#[test]
fn tenor_rank_and_months_ascend() {
    let all = InstrumentTenor::all();
    for (i, t) in all.iter().enumerate() {
        assert_eq!(t.rank() as usize, i);
        if i > 0 {
            assert!(all[i - 1].to_months() <= t.to_months());
        }
    }
    assert_eq!(InstrumentTenor::standard_ois_tenors().len(), 13);
}

#[test]
fn validation_messages_are_exact() {
    let spec = InstrumentSpec::irs(InstrumentTenor::OneYear).with_convexity_adjustment(bits(0.1));
    assert_eq!(spec.validate().unwrap_err(), "Convexity adjustment is only valid for futures, not Irs");
    assert_eq!(
        InstrumentSpec::future(InstrumentTenor::FiveYears, 0).validate().unwrap_err(),
        "Future tenor 5Y is unusually long (typically <= 3Y)"
    );
    assert!(InstrumentSpec::future(InstrumentTenor::ThreeYears, 0).validate().is_ok());
    assert_eq!(
        InstrumentSpec::deposit(InstrumentTenor::TwoYears).validate().unwrap_err(),
        "Deposit tenor 2Y is unusually long (typically <= 1Y)"
    );
    assert!(InstrumentSpec::deposit(InstrumentTenor::OneYear).validate().is_ok());
    let def = CurveDefinition::new("K", RateIndex::Sofr, SwapConvention::usd_sofr())
        .with_instrument(InstrumentSpec::ois(InstrumentTenor::OneYear))
        .with_instrument(InstrumentSpec::deposit(InstrumentTenor::TwoYears));
    assert_eq!(
        def.validate().unwrap_err(),
        "Instrument 1 validation failed: Deposit tenor 2Y is unusually long (typically <= 1Y)"
    );
    assert_eq!(
        CurveDefinition::new("K", RateIndex::Sofr, SwapConvention::usd_sofr()).validate().unwrap_err(),
        "Curve definition must have at least one instrument"
    );
}

#[test]
fn sorting_is_stable_for_equal_tenors() {
    let def = CurveDefinition::new("K", RateIndex::Sofr, SwapConvention::usd_sofr())
        .with_instrument(InstrumentSpec::irs(InstrumentTenor::FiveYears))
        .with_instrument(InstrumentSpec::ois(InstrumentTenor::OneYear))
        .with_instrument(InstrumentSpec::ois(InstrumentTenor::FiveYears));
    let sorted = def.sorted_instruments_owned();
    assert_eq!(sorted[0], InstrumentSpec::ois(InstrumentTenor::OneYear));
    assert_eq!(sorted[1], InstrumentSpec::irs(InstrumentTenor::FiveYears));
    assert_eq!(sorted[2], InstrumentSpec::ois(InstrumentTenor::FiveYears));
}

#[test]
fn require_default_error_and_validated() {
    match CurveDefinition::require_default_for_index(RateIndex::Sonia) {
        Err(CurveEngineError::UnknownIndex(m)) => assert_eq!(m, "Sonia"),
        _ => panic!("expected an unknown index error"),
    }
    assert!(CurveDefinition::default_usd_sofr().validated().is_ok());
    match CurveDefinition::new("K", RateIndex::Sofr, SwapConvention::usd_sofr()).validated() {
        Err(CurveEngineError::Configuration { field, reason }) => {
            assert_eq!(field, "definition");
            assert_eq!(reason, "Curve definition must have at least one instrument");
        }
        _ => panic!("expected a configuration error"),
    }
}

#[test]
fn display_of_definition_is_exact() {
    assert_eq!(
        CurveDefinition::default_usd_sofr().to_display_string(),
        "CurveDefinition(USD-SOFR, 12 instruments)"
    );
    assert_eq!(CurveInstrumentType::Deposit.description(), "Money Market Deposit");
}
