//! Mapping of rate indices to the names of the curves that project them.
use vstd::prelude::*;
use crate::curves::CurveName;
use crate::market_error::MarketDataError;
use crate::rate_index::RateIndex;

verus! {

/// Maps a rate index to the name of its curve.
pub trait IndexCurveMapper {
    /// The curve name of `index`, or `MarketDataError::UnsupportedIndex`.
    fn map_to_curve(&self, index: RateIndex) -> Result<CurveName, MarketDataError>;
}

/// The standard curve of each index; both EURIBOR tenors share one curve.
pub open spec fn standard_curve_name(index: RateIndex) -> CurveName {
    match index {
        RateIndex::Sofr => CurveName::Sofr,
        RateIndex::Tonar => CurveName::Tonar,
        RateIndex::Estr => CurveName::Estr,
        RateIndex::Sonia => CurveName::Sonia,
        RateIndex::Saron => CurveName::Saron,
        RateIndex::Euribor3M => CurveName::Euribor,
        RateIndex::Euribor6M => CurveName::Euribor,
    }
}

/// The standard index-to-curve mapping.
#[derive(Debug, Clone, Copy)]
pub struct DefaultIndexCurveMapper;

impl Default for DefaultIndexCurveMapper {
    fn default() -> (r: Self)
        ensures
            r == DefaultIndexCurveMapper,
    {
        DefaultIndexCurveMapper
    }
}

impl IndexCurveMapper for DefaultIndexCurveMapper {
    /// Every index has its standard curve.
    fn map_to_curve(&self, index: RateIndex) -> (r: Result<CurveName, MarketDataError>)
        ensures
            r matches Ok(name) && name == standard_curve_name(index),
    {
        match index {
            RateIndex::Sofr => Ok(CurveName::Sofr),
            RateIndex::Tonar => Ok(CurveName::Tonar),
            RateIndex::Estr => Ok(CurveName::Estr),
            RateIndex::Sonia => Ok(CurveName::Sonia),
            RateIndex::Saron => Ok(CurveName::Saron),
            RateIndex::Euribor3M | RateIndex::Euribor6M => Ok(CurveName::Euribor),
        }
    }
}

/// The name under which a curve collection files the curve of an index:
/// both EURIBOR tenors share one curve, and SARON has a custom name.
pub open spec fn collection_curve_name(index: RateIndex) -> CurveName {
    match index {
        RateIndex::Sofr => CurveName::Sofr,
        RateIndex::Euribor3M => CurveName::Euribor,
        RateIndex::Euribor6M => CurveName::Euribor,
        RateIndex::Estr => CurveName::Estr,
        RateIndex::Tonar => CurveName::Tonar,
        RateIndex::Sonia => CurveName::Sonia,
        RateIndex::Saron => CurveName::Custom("SARON"),
    }
}

/// Each index is filed under its standard curve, except SARON, which is
/// filed under the custom name "SARON"; and two indices share a curve only
/// when both are EURIBOR tenors, in the standard mapping and in the
/// collection alike.
pub proof fn lemma_collection_names(i: RateIndex, j: RateIndex)
    ensures
        i != RateIndex::Saron ==> collection_curve_name(i) == standard_curve_name(i),
        collection_curve_name(RateIndex::Saron) == CurveName::Custom("SARON"),
        collection_curve_name(i) == collection_curve_name(j) ==> (i == j || (is_euribor(i) && is_euribor(j))),
        standard_curve_name(i) == standard_curve_name(j) ==> (i == j || (is_euribor(i) && is_euribor(j))),
        is_euribor(i) && is_euribor(j) ==> collection_curve_name(i) == collection_curve_name(j)
            && standard_curve_name(i) == standard_curve_name(j),
{
}

/// The EURIBOR tenors.
pub open spec fn is_euribor(i: RateIndex) -> bool {
    i == RateIndex::Euribor3M || i == RateIndex::Euribor6M
}

/// The name under which a curve collection files the curve of an index.
pub fn collection_name_for_index(index: RateIndex) -> (r: CurveName)
    ensures
        r == collection_curve_name(index),
{
    match index {
        RateIndex::Sofr => CurveName::Sofr,
        RateIndex::Euribor3M | RateIndex::Euribor6M => CurveName::Euribor,
        RateIndex::Estr => CurveName::Estr,
        RateIndex::Tonar => CurveName::Tonar,
        RateIndex::Sonia => CurveName::Sonia,
        RateIndex::Saron => CurveName::Custom("SARON"),
    }
}

} // verus!
