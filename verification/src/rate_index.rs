//! Interest rate indices that curves are keyed by.
use vstd::prelude::*;

verus! {

/// A floating-rate benchmark index.
#[derive(Debug, Clone, Copy, PartialEq, Eq, Hash, Structural)]
pub enum RateIndex {
    /// Secured Overnight Financing Rate (USD).
    Sofr,
    /// Tokyo Overnight Average Rate (JPY).
    Tonar,
    /// Euro Short-Term Rate (EUR).
    Estr,
    /// Sterling Overnight Index Average (GBP).
    Sonia,
    /// Swiss Average Rate Overnight (CHF).
    Saron,
    /// 3-month EURIBOR.
    Euribor3M,
    /// 6-month EURIBOR.
    Euribor6M,
}

impl RateIndex {
    /// The variant name, as `{:?}` prints it.
    pub fn name(&self) -> (r: &'static str)
        ensures
            r@ == rate_index_name(*self)@,
    {
        match self {
            RateIndex::Sofr => "Sofr",
            RateIndex::Tonar => "Tonar",
            RateIndex::Estr => "Estr",
            RateIndex::Sonia => "Sonia",
            RateIndex::Saron => "Saron",
            RateIndex::Euribor3M => "Euribor3M",
            RateIndex::Euribor6M => "Euribor6M",
        }
    }
}

/// The variant name of an index.
pub open spec fn rate_index_name(i: RateIndex) -> &'static str {
    match i {
        RateIndex::Sofr => "Sofr",
        RateIndex::Tonar => "Tonar",
        RateIndex::Estr => "Estr",
        RateIndex::Sonia => "Sonia",
        RateIndex::Saron => "Saron",
        RateIndex::Euribor3M => "Euribor3M",
        RateIndex::Euribor6M => "Euribor6M",
    }
}

} // verus!
