//! Declarative curve definitions: the instrument types and tenors a curve
//! is built from, instrument specifications, and the index-to-instrument
//! mapping of a curve.
use vstd::prelude::*;
use crate::rate_index::{RateIndex, rate_index_name};
use crate::convention::SwapConvention;
use crate::engine_error::CurveEngineError;
use crate::seq_facts::{is_permutation, lemma_distinct_below, lemma_missing_below, lemma_push_contains};
use crate::text::{
    ascii_uppercase, is_ascii_text, uppercase_of, to_uppercase, same_text, join2, join3,
    usize_to_string, decimal,
};

verus! {

/// Instrument types used in curve construction.
#[derive(Debug, Clone, Copy, PartialEq, Eq, Hash, Structural)]
pub enum CurveInstrumentType {
    /// Overnight Index Swap: the primary instrument of discount curves (default).
    Ois,
    /// Interest Rate Swap, for tenor curves.
    Irs,
    /// Forward Rate Agreement: a single-period forward contract.
    Fra,
    /// Exchange-traded interest rate future.
    Future,
    /// Money market deposit.
    Deposit,
}

impl Default for CurveInstrumentType {
    fn default() -> (r: Self)
        ensures
            r == CurveInstrumentType::Ois,
    {
        CurveInstrumentType::Ois
    }
}

/// Standard code of an instrument type.
pub open spec fn instrument_type_code(t: CurveInstrumentType) -> &'static str {
    match t {
        CurveInstrumentType::Ois => "OIS",
        CurveInstrumentType::Irs => "IRS",
        CurveInstrumentType::Fra => "FRA",
        CurveInstrumentType::Future => "FUT",
        CurveInstrumentType::Deposit => "DEP",
    }
}

/// Description of an instrument type.
pub open spec fn instrument_type_description(t: CurveInstrumentType) -> &'static str {
    match t {
        CurveInstrumentType::Ois => "Overnight Index Swap",
        CurveInstrumentType::Irs => "Interest Rate Swap",
        CurveInstrumentType::Fra => "Forward Rate Agreement",
        CurveInstrumentType::Future => "Interest Rate Future",
        CurveInstrumentType::Deposit => "Money Market Deposit",
    }
}

/// Variant name of an instrument type, as `{:?}` prints it.
pub open spec fn instrument_type_name(t: CurveInstrumentType) -> &'static str {
    match t {
        CurveInstrumentType::Ois => "Ois",
        CurveInstrumentType::Irs => "Irs",
        CurveInstrumentType::Fra => "Fra",
        CurveInstrumentType::Future => "Future",
        CurveInstrumentType::Deposit => "Deposit",
    }
}

/// The instrument type an uppercased code names.
pub open spec fn instrument_type_from_upper(u: Seq<char>) -> Option<CurveInstrumentType> {
    if u == "OIS"@ {
        Some(CurveInstrumentType::Ois)
    } else if u == "IRS"@ || u == "SWAP"@ {
        Some(CurveInstrumentType::Irs)
    } else if u == "FRA"@ {
        Some(CurveInstrumentType::Fra)
    } else if u == "FUT"@ || u == "FUTURE"@ || u == "FUTURES"@ {
        Some(CurveInstrumentType::Future)
    } else if u == "DEP"@ || u == "DEPOSIT"@ || u == "MM"@ {
        Some(CurveInstrumentType::Deposit)
    } else {
        None
    }
}

impl CurveInstrumentType {
    /// The standard code of this instrument type.
    pub fn code(&self) -> (r: &'static str)
        ensures
            r@ == instrument_type_code(*self)@,
    {
        match self {
            CurveInstrumentType::Ois => "OIS",
            CurveInstrumentType::Irs => "IRS",
            CurveInstrumentType::Fra => "FRA",
            CurveInstrumentType::Future => "FUT",
            CurveInstrumentType::Deposit => "DEP",
        }
    }

    /// A description of this instrument type.
    pub fn description(&self) -> (r: &'static str)
        ensures
            r@ == instrument_type_description(*self)@,
    {
        match self {
            CurveInstrumentType::Ois => "Overnight Index Swap",
            CurveInstrumentType::Irs => "Interest Rate Swap",
            CurveInstrumentType::Fra => "Forward Rate Agreement",
            CurveInstrumentType::Future => "Interest Rate Future",
            CurveInstrumentType::Deposit => "Money Market Deposit",
        }
    }

    /// The variant name, as `{:?}` prints it.
    pub fn debug_name(&self) -> (r: &'static str)
        ensures
            r@ == instrument_type_name(*self)@,
    {
        match self {
            CurveInstrumentType::Ois => "Ois",
            CurveInstrumentType::Irs => "Irs",
            CurveInstrumentType::Fra => "Fra",
            CurveInstrumentType::Future => "Future",
            CurveInstrumentType::Deposit => "Deposit",
        }
    }

    /// The text that `{}` prints: the code.
    pub fn to_display_string(&self) -> (r: String)
        ensures
            r@ == instrument_type_code(*self)@,
    {
        self.code().to_owned()
    }

    /// All instrument types.
    pub fn all() -> (r: &'static [CurveInstrumentType])
        ensures
            r@ == seq![CurveInstrumentType::Ois, CurveInstrumentType::Irs, CurveInstrumentType::Fra, CurveInstrumentType::Future, CurveInstrumentType::Deposit],
    {
        &[CurveInstrumentType::Ois, CurveInstrumentType::Irs, CurveInstrumentType::Fra, CurveInstrumentType::Future, CurveInstrumentType::Deposit]
    }

    /// Parses a code, whatever its case: OIS; IRS or SWAP; FRA; FUT, FUTURE
    /// or FUTURES; DEP, DEPOSIT or MM.
    pub fn from_code(s: &str) -> (r: Result<CurveInstrumentType, String>)
        ensures
            match instrument_type_from_upper(uppercase_of(s@)) {
                Some(t) => r == Ok::<CurveInstrumentType, String>(t),
                None => r matches Err(m) && m@ == "Unknown instrument type: "@ + s@,
            },
            is_ascii_text(s@) ==> uppercase_of(s@) == ascii_uppercase(s@),
    {
        let u = to_uppercase(s);
        if same_text(&u, "OIS") {
            Ok(CurveInstrumentType::Ois)
        } else if same_text(&u, "IRS") || same_text(&u, "SWAP") {
            Ok(CurveInstrumentType::Irs)
        } else if same_text(&u, "FRA") {
            Ok(CurveInstrumentType::Fra)
        } else if same_text(&u, "FUT") || same_text(&u, "FUTURE") || same_text(&u, "FUTURES") {
            Ok(CurveInstrumentType::Future)
        } else if same_text(&u, "DEP") || same_text(&u, "DEPOSIT") || same_text(&u, "MM") {
            Ok(CurveInstrumentType::Deposit)
        } else {
            Err(join2("Unknown instrument type: ", s))
        }
    }
}

impl core::str::FromStr for CurveInstrumentType {
    type Err = String;

    fn from_str(s: &str) -> (r: Result<Self, Self::Err>)
        ensures
            match instrument_type_from_upper(uppercase_of(s@)) {
                Some(t) => r == Ok::<CurveInstrumentType, String>(t),
                None => r matches Err(m) && m@ == "Unknown instrument type: "@ + s@,
            },
            is_ascii_text(s@) ==> uppercase_of(s@) == ascii_uppercase(s@),
    {
        CurveInstrumentType::from_code(s)
    }
}

/// Standard tenors of curve instruments, from overnight to 50 years, in
/// ascending order of maturity.
#[derive(Debug, Clone, Copy, PartialEq, Eq, Hash, PartialOrd, Ord, Structural)]
pub enum InstrumentTenor {
    /// Overnight (O/N)
    Overnight,
    /// One week (1W)
    OneWeek,
    /// Two weeks (2W)
    TwoWeeks,
    /// One month (1M)
    OneMonth,
    /// Two months (2M)
    TwoMonths,
    /// Three months (3M)
    ThreeMonths,
    /// Six months (6M)
    SixMonths,
    /// Nine months (9M)
    NineMonths,
    /// One year (1Y), the default
    OneYear,
    /// Eighteen months (18M)
    EighteenMonths,
    /// Two years (2Y)
    TwoYears,
    /// Three years (3Y)
    ThreeYears,
    /// Four years (4Y)
    FourYears,
    /// Five years (5Y)
    FiveYears,
    /// Six years (6Y)
    SixYears,
    /// Seven years (7Y)
    SevenYears,
    /// Eight years (8Y)
    EightYears,
    /// Nine years (9Y)
    NineYears,
    /// Ten years (10Y)
    TenYears,
    /// Twelve years (12Y)
    TwelveYears,
    /// Fifteen years (15Y)
    FifteenYears,
    /// Twenty years (20Y)
    TwentyYears,
    /// Twenty-five years (25Y)
    TwentyFiveYears,
    /// Thirty years (30Y)
    ThirtyYears,
    /// Forty years (40Y)
    FortyYears,
    /// Fifty years (50Y)
    FiftyYears,
}

impl Default for InstrumentTenor {
    fn default() -> (r: Self)
        ensures
            r == InstrumentTenor::OneYear,
    {
        InstrumentTenor::OneYear
    }
}

/// Standard code of a tenor.
pub open spec fn tenor_code(t: InstrumentTenor) -> &'static str {
    match t {
        InstrumentTenor::Overnight => "ON",
        InstrumentTenor::OneWeek => "1W",
        InstrumentTenor::TwoWeeks => "2W",
        InstrumentTenor::OneMonth => "1M",
        InstrumentTenor::TwoMonths => "2M",
        InstrumentTenor::ThreeMonths => "3M",
        InstrumentTenor::SixMonths => "6M",
        InstrumentTenor::NineMonths => "9M",
        InstrumentTenor::OneYear => "1Y",
        InstrumentTenor::EighteenMonths => "18M",
        InstrumentTenor::TwoYears => "2Y",
        InstrumentTenor::ThreeYears => "3Y",
        InstrumentTenor::FourYears => "4Y",
        InstrumentTenor::FiveYears => "5Y",
        InstrumentTenor::SixYears => "6Y",
        InstrumentTenor::SevenYears => "7Y",
        InstrumentTenor::EightYears => "8Y",
        InstrumentTenor::NineYears => "9Y",
        InstrumentTenor::TenYears => "10Y",
        InstrumentTenor::TwelveYears => "12Y",
        InstrumentTenor::FifteenYears => "15Y",
        InstrumentTenor::TwentyYears => "20Y",
        InstrumentTenor::TwentyFiveYears => "25Y",
        InstrumentTenor::ThirtyYears => "30Y",
        InstrumentTenor::FortyYears => "40Y",
        InstrumentTenor::FiftyYears => "50Y",
    }
}

/// Number of whole months of a tenor; 0 below one month.
pub open spec fn tenor_months(t: InstrumentTenor) -> u32 {
    match t {
        InstrumentTenor::Overnight => 0,
        InstrumentTenor::OneWeek => 0,
        InstrumentTenor::TwoWeeks => 0,
        InstrumentTenor::OneMonth => 1,
        InstrumentTenor::TwoMonths => 2,
        InstrumentTenor::ThreeMonths => 3,
        InstrumentTenor::SixMonths => 6,
        InstrumentTenor::NineMonths => 9,
        InstrumentTenor::OneYear => 12,
        InstrumentTenor::EighteenMonths => 18,
        InstrumentTenor::TwoYears => 24,
        InstrumentTenor::ThreeYears => 36,
        InstrumentTenor::FourYears => 48,
        InstrumentTenor::FiveYears => 60,
        InstrumentTenor::SixYears => 72,
        InstrumentTenor::SevenYears => 84,
        InstrumentTenor::EightYears => 96,
        InstrumentTenor::NineYears => 108,
        InstrumentTenor::TenYears => 120,
        InstrumentTenor::TwelveYears => 144,
        InstrumentTenor::FifteenYears => 180,
        InstrumentTenor::TwentyYears => 240,
        InstrumentTenor::TwentyFiveYears => 300,
        InstrumentTenor::ThirtyYears => 360,
        InstrumentTenor::FortyYears => 480,
        InstrumentTenor::FiftyYears => 600,
    }
}

/// Position of a tenor in ascending order of maturity.
pub open spec fn tenor_rank(t: InstrumentTenor) -> int {
    match t {
        InstrumentTenor::Overnight => 0,
        InstrumentTenor::OneWeek => 1,
        InstrumentTenor::TwoWeeks => 2,
        InstrumentTenor::OneMonth => 3,
        InstrumentTenor::TwoMonths => 4,
        InstrumentTenor::ThreeMonths => 5,
        InstrumentTenor::SixMonths => 6,
        InstrumentTenor::NineMonths => 7,
        InstrumentTenor::OneYear => 8,
        InstrumentTenor::EighteenMonths => 9,
        InstrumentTenor::TwoYears => 10,
        InstrumentTenor::ThreeYears => 11,
        InstrumentTenor::FourYears => 12,
        InstrumentTenor::FiveYears => 13,
        InstrumentTenor::SixYears => 14,
        InstrumentTenor::SevenYears => 15,
        InstrumentTenor::EightYears => 16,
        InstrumentTenor::NineYears => 17,
        InstrumentTenor::TenYears => 18,
        InstrumentTenor::TwelveYears => 19,
        InstrumentTenor::FifteenYears => 20,
        InstrumentTenor::TwentyYears => 21,
        InstrumentTenor::TwentyFiveYears => 22,
        InstrumentTenor::ThirtyYears => 23,
        InstrumentTenor::FortyYears => 24,
        InstrumentTenor::FiftyYears => 25,
    }
}

/// Variant name of a tenor, as `{:?}` prints it.
pub open spec fn tenor_name(t: InstrumentTenor) -> &'static str {
    match t {
        InstrumentTenor::Overnight => "Overnight",
        InstrumentTenor::OneWeek => "OneWeek",
        InstrumentTenor::TwoWeeks => "TwoWeeks",
        InstrumentTenor::OneMonth => "OneMonth",
        InstrumentTenor::TwoMonths => "TwoMonths",
        InstrumentTenor::ThreeMonths => "ThreeMonths",
        InstrumentTenor::SixMonths => "SixMonths",
        InstrumentTenor::NineMonths => "NineMonths",
        InstrumentTenor::OneYear => "OneYear",
        InstrumentTenor::EighteenMonths => "EighteenMonths",
        InstrumentTenor::TwoYears => "TwoYears",
        InstrumentTenor::ThreeYears => "ThreeYears",
        InstrumentTenor::FourYears => "FourYears",
        InstrumentTenor::FiveYears => "FiveYears",
        InstrumentTenor::SixYears => "SixYears",
        InstrumentTenor::SevenYears => "SevenYears",
        InstrumentTenor::EightYears => "EightYears",
        InstrumentTenor::NineYears => "NineYears",
        InstrumentTenor::TenYears => "TenYears",
        InstrumentTenor::TwelveYears => "TwelveYears",
        InstrumentTenor::FifteenYears => "FifteenYears",
        InstrumentTenor::TwentyYears => "TwentyYears",
        InstrumentTenor::TwentyFiveYears => "TwentyFiveYears",
        InstrumentTenor::ThirtyYears => "ThirtyYears",
        InstrumentTenor::FortyYears => "FortyYears",
        InstrumentTenor::FiftyYears => "FiftyYears",
    }
}

/// All tenors, in ascending order.
pub open spec fn all_tenors() -> Seq<InstrumentTenor> {
    seq![InstrumentTenor::Overnight, InstrumentTenor::OneWeek, InstrumentTenor::TwoWeeks, InstrumentTenor::OneMonth, InstrumentTenor::TwoMonths, InstrumentTenor::ThreeMonths, InstrumentTenor::SixMonths, InstrumentTenor::NineMonths, InstrumentTenor::OneYear, InstrumentTenor::EighteenMonths, InstrumentTenor::TwoYears, InstrumentTenor::ThreeYears, InstrumentTenor::FourYears, InstrumentTenor::FiveYears, InstrumentTenor::SixYears, InstrumentTenor::SevenYears, InstrumentTenor::EightYears, InstrumentTenor::NineYears, InstrumentTenor::TenYears, InstrumentTenor::TwelveYears, InstrumentTenor::FifteenYears, InstrumentTenor::TwentyYears, InstrumentTenor::TwentyFiveYears, InstrumentTenor::ThirtyYears, InstrumentTenor::FortyYears, InstrumentTenor::FiftyYears]
}

/// The standard OIS tenors of curve construction.
pub open spec fn standard_ois_tenor_seq() -> Seq<InstrumentTenor> {
    seq![InstrumentTenor::OneMonth, InstrumentTenor::ThreeMonths, InstrumentTenor::SixMonths, InstrumentTenor::OneYear, InstrumentTenor::TwoYears, InstrumentTenor::ThreeYears, InstrumentTenor::FiveYears, InstrumentTenor::SevenYears, InstrumentTenor::TenYears, InstrumentTenor::FifteenYears, InstrumentTenor::TwentyYears, InstrumentTenor::ThirtyYears, InstrumentTenor::FiftyYears]
}

/// The tenor an uppercased code names.
pub open spec fn tenor_from_upper(u: Seq<char>) -> Option<InstrumentTenor> {
    if u == "ON"@ || u == "O/N"@ || u == "OVERNIGHT"@ {
        Some(InstrumentTenor::Overnight)
    } else if u == "1W"@ {
        Some(InstrumentTenor::OneWeek)
    } else if u == "2W"@ {
        Some(InstrumentTenor::TwoWeeks)
    } else if u == "1M"@ {
        Some(InstrumentTenor::OneMonth)
    } else if u == "2M"@ {
        Some(InstrumentTenor::TwoMonths)
    } else if u == "3M"@ {
        Some(InstrumentTenor::ThreeMonths)
    } else if u == "6M"@ {
        Some(InstrumentTenor::SixMonths)
    } else if u == "9M"@ {
        Some(InstrumentTenor::NineMonths)
    } else if u == "1Y"@ || u == "12M"@ {
        Some(InstrumentTenor::OneYear)
    } else if u == "18M"@ {
        Some(InstrumentTenor::EighteenMonths)
    } else if u == "2Y"@ || u == "24M"@ {
        Some(InstrumentTenor::TwoYears)
    } else if u == "3Y"@ || u == "36M"@ {
        Some(InstrumentTenor::ThreeYears)
    } else if u == "4Y"@ || u == "48M"@ {
        Some(InstrumentTenor::FourYears)
    } else if u == "5Y"@ || u == "60M"@ {
        Some(InstrumentTenor::FiveYears)
    } else if u == "6Y"@ || u == "72M"@ {
        Some(InstrumentTenor::SixYears)
    } else if u == "7Y"@ || u == "84M"@ {
        Some(InstrumentTenor::SevenYears)
    } else if u == "8Y"@ || u == "96M"@ {
        Some(InstrumentTenor::EightYears)
    } else if u == "9Y"@ || u == "108M"@ {
        Some(InstrumentTenor::NineYears)
    } else if u == "10Y"@ || u == "120M"@ {
        Some(InstrumentTenor::TenYears)
    } else if u == "12Y"@ || u == "144M"@ {
        Some(InstrumentTenor::TwelveYears)
    } else if u == "15Y"@ || u == "180M"@ {
        Some(InstrumentTenor::FifteenYears)
    } else if u == "20Y"@ || u == "240M"@ {
        Some(InstrumentTenor::TwentyYears)
    } else if u == "25Y"@ || u == "300M"@ {
        Some(InstrumentTenor::TwentyFiveYears)
    } else if u == "30Y"@ || u == "360M"@ {
        Some(InstrumentTenor::ThirtyYears)
    } else if u == "40Y"@ || u == "480M"@ {
        Some(InstrumentTenor::FortyYears)
    } else if u == "50Y"@ || u == "600M"@ {
        Some(InstrumentTenor::FiftyYears)
    } else {
        None
    }
}

impl InstrumentTenor {
    /// The standard code of this tenor.
    pub fn code(&self) -> (r: &'static str)
        ensures
            r@ == tenor_code(*self)@,
    {
        match self {
            InstrumentTenor::Overnight => "ON",
            InstrumentTenor::OneWeek => "1W",
            InstrumentTenor::TwoWeeks => "2W",
            InstrumentTenor::OneMonth => "1M",
            InstrumentTenor::TwoMonths => "2M",
            InstrumentTenor::ThreeMonths => "3M",
            InstrumentTenor::SixMonths => "6M",
            InstrumentTenor::NineMonths => "9M",
            InstrumentTenor::OneYear => "1Y",
            InstrumentTenor::EighteenMonths => "18M",
            InstrumentTenor::TwoYears => "2Y",
            InstrumentTenor::ThreeYears => "3Y",
            InstrumentTenor::FourYears => "4Y",
            InstrumentTenor::FiveYears => "5Y",
            InstrumentTenor::SixYears => "6Y",
            InstrumentTenor::SevenYears => "7Y",
            InstrumentTenor::EightYears => "8Y",
            InstrumentTenor::NineYears => "9Y",
            InstrumentTenor::TenYears => "10Y",
            InstrumentTenor::TwelveYears => "12Y",
            InstrumentTenor::FifteenYears => "15Y",
            InstrumentTenor::TwentyYears => "20Y",
            InstrumentTenor::TwentyFiveYears => "25Y",
            InstrumentTenor::ThirtyYears => "30Y",
            InstrumentTenor::FortyYears => "40Y",
            InstrumentTenor::FiftyYears => "50Y",
        }
    }

    /// The number of months of this tenor; 0 for tenors shorter than a month.
    pub fn to_months(&self) -> (r: u32)
        ensures
            r == tenor_months(*self),
    {
        match self {
            InstrumentTenor::Overnight => 0,
            InstrumentTenor::OneWeek => 0,
            InstrumentTenor::TwoWeeks => 0,
            InstrumentTenor::OneMonth => 1,
            InstrumentTenor::TwoMonths => 2,
            InstrumentTenor::ThreeMonths => 3,
            InstrumentTenor::SixMonths => 6,
            InstrumentTenor::NineMonths => 9,
            InstrumentTenor::OneYear => 12,
            InstrumentTenor::EighteenMonths => 18,
            InstrumentTenor::TwoYears => 24,
            InstrumentTenor::ThreeYears => 36,
            InstrumentTenor::FourYears => 48,
            InstrumentTenor::FiveYears => 60,
            InstrumentTenor::SixYears => 72,
            InstrumentTenor::SevenYears => 84,
            InstrumentTenor::EightYears => 96,
            InstrumentTenor::NineYears => 108,
            InstrumentTenor::TenYears => 120,
            InstrumentTenor::TwelveYears => 144,
            InstrumentTenor::FifteenYears => 180,
            InstrumentTenor::TwentyYears => 240,
            InstrumentTenor::TwentyFiveYears => 300,
            InstrumentTenor::ThirtyYears => 360,
            InstrumentTenor::FortyYears => 480,
            InstrumentTenor::FiftyYears => 600,
        }
    }

    /// The position of this tenor in ascending order of maturity.
    pub fn rank(&self) -> (r: u8)
        ensures
            r as int == tenor_rank(*self),
    {
        match self {
            InstrumentTenor::Overnight => 0,
            InstrumentTenor::OneWeek => 1,
            InstrumentTenor::TwoWeeks => 2,
            InstrumentTenor::OneMonth => 3,
            InstrumentTenor::TwoMonths => 4,
            InstrumentTenor::ThreeMonths => 5,
            InstrumentTenor::SixMonths => 6,
            InstrumentTenor::NineMonths => 7,
            InstrumentTenor::OneYear => 8,
            InstrumentTenor::EighteenMonths => 9,
            InstrumentTenor::TwoYears => 10,
            InstrumentTenor::ThreeYears => 11,
            InstrumentTenor::FourYears => 12,
            InstrumentTenor::FiveYears => 13,
            InstrumentTenor::SixYears => 14,
            InstrumentTenor::SevenYears => 15,
            InstrumentTenor::EightYears => 16,
            InstrumentTenor::NineYears => 17,
            InstrumentTenor::TenYears => 18,
            InstrumentTenor::TwelveYears => 19,
            InstrumentTenor::FifteenYears => 20,
            InstrumentTenor::TwentyYears => 21,
            InstrumentTenor::TwentyFiveYears => 22,
            InstrumentTenor::ThirtyYears => 23,
            InstrumentTenor::FortyYears => 24,
            InstrumentTenor::FiftyYears => 25,
        }
    }

    /// The variant name, as `{:?}` prints it.
    pub fn debug_name(&self) -> (r: &'static str)
        ensures
            r@ == tenor_name(*self)@,
    {
        match self {
            InstrumentTenor::Overnight => "Overnight",
            InstrumentTenor::OneWeek => "OneWeek",
            InstrumentTenor::TwoWeeks => "TwoWeeks",
            InstrumentTenor::OneMonth => "OneMonth",
            InstrumentTenor::TwoMonths => "TwoMonths",
            InstrumentTenor::ThreeMonths => "ThreeMonths",
            InstrumentTenor::SixMonths => "SixMonths",
            InstrumentTenor::NineMonths => "NineMonths",
            InstrumentTenor::OneYear => "OneYear",
            InstrumentTenor::EighteenMonths => "EighteenMonths",
            InstrumentTenor::TwoYears => "TwoYears",
            InstrumentTenor::ThreeYears => "ThreeYears",
            InstrumentTenor::FourYears => "FourYears",
            InstrumentTenor::FiveYears => "FiveYears",
            InstrumentTenor::SixYears => "SixYears",
            InstrumentTenor::SevenYears => "SevenYears",
            InstrumentTenor::EightYears => "EightYears",
            InstrumentTenor::NineYears => "NineYears",
            InstrumentTenor::TenYears => "TenYears",
            InstrumentTenor::TwelveYears => "TwelveYears",
            InstrumentTenor::FifteenYears => "FifteenYears",
            InstrumentTenor::TwentyYears => "TwentyYears",
            InstrumentTenor::TwentyFiveYears => "TwentyFiveYears",
            InstrumentTenor::ThirtyYears => "ThirtyYears",
            InstrumentTenor::FortyYears => "FortyYears",
            InstrumentTenor::FiftyYears => "FiftyYears",
        }
    }

    /// The text that `{}` prints: the code.
    pub fn to_display_string(&self) -> (r: String)
        ensures
            r@ == tenor_code(*self)@,
    {
        self.code().to_owned()
    }

    /// All standard tenors, in ascending order.
    pub fn all() -> (r: &'static [InstrumentTenor])
        ensures
            r@ == all_tenors(),
    {
        &[InstrumentTenor::Overnight, InstrumentTenor::OneWeek, InstrumentTenor::TwoWeeks, InstrumentTenor::OneMonth, InstrumentTenor::TwoMonths, InstrumentTenor::ThreeMonths, InstrumentTenor::SixMonths, InstrumentTenor::NineMonths, InstrumentTenor::OneYear, InstrumentTenor::EighteenMonths, InstrumentTenor::TwoYears, InstrumentTenor::ThreeYears, InstrumentTenor::FourYears, InstrumentTenor::FiveYears, InstrumentTenor::SixYears, InstrumentTenor::SevenYears, InstrumentTenor::EightYears, InstrumentTenor::NineYears, InstrumentTenor::TenYears, InstrumentTenor::TwelveYears, InstrumentTenor::FifteenYears, InstrumentTenor::TwentyYears, InstrumentTenor::TwentyFiveYears, InstrumentTenor::ThirtyYears, InstrumentTenor::FortyYears, InstrumentTenor::FiftyYears]
    }

    /// The standard OIS tenors for curve construction.
    pub fn standard_ois_tenors() -> (r: &'static [InstrumentTenor])
        ensures
            r@ == standard_ois_tenor_seq(),
    {
        &[InstrumentTenor::OneMonth, InstrumentTenor::ThreeMonths, InstrumentTenor::SixMonths, InstrumentTenor::OneYear, InstrumentTenor::TwoYears, InstrumentTenor::ThreeYears, InstrumentTenor::FiveYears, InstrumentTenor::SevenYears, InstrumentTenor::TenYears, InstrumentTenor::FifteenYears, InstrumentTenor::TwentyYears, InstrumentTenor::ThirtyYears, InstrumentTenor::FiftyYears]
    }

    /// Parses a tenor code, whatever its case (ON, O/N or OVERNIGHT; 1W, 2W;
    /// month codes; year codes, or their equivalent in months).
    pub fn from_code(s: &str) -> (r: Result<InstrumentTenor, String>)
        ensures
            match tenor_from_upper(uppercase_of(s@)) {
                Some(t) => r == Ok::<InstrumentTenor, String>(t),
                None => r matches Err(m) && m@ == "Unknown tenor: "@ + s@,
            },
            is_ascii_text(s@) ==> uppercase_of(s@) == ascii_uppercase(s@),
    {
        let u = to_uppercase(s);
        if same_text(&u, "ON") || same_text(&u, "O/N") || same_text(&u, "OVERNIGHT") {
            Ok(InstrumentTenor::Overnight)
        } else if same_text(&u, "1W") {
            Ok(InstrumentTenor::OneWeek)
        } else if same_text(&u, "2W") {
            Ok(InstrumentTenor::TwoWeeks)
        } else if same_text(&u, "1M") {
            Ok(InstrumentTenor::OneMonth)
        } else if same_text(&u, "2M") {
            Ok(InstrumentTenor::TwoMonths)
        } else if same_text(&u, "3M") {
            Ok(InstrumentTenor::ThreeMonths)
        } else if same_text(&u, "6M") {
            Ok(InstrumentTenor::SixMonths)
        } else if same_text(&u, "9M") {
            Ok(InstrumentTenor::NineMonths)
        } else if same_text(&u, "1Y") || same_text(&u, "12M") {
            Ok(InstrumentTenor::OneYear)
        } else if same_text(&u, "18M") {
            Ok(InstrumentTenor::EighteenMonths)
        } else if same_text(&u, "2Y") || same_text(&u, "24M") {
            Ok(InstrumentTenor::TwoYears)
        } else if same_text(&u, "3Y") || same_text(&u, "36M") {
            Ok(InstrumentTenor::ThreeYears)
        } else if same_text(&u, "4Y") || same_text(&u, "48M") {
            Ok(InstrumentTenor::FourYears)
        } else if same_text(&u, "5Y") || same_text(&u, "60M") {
            Ok(InstrumentTenor::FiveYears)
        } else if same_text(&u, "6Y") || same_text(&u, "72M") {
            Ok(InstrumentTenor::SixYears)
        } else if same_text(&u, "7Y") || same_text(&u, "84M") {
            Ok(InstrumentTenor::SevenYears)
        } else if same_text(&u, "8Y") || same_text(&u, "96M") {
            Ok(InstrumentTenor::EightYears)
        } else if same_text(&u, "9Y") || same_text(&u, "108M") {
            Ok(InstrumentTenor::NineYears)
        } else if same_text(&u, "10Y") || same_text(&u, "120M") {
            Ok(InstrumentTenor::TenYears)
        } else if same_text(&u, "12Y") || same_text(&u, "144M") {
            Ok(InstrumentTenor::TwelveYears)
        } else if same_text(&u, "15Y") || same_text(&u, "180M") {
            Ok(InstrumentTenor::FifteenYears)
        } else if same_text(&u, "20Y") || same_text(&u, "240M") {
            Ok(InstrumentTenor::TwentyYears)
        } else if same_text(&u, "25Y") || same_text(&u, "300M") {
            Ok(InstrumentTenor::TwentyFiveYears)
        } else if same_text(&u, "30Y") || same_text(&u, "360M") {
            Ok(InstrumentTenor::ThirtyYears)
        } else if same_text(&u, "40Y") || same_text(&u, "480M") {
            Ok(InstrumentTenor::FortyYears)
        } else if same_text(&u, "50Y") || same_text(&u, "600M") {
            Ok(InstrumentTenor::FiftyYears)
        } else {
            Err(join2("Unknown tenor: ", s))
        }
    }
}

impl core::str::FromStr for InstrumentTenor {
    type Err = String;

    fn from_str(s: &str) -> (r: Result<Self, Self::Err>)
        ensures
            match tenor_from_upper(uppercase_of(s@)) {
                Some(t) => r == Ok::<InstrumentTenor, String>(t),
                None => r matches Err(m) && m@ == "Unknown tenor: "@ + s@,
            },
            is_ascii_text(s@) ==> uppercase_of(s@) == ascii_uppercase(s@),
    {
        InstrumentTenor::from_code(s)
    }
}
/// Specification of one instrument of a curve: its type, its tenor, and
/// for futures a convexity adjustment (carried as the bits of an `f64`,
/// `f64::to_bits`).
#[derive(Debug, Clone, Copy, PartialEq, Eq, Structural)]
pub struct InstrumentSpec {
    /// Instrument type.
    pub instrument_type: CurveInstrumentType,
    /// Tenor (maturity).
    pub tenor: InstrumentTenor,
    /// Convexity adjustment, as `f64` bits.
    pub convexity_adjustment: Option<u64>,
}

/// Why an instrument specification is invalid, if it is.
pub open spec fn spec_failure(s: InstrumentSpec) -> Option<Seq<char>> {
    if s.convexity_adjustment is Some && s.instrument_type != CurveInstrumentType::Future {
        Some("Convexity adjustment is only valid for futures, not "@ + instrument_type_name(s.instrument_type)@)
    } else if s.instrument_type == CurveInstrumentType::Future && tenor_months(s.tenor) > 36 {
        Some("Future tenor "@ + tenor_code(s.tenor)@ + " is unusually long (typically <= 3Y)"@)
    } else if s.instrument_type == CurveInstrumentType::Deposit && tenor_months(s.tenor) > 12 {
        Some("Deposit tenor "@ + tenor_code(s.tenor)@ + " is unusually long (typically <= 1Y)"@)
    } else {
        None
    }
}

impl InstrumentSpec {
    /// A specification without convexity adjustment.
    pub fn new(instrument_type: CurveInstrumentType, tenor: InstrumentTenor) -> (r: Self)
        ensures
            r == (InstrumentSpec { instrument_type, tenor, convexity_adjustment: None }),
    {
        InstrumentSpec { instrument_type, tenor, convexity_adjustment: None }
    }

    /// An OIS specification.
    pub fn ois(tenor: InstrumentTenor) -> (r: Self)
        ensures
            r == (InstrumentSpec { instrument_type: CurveInstrumentType::Ois, tenor, convexity_adjustment: None }),
    {
        Self::new(CurveInstrumentType::Ois, tenor)
    }

    /// An IRS specification.
    pub fn irs(tenor: InstrumentTenor) -> (r: Self)
        ensures
            r == (InstrumentSpec { instrument_type: CurveInstrumentType::Irs, tenor, convexity_adjustment: None }),
    {
        Self::new(CurveInstrumentType::Irs, tenor)
    }

    /// A FRA specification.
    pub fn fra(tenor: InstrumentTenor) -> (r: Self)
        ensures
            r == (InstrumentSpec { instrument_type: CurveInstrumentType::Fra, tenor, convexity_adjustment: None }),
    {
        Self::new(CurveInstrumentType::Fra, tenor)
    }

    /// A deposit specification.
    pub fn deposit(tenor: InstrumentTenor) -> (r: Self)
        ensures
            r == (InstrumentSpec { instrument_type: CurveInstrumentType::Deposit, tenor, convexity_adjustment: None }),
    {
        Self::new(CurveInstrumentType::Deposit, tenor)
    }

    /// A future specification with a convexity adjustment (`f64` bits).
    pub fn future(tenor: InstrumentTenor, convexity_adjustment: u64) -> (r: Self)
        ensures
            r == (InstrumentSpec {
                instrument_type: CurveInstrumentType::Future,
                tenor,
                convexity_adjustment: Some(convexity_adjustment),
            }),
    {
        InstrumentSpec {
            instrument_type: CurveInstrumentType::Future,
            tenor,
            convexity_adjustment: Some(convexity_adjustment),
        }
    }

    /// The same specification with a convexity adjustment (`f64` bits).
    pub fn with_convexity_adjustment(self, adjustment: u64) -> (r: Self)
        ensures
            r == (InstrumentSpec { convexity_adjustment: Some(adjustment), ..self }),
    {
        InstrumentSpec { convexity_adjustment: Some(adjustment), ..self }
    }

    /// The instrument type.
    pub fn instrument_type(&self) -> (r: CurveInstrumentType)
        ensures
            r == self.instrument_type,
    {
        self.instrument_type
    }

    /// The tenor.
    pub fn tenor(&self) -> (r: InstrumentTenor)
        ensures
            r == self.tenor,
    {
        self.tenor
    }

    /// The convexity adjustment (`f64` bits), if set.
    pub fn convexity_adjustment(&self) -> (r: Option<u64>)
        ensures
            r == self.convexity_adjustment,
    {
        self.convexity_adjustment
    }

    /// Checks the specification: a convexity adjustment only on futures,
    /// futures no longer than 3Y, deposits no longer than 1Y.
    pub fn validate(&self) -> (r: Result<(), String>)
        ensures
            match spec_failure(*self) {
                Some(m) => r matches Err(e) && e@ == m,
                None => r is Ok,
            },
    {
        if self.convexity_adjustment.is_some() && self.instrument_type != CurveInstrumentType::Future {
            return Err(join2(
                "Convexity adjustment is only valid for futures, not ",
                self.instrument_type.debug_name(),
            ));
        }
        if self.instrument_type == CurveInstrumentType::Future && self.tenor.to_months() > 36 {
            return Err(join3("Future tenor ", self.tenor.code(), " is unusually long (typically <= 3Y)"));
        }
        if self.instrument_type == CurveInstrumentType::Deposit && self.tenor.to_months() > 12 {
            return Err(join3("Deposit tenor ", self.tenor.code(), " is unusually long (typically <= 1Y)"));
        }
        Ok(())
    }
}

// --- laws of codes and orderings ---------------------------------------------------

/// The code of every instrument type is ASCII and parses back to that type.
pub proof fn lemma_instrument_type_code_parses(t: CurveInstrumentType)
    ensures
        is_ascii_text(instrument_type_code(t)@),
        instrument_type_from_upper(ascii_uppercase(instrument_type_code(t)@)) == Some(t),
{
    reveal_strlit("OIS");
    reveal_strlit("IRS");
    reveal_strlit("SWAP");
    reveal_strlit("FRA");
    reveal_strlit("FUT");
    reveal_strlit("FUTURE");
    reveal_strlit("FUTURES");
    reveal_strlit("DEP");
    reveal_strlit("DEPOSIT");
    reveal_strlit("MM");
    let c = instrument_type_code(t)@;
    assert(ascii_uppercase(c) =~= c);
    match t {
        CurveInstrumentType::Ois => {},
        CurveInstrumentType::Irs => {
            assert(c[0] != "OIS"@[0]);
        },
        CurveInstrumentType::Fra => {
            assert(c[0] != "OIS"@[0]);
            assert(c[0] != "IRS"@[0]);
        },
        CurveInstrumentType::Future => {
            assert(c[0] != "OIS"@[0]);
            assert(c[0] != "IRS"@[0]);
            assert(c[1] != "FRA"@[1]);
        },
        CurveInstrumentType::Deposit => {
            assert(c[0] != "OIS"@[0]);
            assert(c[0] != "IRS"@[0]);
            assert(c[0] != "FRA"@[0]);
            assert(c[0] != "FUT"@[0]);
        },
    }
}

/// A tenor's code is its length: whole years as the number of years and
/// `Y`, other lengths as the number of months and `M`; only overnight and
/// the week tenors have no whole month.
pub proof fn lemma_tenor_code_months(t: InstrumentTenor)
    ensures
        tenor_months(t) >= 12 && tenor_months(t) % 12 == 0
            ==> tenor_code(t)@ == decimal((tenor_months(t) / 12) as nat) + "Y"@,
        1 <= tenor_months(t) && !(tenor_months(t) >= 12 && tenor_months(t) % 12 == 0)
            ==> tenor_code(t)@ == decimal(tenor_months(t) as nat) + "M"@,
        tenor_months(t) == 0 <==> (t == InstrumentTenor::Overnight || t == InstrumentTenor::OneWeek
            || t == InstrumentTenor::TwoWeeks),
{
    reveal_strlit("ON");
    reveal_strlit("1W");
    reveal_strlit("2W");
    reveal_strlit("1M");
    reveal_strlit("2M");
    reveal_strlit("3M");
    reveal_strlit("6M");
    reveal_strlit("9M");
    reveal_strlit("1Y");
    reveal_strlit("18M");
    reveal_strlit("2Y");
    reveal_strlit("3Y");
    reveal_strlit("4Y");
    reveal_strlit("5Y");
    reveal_strlit("6Y");
    reveal_strlit("7Y");
    reveal_strlit("8Y");
    reveal_strlit("9Y");
    reveal_strlit("10Y");
    reveal_strlit("12Y");
    reveal_strlit("15Y");
    reveal_strlit("20Y");
    reveal_strlit("25Y");
    reveal_strlit("30Y");
    reveal_strlit("40Y");
    reveal_strlit("50Y");
    reveal_strlit("M");
    reveal_strlit("Y");
    reveal_with_fuel(decimal, 3);
    assert(crate::text::decimal_digit(0) == '0');
    assert(crate::text::decimal_digit(1) == '1');
    assert(crate::text::decimal_digit(2) == '2');
    assert(crate::text::decimal_digit(3) == '3');
    assert(crate::text::decimal_digit(4) == '4');
    assert(crate::text::decimal_digit(5) == '5');
    assert(crate::text::decimal_digit(6) == '6');
    assert(crate::text::decimal_digit(7) == '7');
    assert(crate::text::decimal_digit(8) == '8');
    assert(crate::text::decimal_digit(9) == '9');
    assert(decimal(1) + "M"@ =~= "1M"@);
    assert(decimal(2) + "M"@ =~= "2M"@);
    assert(decimal(3) + "M"@ =~= "3M"@);
    assert(decimal(6) + "M"@ =~= "6M"@);
    assert(decimal(9) + "M"@ =~= "9M"@);
    assert(decimal(18) + "M"@ =~= "18M"@);
    assert(decimal(1) + "Y"@ =~= "1Y"@);
    assert(decimal(2) + "Y"@ =~= "2Y"@);
    assert(decimal(3) + "Y"@ =~= "3Y"@);
    assert(decimal(4) + "Y"@ =~= "4Y"@);
    assert(decimal(5) + "Y"@ =~= "5Y"@);
    assert(decimal(6) + "Y"@ =~= "6Y"@);
    assert(decimal(7) + "Y"@ =~= "7Y"@);
    assert(decimal(8) + "Y"@ =~= "8Y"@);
    assert(decimal(9) + "Y"@ =~= "9Y"@);
    assert(decimal(10) + "Y"@ =~= "10Y"@);
    assert(decimal(12) + "Y"@ =~= "12Y"@);
    assert(decimal(15) + "Y"@ =~= "15Y"@);
    assert(decimal(20) + "Y"@ =~= "20Y"@);
    assert(decimal(25) + "Y"@ =~= "25Y"@);
    assert(decimal(30) + "Y"@ =~= "30Y"@);
    assert(decimal(40) + "Y"@ =~= "40Y"@);
    assert(decimal(50) + "Y"@ =~= "50Y"@);
}

/// Every text the tenor parser accepts is the tenor's code, or its length
/// in months followed by `M`, or (for overnight) `O/N` or `OVERNIGHT`.
pub proof fn lemma_tenor_aliases(u: Seq<char>)
    ensures
        tenor_from_upper(u) matches Some(t) ==> u == tenor_code(t)@
            || u == decimal(tenor_months(t) as nat) + "M"@
            || (t == InstrumentTenor::Overnight && (u == "O/N"@ || u == "OVERNIGHT"@)),
{
    reveal_strlit("ON");
    reveal_strlit("O/N");
    reveal_strlit("OVERNIGHT");
    reveal_strlit("1W");
    reveal_strlit("2W");
    reveal_strlit("1M");
    reveal_strlit("2M");
    reveal_strlit("3M");
    reveal_strlit("6M");
    reveal_strlit("9M");
    reveal_strlit("1Y");
    reveal_strlit("12M");
    reveal_strlit("18M");
    reveal_strlit("2Y");
    reveal_strlit("24M");
    reveal_strlit("3Y");
    reveal_strlit("36M");
    reveal_strlit("4Y");
    reveal_strlit("48M");
    reveal_strlit("5Y");
    reveal_strlit("60M");
    reveal_strlit("6Y");
    reveal_strlit("72M");
    reveal_strlit("7Y");
    reveal_strlit("84M");
    reveal_strlit("8Y");
    reveal_strlit("96M");
    reveal_strlit("9Y");
    reveal_strlit("108M");
    reveal_strlit("10Y");
    reveal_strlit("120M");
    reveal_strlit("12Y");
    reveal_strlit("144M");
    reveal_strlit("15Y");
    reveal_strlit("180M");
    reveal_strlit("20Y");
    reveal_strlit("240M");
    reveal_strlit("25Y");
    reveal_strlit("300M");
    reveal_strlit("30Y");
    reveal_strlit("360M");
    reveal_strlit("40Y");
    reveal_strlit("480M");
    reveal_strlit("50Y");
    reveal_strlit("600M");
    reveal_strlit("M");
    reveal_with_fuel(decimal, 4);
    assert(crate::text::decimal_digit(0) == '0');
    assert(crate::text::decimal_digit(1) == '1');
    assert(crate::text::decimal_digit(2) == '2');
    assert(crate::text::decimal_digit(3) == '3');
    assert(crate::text::decimal_digit(4) == '4');
    assert(crate::text::decimal_digit(5) == '5');
    assert(crate::text::decimal_digit(6) == '6');
    assert(crate::text::decimal_digit(7) == '7');
    assert(crate::text::decimal_digit(8) == '8');
    assert(crate::text::decimal_digit(9) == '9');
    assert(decimal(1) + "M"@ =~= "1M"@);
    assert(decimal(2) + "M"@ =~= "2M"@);
    assert(decimal(3) + "M"@ =~= "3M"@);
    assert(decimal(6) + "M"@ =~= "6M"@);
    assert(decimal(9) + "M"@ =~= "9M"@);
    assert(decimal(12) + "M"@ =~= "12M"@);
    assert(decimal(18) + "M"@ =~= "18M"@);
    assert(decimal(24) + "M"@ =~= "24M"@);
    assert(decimal(36) + "M"@ =~= "36M"@);
    assert(decimal(48) + "M"@ =~= "48M"@);
    assert(decimal(60) + "M"@ =~= "60M"@);
    assert(decimal(72) + "M"@ =~= "72M"@);
    assert(decimal(84) + "M"@ =~= "84M"@);
    assert(decimal(96) + "M"@ =~= "96M"@);
    assert(decimal(108) + "M"@ =~= "108M"@);
    assert(decimal(120) + "M"@ =~= "120M"@);
    assert(decimal(144) + "M"@ =~= "144M"@);
    assert(decimal(180) + "M"@ =~= "180M"@);
    assert(decimal(240) + "M"@ =~= "240M"@);
    assert(decimal(300) + "M"@ =~= "300M"@);
    assert(decimal(360) + "M"@ =~= "360M"@);
    assert(decimal(480) + "M"@ =~= "480M"@);
    assert(decimal(600) + "M"@ =~= "600M"@);
}

/// The code of every tenor is ASCII and parses back to that tenor.
pub proof fn lemma_tenor_code_parses(t: InstrumentTenor)
    ensures
        is_ascii_text(tenor_code(t)@),
        tenor_from_upper(ascii_uppercase(tenor_code(t)@)) == Some(t),
{
    reveal_strlit("ON");
    reveal_strlit("O/N");
    reveal_strlit("OVERNIGHT");
    reveal_strlit("1W");
    reveal_strlit("2W");
    reveal_strlit("1M");
    reveal_strlit("2M");
    reveal_strlit("3M");
    reveal_strlit("6M");
    reveal_strlit("9M");
    reveal_strlit("1Y");
    reveal_strlit("12M");
    reveal_strlit("18M");
    reveal_strlit("2Y");
    reveal_strlit("24M");
    reveal_strlit("3Y");
    reveal_strlit("36M");
    reveal_strlit("4Y");
    reveal_strlit("48M");
    reveal_strlit("5Y");
    reveal_strlit("60M");
    reveal_strlit("6Y");
    reveal_strlit("72M");
    reveal_strlit("7Y");
    reveal_strlit("84M");
    reveal_strlit("8Y");
    reveal_strlit("96M");
    reveal_strlit("9Y");
    reveal_strlit("108M");
    reveal_strlit("10Y");
    reveal_strlit("120M");
    reveal_strlit("12Y");
    reveal_strlit("144M");
    reveal_strlit("15Y");
    reveal_strlit("180M");
    reveal_strlit("20Y");
    reveal_strlit("240M");
    reveal_strlit("25Y");
    reveal_strlit("300M");
    reveal_strlit("30Y");
    reveal_strlit("360M");
    reveal_strlit("40Y");
    reveal_strlit("480M");
    reveal_strlit("50Y");
    reveal_strlit("600M");
    let c = tenor_code(t)@;
    assert(ascii_uppercase(c) =~= c);
    match t {
        InstrumentTenor::Overnight => {},
        InstrumentTenor::OneWeek => {
            assert(c[0] != "ON"@[0]);
        },
        InstrumentTenor::TwoWeeks => {
            assert(c[0] != "ON"@[0]);
            assert(c[0] != "1W"@[0]);
        },
        InstrumentTenor::OneMonth => {
            assert(c[0] != "ON"@[0]);
            assert(c[1] != "1W"@[1]);
            assert(c[0] != "2W"@[0]);
        },
        InstrumentTenor::TwoMonths => {
            assert(c[0] != "ON"@[0]);
            assert(c[0] != "1W"@[0]);
            assert(c[1] != "2W"@[1]);
            assert(c[0] != "1M"@[0]);
        },
        InstrumentTenor::ThreeMonths => {
            assert(c[0] != "ON"@[0]);
            assert(c[0] != "1W"@[0]);
            assert(c[0] != "2W"@[0]);
            assert(c[0] != "1M"@[0]);
            assert(c[0] != "2M"@[0]);
        },
        InstrumentTenor::SixMonths => {
            assert(c[0] != "ON"@[0]);
            assert(c[0] != "1W"@[0]);
            assert(c[0] != "2W"@[0]);
            assert(c[0] != "1M"@[0]);
            assert(c[0] != "2M"@[0]);
            assert(c[0] != "3M"@[0]);
        },
        InstrumentTenor::NineMonths => {
            assert(c[0] != "ON"@[0]);
            assert(c[0] != "1W"@[0]);
            assert(c[0] != "2W"@[0]);
            assert(c[0] != "1M"@[0]);
            assert(c[0] != "2M"@[0]);
            assert(c[0] != "3M"@[0]);
            assert(c[0] != "6M"@[0]);
        },
        InstrumentTenor::OneYear => {
            assert(c[0] != "ON"@[0]);
            assert(c[1] != "1W"@[1]);
            assert(c[0] != "2W"@[0]);
            assert(c[1] != "1M"@[1]);
            assert(c[0] != "2M"@[0]);
            assert(c[0] != "3M"@[0]);
            assert(c[0] != "6M"@[0]);
            assert(c[0] != "9M"@[0]);
        },
        InstrumentTenor::EighteenMonths => {
            assert(c[0] != "O/N"@[0]);
            assert(c[1] != "12M"@[1]);
        },
        InstrumentTenor::TwoYears => {
            assert(c[0] != "ON"@[0]);
            assert(c[0] != "1W"@[0]);
            assert(c[1] != "2W"@[1]);
            assert(c[0] != "1M"@[0]);
            assert(c[1] != "2M"@[1]);
            assert(c[0] != "3M"@[0]);
            assert(c[0] != "6M"@[0]);
            assert(c[0] != "9M"@[0]);
            assert(c[0] != "1Y"@[0]);
        },
        InstrumentTenor::ThreeYears => {
            assert(c[0] != "ON"@[0]);
            assert(c[0] != "1W"@[0]);
            assert(c[0] != "2W"@[0]);
            assert(c[0] != "1M"@[0]);
            assert(c[0] != "2M"@[0]);
            assert(c[1] != "3M"@[1]);
            assert(c[0] != "6M"@[0]);
            assert(c[0] != "9M"@[0]);
            assert(c[0] != "1Y"@[0]);
            assert(c[0] != "2Y"@[0]);
        },
        InstrumentTenor::FourYears => {
            assert(c[0] != "ON"@[0]);
            assert(c[0] != "1W"@[0]);
            assert(c[0] != "2W"@[0]);
            assert(c[0] != "1M"@[0]);
            assert(c[0] != "2M"@[0]);
            assert(c[0] != "3M"@[0]);
            assert(c[0] != "6M"@[0]);
            assert(c[0] != "9M"@[0]);
            assert(c[0] != "1Y"@[0]);
            assert(c[0] != "2Y"@[0]);
            assert(c[0] != "3Y"@[0]);
        },
        InstrumentTenor::FiveYears => {
            assert(c[0] != "ON"@[0]);
            assert(c[0] != "1W"@[0]);
            assert(c[0] != "2W"@[0]);
            assert(c[0] != "1M"@[0]);
            assert(c[0] != "2M"@[0]);
            assert(c[0] != "3M"@[0]);
            assert(c[0] != "6M"@[0]);
            assert(c[0] != "9M"@[0]);
            assert(c[0] != "1Y"@[0]);
            assert(c[0] != "2Y"@[0]);
            assert(c[0] != "3Y"@[0]);
            assert(c[0] != "4Y"@[0]);
        },
        InstrumentTenor::SixYears => {
            assert(c[0] != "ON"@[0]);
            assert(c[0] != "1W"@[0]);
            assert(c[0] != "2W"@[0]);
            assert(c[0] != "1M"@[0]);
            assert(c[0] != "2M"@[0]);
            assert(c[0] != "3M"@[0]);
            assert(c[1] != "6M"@[1]);
            assert(c[0] != "9M"@[0]);
            assert(c[0] != "1Y"@[0]);
            assert(c[0] != "2Y"@[0]);
            assert(c[0] != "3Y"@[0]);
            assert(c[0] != "4Y"@[0]);
            assert(c[0] != "5Y"@[0]);
        },
        InstrumentTenor::SevenYears => {
            assert(c[0] != "ON"@[0]);
            assert(c[0] != "1W"@[0]);
            assert(c[0] != "2W"@[0]);
            assert(c[0] != "1M"@[0]);
            assert(c[0] != "2M"@[0]);
            assert(c[0] != "3M"@[0]);
            assert(c[0] != "6M"@[0]);
            assert(c[0] != "9M"@[0]);
            assert(c[0] != "1Y"@[0]);
            assert(c[0] != "2Y"@[0]);
            assert(c[0] != "3Y"@[0]);
            assert(c[0] != "4Y"@[0]);
            assert(c[0] != "5Y"@[0]);
            assert(c[0] != "6Y"@[0]);
        },
        InstrumentTenor::EightYears => {
            assert(c[0] != "ON"@[0]);
            assert(c[0] != "1W"@[0]);
            assert(c[0] != "2W"@[0]);
            assert(c[0] != "1M"@[0]);
            assert(c[0] != "2M"@[0]);
            assert(c[0] != "3M"@[0]);
            assert(c[0] != "6M"@[0]);
            assert(c[0] != "9M"@[0]);
            assert(c[0] != "1Y"@[0]);
            assert(c[0] != "2Y"@[0]);
            assert(c[0] != "3Y"@[0]);
            assert(c[0] != "4Y"@[0]);
            assert(c[0] != "5Y"@[0]);
            assert(c[0] != "6Y"@[0]);
            assert(c[0] != "7Y"@[0]);
        },
        InstrumentTenor::NineYears => {
            assert(c[0] != "ON"@[0]);
            assert(c[0] != "1W"@[0]);
            assert(c[0] != "2W"@[0]);
            assert(c[0] != "1M"@[0]);
            assert(c[0] != "2M"@[0]);
            assert(c[0] != "3M"@[0]);
            assert(c[0] != "6M"@[0]);
            assert(c[1] != "9M"@[1]);
            assert(c[0] != "1Y"@[0]);
            assert(c[0] != "2Y"@[0]);
            assert(c[0] != "3Y"@[0]);
            assert(c[0] != "4Y"@[0]);
            assert(c[0] != "5Y"@[0]);
            assert(c[0] != "6Y"@[0]);
            assert(c[0] != "7Y"@[0]);
            assert(c[0] != "8Y"@[0]);
        },
        InstrumentTenor::TenYears => {
            assert(c[0] != "O/N"@[0]);
            assert(c[1] != "12M"@[1]);
            assert(c[1] != "18M"@[1]);
            assert(c[0] != "24M"@[0]);
            assert(c[0] != "36M"@[0]);
            assert(c[0] != "48M"@[0]);
            assert(c[0] != "60M"@[0]);
            assert(c[0] != "72M"@[0]);
            assert(c[0] != "84M"@[0]);
            assert(c[0] != "96M"@[0]);
        },
        InstrumentTenor::TwelveYears => {
            assert(c[0] != "O/N"@[0]);
            assert(c[2] != "12M"@[2]);
            assert(c[1] != "18M"@[1]);
            assert(c[0] != "24M"@[0]);
            assert(c[0] != "36M"@[0]);
            assert(c[0] != "48M"@[0]);
            assert(c[0] != "60M"@[0]);
            assert(c[0] != "72M"@[0]);
            assert(c[0] != "84M"@[0]);
            assert(c[0] != "96M"@[0]);
            assert(c[1] != "10Y"@[1]);
        },
        InstrumentTenor::FifteenYears => {
            assert(c[0] != "O/N"@[0]);
            assert(c[1] != "12M"@[1]);
            assert(c[1] != "18M"@[1]);
            assert(c[0] != "24M"@[0]);
            assert(c[0] != "36M"@[0]);
            assert(c[0] != "48M"@[0]);
            assert(c[0] != "60M"@[0]);
            assert(c[0] != "72M"@[0]);
            assert(c[0] != "84M"@[0]);
            assert(c[0] != "96M"@[0]);
            assert(c[1] != "10Y"@[1]);
            assert(c[1] != "12Y"@[1]);
        },
        InstrumentTenor::TwentyYears => {
            assert(c[0] != "O/N"@[0]);
            assert(c[0] != "12M"@[0]);
            assert(c[0] != "18M"@[0]);
            assert(c[1] != "24M"@[1]);
            assert(c[0] != "36M"@[0]);
            assert(c[0] != "48M"@[0]);
            assert(c[0] != "60M"@[0]);
            assert(c[0] != "72M"@[0]);
            assert(c[0] != "84M"@[0]);
            assert(c[0] != "96M"@[0]);
            assert(c[0] != "10Y"@[0]);
            assert(c[0] != "12Y"@[0]);
            assert(c[0] != "15Y"@[0]);
        },
        InstrumentTenor::TwentyFiveYears => {
            assert(c[0] != "O/N"@[0]);
            assert(c[0] != "12M"@[0]);
            assert(c[0] != "18M"@[0]);
            assert(c[1] != "24M"@[1]);
            assert(c[0] != "36M"@[0]);
            assert(c[0] != "48M"@[0]);
            assert(c[0] != "60M"@[0]);
            assert(c[0] != "72M"@[0]);
            assert(c[0] != "84M"@[0]);
            assert(c[0] != "96M"@[0]);
            assert(c[0] != "10Y"@[0]);
            assert(c[0] != "12Y"@[0]);
            assert(c[0] != "15Y"@[0]);
            assert(c[1] != "20Y"@[1]);
        },
        InstrumentTenor::ThirtyYears => {
            assert(c[0] != "O/N"@[0]);
            assert(c[0] != "12M"@[0]);
            assert(c[0] != "18M"@[0]);
            assert(c[0] != "24M"@[0]);
            assert(c[1] != "36M"@[1]);
            assert(c[0] != "48M"@[0]);
            assert(c[0] != "60M"@[0]);
            assert(c[0] != "72M"@[0]);
            assert(c[0] != "84M"@[0]);
            assert(c[0] != "96M"@[0]);
            assert(c[0] != "10Y"@[0]);
            assert(c[0] != "12Y"@[0]);
            assert(c[0] != "15Y"@[0]);
            assert(c[0] != "20Y"@[0]);
            assert(c[0] != "25Y"@[0]);
        },
        InstrumentTenor::FortyYears => {
            assert(c[0] != "O/N"@[0]);
            assert(c[0] != "12M"@[0]);
            assert(c[0] != "18M"@[0]);
            assert(c[0] != "24M"@[0]);
            assert(c[0] != "36M"@[0]);
            assert(c[1] != "48M"@[1]);
            assert(c[0] != "60M"@[0]);
            assert(c[0] != "72M"@[0]);
            assert(c[0] != "84M"@[0]);
            assert(c[0] != "96M"@[0]);
            assert(c[0] != "10Y"@[0]);
            assert(c[0] != "12Y"@[0]);
            assert(c[0] != "15Y"@[0]);
            assert(c[0] != "20Y"@[0]);
            assert(c[0] != "25Y"@[0]);
            assert(c[0] != "30Y"@[0]);
        },
        InstrumentTenor::FiftyYears => {
            assert(c[0] != "O/N"@[0]);
            assert(c[0] != "12M"@[0]);
            assert(c[0] != "18M"@[0]);
            assert(c[0] != "24M"@[0]);
            assert(c[0] != "36M"@[0]);
            assert(c[0] != "48M"@[0]);
            assert(c[0] != "60M"@[0]);
            assert(c[0] != "72M"@[0]);
            assert(c[0] != "84M"@[0]);
            assert(c[0] != "96M"@[0]);
            assert(c[0] != "10Y"@[0]);
            assert(c[0] != "12Y"@[0]);
            assert(c[0] != "15Y"@[0]);
            assert(c[0] != "20Y"@[0]);
            assert(c[0] != "25Y"@[0]);
            assert(c[0] != "30Y"@[0]);
            assert(c[0] != "40Y"@[0]);
        },
    }
}

/// The tenors of `all` ascend: each is later than the one before, and
/// never shorter in months.
pub proof fn lemma_all_tenors_ascending()
    ensures
        forall|i: int, j: int| 0 <= i < j < all_tenors().len() ==>
            tenor_rank(#[trigger] all_tenors()[i]) < tenor_rank(#[trigger] all_tenors()[j])
            && tenor_months(all_tenors()[i]) <= tenor_months(all_tenors()[j]),
        forall|i: int| 0 <= i < all_tenors().len() ==> tenor_rank(#[trigger] all_tenors()[i]) == i,
{
}

/// With no invalid instrument at or after `i`, there is no first one.
pub proof fn lemma_no_invalid_from(s: Seq<InstrumentSpec>, i: int)
    requires
        0 <= i,
        forall|j: int| i <= j < s.len() ==> spec_failure(#[trigger] s[j]) is None,
    ensures
        first_invalid_from(s, i) is None,
    decreases s.len() - i,
{
    if i < s.len() {
        lemma_no_invalid_from(s, i + 1);
    }
}

/// The default USD SOFR instruments are valid and already in strictly
/// ascending tenor order, so sorting them changes nothing.
pub proof fn lemma_default_sofr_valid_and_sorted()
    ensures
        definition_failure(default_sofr_instruments()) is None,
        forall|i: int, j: int| 0 <= i < j < default_sofr_instruments().len() ==>
            tenor_rank((#[trigger] default_sofr_instruments()[i]).tenor) < tenor_rank((#[trigger] default_sofr_instruments()[j]).tenor),
        is_stable_tenor_sort(default_sofr_instruments(), default_sofr_instruments()),
{
    let specs = default_sofr_instruments();
    lemma_no_invalid_from(specs, 0);
    let keys = spec_tenors(specs);
    let perm = Seq::new(specs.len(), |i: int| i as usize);
    assert forall|i: usize| i < specs.len() implies perm.contains(i) by {
        assert(perm[i as int] == i);
    }
    assert(is_permutation(perm, keys.len() as int));
    assert(stably_sorts(keys, perm));
    assert(forall|k: int| 0 <= k < perm.len() ==> specs[k] == specs[perm[k] as int]);
}

// --- stable ordering by tenor ------------------------------------------------------

/// `(rank, position)` of entry `p` comes strictly before that of entry `q`.
pub open spec fn tenor_position_before(keys: Seq<InstrumentTenor>, p: usize, q: usize) -> bool {
    tenor_rank(keys[p as int]) < tenor_rank(keys[q as int])
        || (tenor_rank(keys[p as int]) == tenor_rank(keys[q as int]) && p < q)
}

/// `perm` lists the positions of `keys` ordered by tenor, ties kept in
/// their input order (a stable sort).
pub open spec fn stably_sorts(keys: Seq<InstrumentTenor>, perm: Seq<usize>) -> bool {
    &&& is_permutation(perm, keys.len() as int)
    &&& forall|a: int, b: int| 0 <= a < b < perm.len() ==> tenor_position_before(keys, #[trigger] perm[a], #[trigger] perm[b])
}

/// The positions of `keys`, stably sorted by tenor.
pub fn stable_tenor_order(keys: &Vec<InstrumentTenor>) -> (perm: Vec<usize>)
    ensures
        stably_sorts(keys@, perm@),
{
    let n = keys.len();
    let mut perm: Vec<usize> = Vec::new();
    let mut r: u8 = 0;
    while r < 26
        invariant
            r <= 26,
            n == keys.len(),
            forall|p: int| 0 <= p < perm.len() ==> perm[p] < n && tenor_rank(keys[perm[p] as int]) < r,
            forall|i: usize| i < n && tenor_rank(keys[i as int]) < r ==> perm@.contains(i),
            forall|a: int, b: int| 0 <= a < b < perm.len() ==> tenor_position_before(keys@, #[trigger] perm[a], #[trigger] perm[b]),
        decreases 26 - r,
    {
        let mut i: usize = 0;
        while i < n
            invariant
                r < 26,
                i <= n,
                n == keys.len(),
                forall|p: int| 0 <= p < perm.len() ==> perm[p] < n && (tenor_rank(keys[perm[p] as int]) < r
                    || (tenor_rank(keys[perm[p] as int]) == r && perm[p] < i)),
                forall|j: usize| j < n && (tenor_rank(keys[j as int]) < r
                    || (tenor_rank(keys[j as int]) == r && j < i)) ==> perm@.contains(j),
                forall|a: int, b: int| 0 <= a < b < perm.len() ==> tenor_position_before(keys@, #[trigger] perm[a], #[trigger] perm[b]),
            decreases n - i,
        {
            if keys[i].rank() == r {
                let ghost before = perm@;
                perm.push(i);
                proof {
                    assert forall|j: usize| j < n && (tenor_rank(keys[j as int]) < r
                        || (tenor_rank(keys[j as int]) == r && j < i + 1)) implies perm@.contains(j) by {
                        lemma_push_contains(before, i, j);
                    }
                }
            }
            i = i + 1;
        }
        r = r + 1;
    }
    proof {
        assert forall|i: usize| i < n implies perm@.contains(i) by {
            assert(tenor_rank(keys[i as int]) < 26);
        }
        assert(perm@.no_duplicates()) by {
            assert forall|a: int, b: int| 0 <= a < perm.len() && 0 <= b < perm.len() && a != b
                implies perm[a] != perm[b] by {
                if a < b {
                    assert(tenor_position_before(keys@, perm[a], perm[b]));
                } else {
                    assert(tenor_position_before(keys@, perm[b], perm[a]));
                }
            }
        }
        lemma_distinct_below(perm@, n as nat);
        if perm.len() < n {
            let v = lemma_missing_below(perm@, n as nat);
            assert(perm@.contains(v));
        }
    }
    perm
}

/// Sorting positions stably by tenor has one outcome: two stable orders of
/// the same keys are equal.
pub proof fn lemma_stable_order_unique(keys: Seq<InstrumentTenor>, p1: Seq<usize>, p2: Seq<usize>)
    requires
        stably_sorts(keys, p1),
        stably_sorts(keys, p2),
    ensures
        p1 == p2,
{
    let n = keys.len() as int;
    assert forall|k: int| 0 <= k < n implies p1[k] == p2[k] by {
        lemma_stable_orders_agree_upto(keys, p1, p2, k);
    }
    assert(p1 =~= p2);
}

proof fn lemma_stable_orders_agree_upto(keys: Seq<InstrumentTenor>, p1: Seq<usize>, p2: Seq<usize>, k: int)
    requires
        stably_sorts(keys, p1),
        stably_sorts(keys, p2),
        0 <= k < keys.len(),
    ensures
        p1[k] == p2[k],
    decreases k,
{
    let n = keys.len() as int;
    let x = p1[k];
    let y = p2[k];
    assert(p2.contains(x));
    assert(p1.contains(y));
    let j = choose|j: int| 0 <= j < n && p2[j] == x;
    let i = choose|i: int| 0 <= i < n && p1[i] == y;
    if j < k {
        lemma_stable_orders_agree_upto(keys, p1, p2, j);
        assert(p1[j] == x);
    }
    if i < k {
        lemma_stable_orders_agree_upto(keys, p1, p2, i);
        assert(p2[i] == y);
    }
    if x != y {
        assert(j != k);
        assert(i != k);
        assert(tenor_position_before(keys, p2[k], p2[j]));
        assert(tenor_position_before(keys, p1[k], p1[i]));
    }
}

/// The tenors of a list of specifications.
pub open spec fn spec_tenors(s: Seq<InstrumentSpec>) -> Seq<InstrumentTenor> {
    s.map_values(|x: InstrumentSpec| x.tenor)
}

/// `sorted` is `specs` stably sorted by tenor.
pub open spec fn is_stable_tenor_sort(specs: Seq<InstrumentSpec>, sorted: Seq<InstrumentSpec>) -> bool {
    exists|perm: Seq<usize>| #[trigger] stably_sorts(spec_tenors(specs), perm)
        && sorted.len() == perm.len()
        && forall|k: int| 0 <= k < perm.len() ==> sorted[k] == specs[perm[k] as int]
}

/// A list of specifications has one stable sort by tenor.
pub proof fn lemma_stable_tenor_sort_unique(specs: Seq<InstrumentSpec>, s1: Seq<InstrumentSpec>, s2: Seq<InstrumentSpec>)
    requires
        is_stable_tenor_sort(specs, s1),
        is_stable_tenor_sort(specs, s2),
    ensures
        s1 == s2,
{
    let p1 = choose|perm: Seq<usize>| #[trigger] stably_sorts(spec_tenors(specs), perm)
        && s1.len() == perm.len() && forall|k: int| 0 <= k < perm.len() ==> s1[k] == specs[perm[k] as int];
    let p2 = choose|perm: Seq<usize>| #[trigger] stably_sorts(spec_tenors(specs), perm)
        && s2.len() == perm.len() && forall|k: int| 0 <= k < perm.len() ==> s2[k] == specs[perm[k] as int];
    lemma_stable_order_unique(spec_tenors(specs), p1, p2);
    assert(s1 =~= s2);
}

fn tenors_of(specs: &Vec<InstrumentSpec>) -> (r: Vec<InstrumentTenor>)
    ensures
        r@ == spec_tenors(specs@),
{
    let mut r: Vec<InstrumentTenor> = Vec::new();
    let mut i: usize = 0;
    while i < specs.len()
        invariant
            i <= specs.len(),
            r@ == spec_tenors(specs@.subrange(0, i as int)),
        decreases specs.len() - i,
    {
        r.push(specs[i].tenor);
        proof {
            assert(spec_tenors(specs@.subrange(0, i + 1)) =~= spec_tenors(specs@.subrange(0, i as int)).push(specs@[i as int].tenor));
        }
        i = i + 1;
    }
    proof {
        assert(specs@.subrange(0, specs.len() as int) =~= specs@);
    }
    r
}

// --- curve definitions ----------------------------------------------------------

/// The instruments of the default USD SOFR curve: OIS at 1M, 3M, 6M, 1Y,
/// 2Y, 3Y, 5Y, 7Y, 10Y, 15Y, 20Y and 30Y.
pub open spec fn default_sofr_instruments() -> Seq<InstrumentSpec> {
    seq![
        ois_spec(InstrumentTenor::OneMonth), ois_spec(InstrumentTenor::ThreeMonths),
        ois_spec(InstrumentTenor::SixMonths), ois_spec(InstrumentTenor::OneYear),
        ois_spec(InstrumentTenor::TwoYears), ois_spec(InstrumentTenor::ThreeYears),
        ois_spec(InstrumentTenor::FiveYears), ois_spec(InstrumentTenor::SevenYears),
        ois_spec(InstrumentTenor::TenYears), ois_spec(InstrumentTenor::FifteenYears),
        ois_spec(InstrumentTenor::TwentyYears), ois_spec(InstrumentTenor::ThirtyYears)
    ]
}

/// An OIS specification at a tenor.
pub open spec fn ois_spec(tenor: InstrumentTenor) -> InstrumentSpec {
    InstrumentSpec { instrument_type: CurveInstrumentType::Ois, tenor, convexity_adjustment: None }
}

/// The first invalid instrument at or after position `i`.
pub open spec fn first_invalid_from(s: Seq<InstrumentSpec>, i: int) -> Option<int>
    decreases s.len() - i,
{
    if i >= s.len() || i < 0 {
        None
    } else if spec_failure(s[i]) is Some {
        Some(i)
    } else {
        first_invalid_from(s, i + 1)
    }
}

/// Why a list of instruments does not make a valid curve definition, if it does not.
pub open spec fn definition_failure(s: Seq<InstrumentSpec>) -> Option<Seq<char>> {
    if s.len() == 0 {
        Some("Curve definition must have at least one instrument"@)
    } else {
        match first_invalid_from(s, 0) {
            Some(i) => Some("Instrument "@ + decimal(i as nat) + " validation failed: "@ + spec_failure(s[i]).unwrap()),
            None => None,
        }
    }
}

/// Definition of a yield curve: the rate index it belongs to and the
/// instruments it is bootstrapped from.
#[derive(Debug, Clone)]
pub struct CurveDefinition {
    index_key: String,
    rate_index: RateIndex,
    instruments: Vec<InstrumentSpec>,
    convention: SwapConvention,
}

impl CurveDefinition {
    /// The curve identifier (e.g. "USD-SOFR").
    pub closed spec fn key(&self) -> Seq<char> {
        self.index_key@
    }

    /// The rate index.
    pub closed spec fn index(&self) -> RateIndex {
        self.rate_index
    }

    /// The instrument specifications, in insertion order.
    pub closed spec fn specs(&self) -> Seq<InstrumentSpec> {
        self.instruments@
    }

    /// The swap convention.
    pub closed spec fn swap_convention(&self) -> SwapConvention {
        self.convention
    }

    /// A definition without instruments.
    pub fn new(index_key: &str, rate_index: RateIndex, convention: SwapConvention) -> (r: Self)
        ensures
            r.key() == index_key@,
            r.index() == rate_index,
            r.specs() == Seq::<InstrumentSpec>::empty(),
            r.swap_convention() == convention,
    {
        CurveDefinition {
            index_key: index_key.to_owned(),
            rate_index,
            instruments: Vec::new(),
            convention,
        }
    }

    /// A definition with the given instruments.
    pub fn with_instruments(
        index_key: &str,
        rate_index: RateIndex,
        convention: SwapConvention,
        instruments: Vec<InstrumentSpec>,
    ) -> (r: Self)
        ensures
            r.key() == index_key@,
            r.index() == rate_index,
            r.specs() == instruments@,
            r.swap_convention() == convention,
    {
        CurveDefinition { index_key: index_key.to_owned(), rate_index, instruments, convention }
    }

    /// Adds an instrument specification.
    pub fn with_instrument(self, spec: InstrumentSpec) -> (r: Self)
        ensures
            r.key() == self.key(),
            r.index() == self.index(),
            r.specs() == self.specs().push(spec),
            r.swap_convention() == self.swap_convention(),
    {
        let mut this = self;
        this.instruments.push(spec);
        this
    }

    /// Adds several instrument specifications, in order.
    pub fn with_instruments_iter(self, specs: Vec<InstrumentSpec>) -> (r: Self)
        ensures
            r.key() == self.key(),
            r.index() == self.index(),
            r.specs() == self.specs() + specs@,
            r.swap_convention() == self.swap_convention(),
    {
        let mut this = self;
        let mut more = specs;
        this.instruments.append(&mut more);
        this
    }

    /// The curve identifier.
    pub fn index_key(&self) -> (r: &str)
        ensures
            r@ == self.key(),
    {
        self.index_key.as_str()
    }

    /// The rate index.
    pub fn rate_index(&self) -> (r: RateIndex)
        ensures
            r == self.index(),
    {
        self.rate_index
    }

    /// The instrument specifications.
    pub fn instruments(&self) -> (r: &[InstrumentSpec])
        ensures
            r@ == self.specs(),
    {
        self.instruments.as_slice()
    }

    /// The swap convention.
    pub fn convention(&self) -> (r: &SwapConvention)
        ensures
            *r == self.swap_convention(),
    {
        &self.convention
    }

    /// The instrument specifications sorted by tenor (stable).
    pub fn sorted_instruments(&self) -> (r: Vec<&InstrumentSpec>)
        ensures
            is_stable_tenor_sort(self.specs(), r@.map_values(|x: &InstrumentSpec| *x)),
            r.len() == self.specs().len(),
            forall|a: int, b: int| 0 <= a < b < r.len() ==> tenor_rank(r@[a].tenor) <= tenor_rank(r@[b].tenor),
    {
        let keys = tenors_of(&self.instruments);
        let perm = stable_tenor_order(&keys);
        let mut out: Vec<&InstrumentSpec> = Vec::new();
        let mut k: usize = 0;
        while k < perm.len()
            invariant
                k <= perm.len(),
                keys@ == spec_tenors(self.specs()),
                stably_sorts(keys@, perm@),
                out.len() == k,
                forall|j: int| 0 <= j < k ==> *out@[j] == self.specs()[perm[j] as int],
            decreases perm.len() - k,
        {
            out.push(&self.instruments[perm[k]]);
            k = k + 1;
        }
        proof {
            let plain = out@.map_values(|x: &InstrumentSpec| *x);
            assert(stably_sorts(spec_tenors(self.specs()), perm@));
            assert forall|a: int, b: int| 0 <= a < b < out.len() implies tenor_rank(out@[a].tenor) <= tenor_rank(out@[b].tenor) by {
                assert(tenor_position_before(keys@, perm[a], perm[b]));
            }
        }
        out
    }

    /// The instrument specifications sorted by tenor (stable), as owned values.
    pub fn sorted_instruments_owned(&self) -> (r: Vec<InstrumentSpec>)
        ensures
            is_stable_tenor_sort(self.specs(), r@),
            r.len() == self.specs().len(),
            forall|a: int, b: int| 0 <= a < b < r.len() ==> tenor_rank(r@[a].tenor) <= tenor_rank(r@[b].tenor),
    {
        let keys = tenors_of(&self.instruments);
        let perm = stable_tenor_order(&keys);
        let mut out: Vec<InstrumentSpec> = Vec::new();
        let mut k: usize = 0;
        while k < perm.len()
            invariant
                k <= perm.len(),
                keys@ == spec_tenors(self.specs()),
                stably_sorts(keys@, perm@),
                out.len() == k,
                forall|j: int| 0 <= j < k ==> out@[j] == self.specs()[perm[j] as int],
            decreases perm.len() - k,
        {
            out.push(self.instruments[perm[k]]);
            k = k + 1;
        }
        proof {
            assert(stably_sorts(spec_tenors(self.specs()), perm@));
            assert forall|a: int, b: int| 0 <= a < b < out.len() implies tenor_rank(out@[a].tenor) <= tenor_rank(out@[b].tenor) by {
                assert(tenor_position_before(keys@, perm[a], perm[b]));
            }
        }
        out
    }

    /// The number of instruments.
    pub fn len(&self) -> (r: usize)
        ensures
            r == self.specs().len(),
    {
        self.instruments.len()
    }

    /// True when there are no instruments.
    pub fn is_empty(&self) -> (r: bool)
        ensures
            r == (self.specs().len() == 0),
    {
        self.instruments.len() == 0
    }

    /// Checks the definition: at least one instrument, every instrument valid.
    pub fn validate(&self) -> (r: Result<(), String>)
        ensures
            match definition_failure(self.specs()) {
                Some(m) => r matches Err(e) && e@ == m,
                None => r is Ok,
            },
    {
        if self.instruments.len() == 0 {
            return Err(String::from_str("Curve definition must have at least one instrument"));
        }
        let mut i: usize = 0;
        while i < self.instruments.len()
            invariant
                i <= self.instruments.len(),
                self.instruments@ == self.specs(),
                first_invalid_from(self.specs(), 0) == first_invalid_from(self.specs(), i as int),
            decreases self.instruments.len() - i,
        {
            match self.instruments[i].validate() {
                Err(e) => {
                    let mut m = String::from_str("Instrument ");
                    let idx = usize_to_string(i);
                    m.append(idx.as_str());
                    m.append(" validation failed: ");
                    m.append(e.as_str());
                    return Err(m);
                },
                Ok(()) => {},
            }
            i = i + 1;
        }
        Ok(())
    }

    /// A definition read from configuration, accepted when it validates;
    /// otherwise a configuration error on the field "definition" that
    /// carries the validation message.
    pub fn validated(self) -> (r: Result<Self, CurveEngineError>)
        ensures
            match definition_failure(self.specs()) {
                None => r matches Ok(d) && d == self,
                Some(m) => r matches Err(CurveEngineError::Configuration { field, reason })
                    && field@ == "definition"@ && reason@ == m,
            },
    {
        match self.validate() {
            Ok(()) => Ok(self),
            Err(e) => Err(CurveEngineError::configuration("definition", e.as_str())),
        }
    }

    /// The default USD SOFR OIS curve definition with standard tenors.
    pub fn default_usd_sofr() -> (r: Self)
        ensures
            r.key() == "USD-SOFR"@,
            r.index() == RateIndex::Sofr,
            r.specs() == default_sofr_instruments(),
            r.swap_convention() == crate::convention::usd_sofr_convention(),
    {
        Self::with_instruments(
            "USD-SOFR",
            RateIndex::Sofr,
            SwapConvention::usd_sofr(),
            vec![
                InstrumentSpec::ois(InstrumentTenor::OneMonth),
                InstrumentSpec::ois(InstrumentTenor::ThreeMonths),
                InstrumentSpec::ois(InstrumentTenor::SixMonths),
                InstrumentSpec::ois(InstrumentTenor::OneYear),
                InstrumentSpec::ois(InstrumentTenor::TwoYears),
                InstrumentSpec::ois(InstrumentTenor::ThreeYears),
                InstrumentSpec::ois(InstrumentTenor::FiveYears),
                InstrumentSpec::ois(InstrumentTenor::SevenYears),
                InstrumentSpec::ois(InstrumentTenor::TenYears),
                InstrumentSpec::ois(InstrumentTenor::FifteenYears),
                InstrumentSpec::ois(InstrumentTenor::TwentyYears),
                InstrumentSpec::ois(InstrumentTenor::ThirtyYears),
            ],
        )
    }

    /// The default definition of a known rate index (only SOFR has one).
    pub fn default_for_index(index: RateIndex) -> (r: Option<Self>)
        ensures
            index == RateIndex::Sofr ==> (r matches Some(d) && d.key() == "USD-SOFR"@
                && d.index() == RateIndex::Sofr && d.specs() == default_sofr_instruments()
                && d.swap_convention() == crate::convention::usd_sofr_convention()),
            index != RateIndex::Sofr ==> r is None,
    {
        match index {
            RateIndex::Sofr => Some(Self::default_usd_sofr()),
            _ => None,
        }
    }

    /// The default definition of a rate index, or an unknown-index error.
    pub fn require_default_for_index(index: RateIndex) -> (r: Result<Self, CurveEngineError>)
        ensures
            index == RateIndex::Sofr ==> (r matches Ok(d) && d.key() == "USD-SOFR"@
                && d.index() == RateIndex::Sofr && d.specs() == default_sofr_instruments()
                && d.swap_convention() == crate::convention::usd_sofr_convention()),
            index != RateIndex::Sofr ==> (r matches Err(CurveEngineError::UnknownIndex(m))
                && m@ == rate_index_name(index)@),
    {
        match Self::default_for_index(index) {
            Some(d) => Ok(d),
            None => Err(CurveEngineError::unknown_index(index.name())),
        }
    }

    /// The text that `{}` prints: "CurveDefinition(<key>, <n> instruments)".
    pub fn to_display_string(&self) -> (r: String)
        ensures
            r@ == "CurveDefinition("@ + self.key() + ", "@ + decimal(self.specs().len()) + " instruments)"@,
    {
        let mut s = String::from_str("CurveDefinition(");
        s.append(self.index_key.as_str());
        s.append(", ");
        let n = usize_to_string(self.instruments.len());
        s.append(n.as_str());
        s.append(" instruments)");
        s
    }
}

} // verus!
