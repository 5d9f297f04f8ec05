//! Conversion of a curve definition and its quoted rates into the
//! instruments a curve is bootstrapped from.
use vstd::prelude::*;
use crate::convention::{PaymentFrequency, SwapConvention};
use crate::curves::Frequency;
use crate::definition::{
    CurveDefinition, CurveInstrumentType, InstrumentSpec, InstrumentTenor, is_stable_tenor_sort,
    lemma_stable_order_unique, lemma_stable_tenor_sort_unique, stable_tenor_order, stably_sorts,
    tenor_code, tenor_rank,
};
use crate::engine_error::CurveEngineError;
use crate::text::{decimal, usize_to_string};

verus! {

/// An instrument a curve is fitted to. Its maturity is its tenor; its quote
/// is of the caller's numeric type.
#[derive(Debug, Clone, Copy, PartialEq)]
pub enum BootstrapInstrument<T> {
    /// Overnight index swap with the payment frequency of its fixed leg.
    Ois { tenor: InstrumentTenor, rate: T, payment_frequency: Frequency },
    /// Interest rate swap with the payment frequencies of both legs.
    Irs { tenor: InstrumentTenor, rate: T, fixed_frequency: Frequency, float_frequency: Frequency },
    /// Forward rate agreement from today to its tenor.
    Fra { tenor: InstrumentTenor, rate: T },
    /// Interest rate future quoted as a price, with the bit pattern of its
    /// convexity adjustment.
    Future { tenor: InstrumentTenor, price: T, convexity_adjustment: u64 },
}

/// The maturity of an instrument.
pub open spec fn instrument_tenor<T>(i: BootstrapInstrument<T>) -> InstrumentTenor {
    match i {
        BootstrapInstrument::Ois { tenor, .. } => tenor,
        BootstrapInstrument::Irs { tenor, .. } => tenor,
        BootstrapInstrument::Fra { tenor, .. } => tenor,
        BootstrapInstrument::Future { tenor, .. } => tenor,
    }
}

/// The quote of an instrument: its rate, or its price for a future.
pub open spec fn instrument_quote<T>(i: BootstrapInstrument<T>) -> T {
    match i {
        BootstrapInstrument::Ois { rate, .. } => rate,
        BootstrapInstrument::Irs { rate, .. } => rate,
        BootstrapInstrument::Fra { rate, .. } => rate,
        BootstrapInstrument::Future { price, .. } => price,
    }
}

impl<T: Copy> BootstrapInstrument<T> {
    /// The maturity tenor.
    pub fn tenor(&self) -> (r: InstrumentTenor)
        ensures
            r == instrument_tenor(*self),
    {
        match self {
            BootstrapInstrument::Ois { tenor, .. } => *tenor,
            BootstrapInstrument::Irs { tenor, .. } => *tenor,
            BootstrapInstrument::Fra { tenor, .. } => *tenor,
            BootstrapInstrument::Future { tenor, .. } => *tenor,
        }
    }

    /// The quoted rate (the price, for a future).
    pub fn rate(&self) -> (r: T)
        ensures
            r == instrument_quote(*self),
    {
        match self {
            BootstrapInstrument::Ois { rate, .. } => *rate,
            BootstrapInstrument::Irs { rate, .. } => *rate,
            BootstrapInstrument::Fra { rate, .. } => *rate,
            BootstrapInstrument::Future { price, .. } => *price,
        }
    }

    /// True for an overnight index swap.
    pub fn is_ois(&self) -> (r: bool)
        ensures
            r == (*self is Ois),
    {
        matches!(self, BootstrapInstrument::Ois { .. })
    }

    /// True for an interest rate swap.
    pub fn is_irs(&self) -> (r: bool)
        ensures
            r == (*self is Irs),
    {
        matches!(self, BootstrapInstrument::Irs { .. })
    }

    /// True for a forward rate agreement.
    pub fn is_fra(&self) -> (r: bool)
        ensures
            r == (*self is Fra),
    {
        matches!(self, BootstrapInstrument::Fra { .. })
    }

    /// True for a future.
    pub fn is_future(&self) -> (r: bool)
        ensures
            r == (*self is Future),
    {
        matches!(self, BootstrapInstrument::Future { .. })
    }
}

/// The bootstrap frequency of a leg's payment frequency; weekly legs have none.
pub open spec fn bootstrap_frequency(f: PaymentFrequency) -> Option<Frequency> {
    match f {
        PaymentFrequency::Annual => Some(Frequency::Annual),
        PaymentFrequency::SemiAnnual => Some(Frequency::SemiAnnual),
        PaymentFrequency::Quarterly => Some(Frequency::Quarterly),
        PaymentFrequency::Monthly => Some(Frequency::Monthly),
        PaymentFrequency::Daily => Some(Frequency::Daily),
        PaymentFrequency::Weekly => None,
    }
}

/// The error for a leg that pays weekly.
pub open spec fn is_unsupported_frequency_error(e: CurveEngineError) -> bool {
    e matches CurveEngineError::Configuration { field, reason } && field@ == "frequency"@
        && reason@ == "Weekly frequency is not supported for bootstrap instruments"@
}

/// The instrument a specification becomes at a quote under a convention:
/// swaps take their leg frequencies from the convention (none if a needed
/// leg pays weekly), FRAs run from today to the tenor, futures carry their
/// convexity adjustment (zero if none) and deposits are single-period OIS.
pub open spec fn instrument_for<T>(spec: InstrumentSpec, quote: T, conv: SwapConvention) -> Option<BootstrapInstrument<T>> {
    match spec.instrument_type {
        CurveInstrumentType::Ois => match bootstrap_frequency(conv.fixed_leg.payment_frequency) {
            Some(f) => Some(BootstrapInstrument::Ois { tenor: spec.tenor, rate: quote, payment_frequency: f }),
            None => None,
        },
        CurveInstrumentType::Irs => match (
            bootstrap_frequency(conv.fixed_leg.payment_frequency),
            bootstrap_frequency(conv.float_leg.payment_frequency),
        ) {
            (Some(fixed), Some(float)) => Some(BootstrapInstrument::Irs {
                tenor: spec.tenor,
                rate: quote,
                fixed_frequency: fixed,
                float_frequency: float,
            }),
            _ => None,
        },
        CurveInstrumentType::Fra => Some(BootstrapInstrument::Fra { tenor: spec.tenor, rate: quote }),
        CurveInstrumentType::Future => Some(BootstrapInstrument::Future {
            tenor: spec.tenor,
            price: quote,
            convexity_adjustment: match spec.convexity_adjustment {
                Some(bits) => bits,
                None => 0,
            },
        }),
        CurveInstrumentType::Deposit => Some(
            BootstrapInstrument::Ois { tenor: spec.tenor, rate: quote, payment_frequency: Frequency::Annual },
        ),
    }
}

/// What a specification becomes: an instrument at the specification's tenor
/// and quote, of the kind its type names (deposits become OIS). A swap's
/// fixed leg pays at the frequency of the convention's fixed leg and its
/// floating leg at that of the convention's floating leg; an OIS pays at the
/// fixed leg's frequency, a deposit once a year. There is no instrument
/// exactly when a leg the instrument needs pays weekly.
pub proof fn lemma_instrument_for_fields<T>(spec: InstrumentSpec, quote: T, conv: SwapConvention)
    ensures
        instrument_for(spec, quote, conv) matches Some(i) ==> instrument_tenor(i) == spec.tenor
            && instrument_quote(i) == quote,
        spec.instrument_type == CurveInstrumentType::Irs ==> match instrument_for(spec, quote, conv) {
            Some(i) => i matches BootstrapInstrument::Irs { fixed_frequency, float_frequency, .. }
                && bootstrap_frequency(conv.fixed_leg.payment_frequency) == Some(fixed_frequency)
                && bootstrap_frequency(conv.float_leg.payment_frequency) == Some(float_frequency),
            None => conv.fixed_leg.payment_frequency == PaymentFrequency::Weekly
                || conv.float_leg.payment_frequency == PaymentFrequency::Weekly,
        },
        spec.instrument_type == CurveInstrumentType::Ois ==> match instrument_for(spec, quote, conv) {
            Some(i) => i matches BootstrapInstrument::Ois { payment_frequency, .. }
                && bootstrap_frequency(conv.fixed_leg.payment_frequency) == Some(payment_frequency),
            None => conv.fixed_leg.payment_frequency == PaymentFrequency::Weekly,
        },
        spec.instrument_type == CurveInstrumentType::Deposit ==> (instrument_for(spec, quote, conv) matches Some(i)
            && i matches BootstrapInstrument::Ois { payment_frequency, .. } && payment_frequency == Frequency::Annual),
        spec.instrument_type == CurveInstrumentType::Fra ==> (instrument_for(spec, quote, conv) matches Some(i)
            && i is Fra),
        spec.instrument_type == CurveInstrumentType::Future ==> (instrument_for(spec, quote, conv) matches Some(i)
            && i matches BootstrapInstrument::Future { convexity_adjustment, .. }
            && (spec.convexity_adjustment matches Some(a) ==> convexity_adjustment == a)
            && (spec.convexity_adjustment is None ==> convexity_adjustment == 0)),
{
}

/// A leg frequency has a bootstrap frequency unless it is weekly, and
/// different leg frequencies have different bootstrap frequencies.
pub proof fn lemma_bootstrap_frequency(a: PaymentFrequency, b: PaymentFrequency)
    ensures
        bootstrap_frequency(a) is None <==> a == PaymentFrequency::Weekly,
        bootstrap_frequency(a) is Some && bootstrap_frequency(a) == bootstrap_frequency(b) ==> a == b,
{
}

/// `r` is the instrument `expected`, or the weekly-frequency error where there is none.
pub open spec fn yields_instrument<T>(
    r: Result<BootstrapInstrument<T>, CurveEngineError>,
    expected: Option<BootstrapInstrument<T>>,
) -> bool {
    match expected {
        Some(i) => r matches Ok(x) && x == i,
        None => r matches Err(e) && is_unsupported_frequency_error(e),
    }
}

/// The tenors of quoted rates.
pub open spec fn rate_tenors<T>(rates: Seq<(InstrumentTenor, T)>) -> Seq<InstrumentTenor> {
    rates.map_values(|p: (InstrumentTenor, T)| p.0)
}

/// `sorted` is `rates` stably sorted by tenor.
pub open spec fn is_stable_rate_sort<T>(rates: Seq<(InstrumentTenor, T)>, sorted: Seq<(InstrumentTenor, T)>) -> bool {
    exists|perm: Seq<usize>| #[trigger] stably_sorts(rate_tenors(rates), perm)
        && sorted.len() == perm.len()
        && forall|k: int| 0 <= k < perm.len() ==> sorted[k] == rates[perm[k] as int]
}

/// A list of quoted rates has one stable sort by tenor.
pub proof fn lemma_stable_rate_sort_unique<T>(
    rates: Seq<(InstrumentTenor, T)>,
    s1: Seq<(InstrumentTenor, T)>,
    s2: Seq<(InstrumentTenor, T)>,
)
    requires
        is_stable_rate_sort(rates, s1),
        is_stable_rate_sort(rates, s2),
    ensures
        s1 == s2,
{
    let p1 = choose|perm: Seq<usize>| #[trigger] stably_sorts(rate_tenors(rates), perm)
        && s1.len() == perm.len() && forall|k: int| 0 <= k < perm.len() ==> s1[k] == rates[perm[k] as int];
    let p2 = choose|perm: Seq<usize>| #[trigger] stably_sorts(rate_tenors(rates), perm)
        && s2.len() == perm.len() && forall|k: int| 0 <= k < perm.len() ==> s2[k] == rates[perm[k] as int];
    lemma_stable_order_unique(rate_tenors(rates), p1, p2);
    assert(s1 =~= s2);
}

/// The first position, at or after `i`, where a sorted instrument and a
/// sorted rate disagree on the tenor.
pub open spec fn first_tenor_mismatch_from<T>(
    ss: Seq<InstrumentSpec>,
    sr: Seq<(InstrumentTenor, T)>,
    i: int,
) -> Option<int>
    decreases ss.len() - i,
{
    if i < 0 || i >= ss.len() {
        None
    } else if ss[i].tenor != sr[i].0 {
        Some(i)
    } else {
        first_tenor_mismatch_from(ss, sr, i + 1)
    }
}

/// Every sorted instrument converts at its rate.
pub open spec fn all_convertible<T>(ss: Seq<InstrumentSpec>, sr: Seq<(InstrumentTenor, T)>, conv: SwapConvention) -> bool {
    forall|k: int| 0 <= k < ss.len() ==> (#[trigger] instrument_for(ss[k], sr[k].1, conv)) is Some
}

/// The message when the number of rates differs from the number of instruments.
pub open spec fn rate_count_message(n: nat, key: Seq<char>, m: nat) -> Seq<char> {
    "Expected "@ + decimal(n) + " rates for "@ + key + " instruments, got "@ + decimal(m)
}

/// The message when a rate's tenor differs from its instrument's.
pub open spec fn tenor_mismatch_message(rate_tenor: InstrumentTenor, spec_tenor: InstrumentTenor) -> Seq<char> {
    "Rate tenor "@ + tenor_code(rate_tenor)@ + " doesn't match instrument tenor "@ + tenor_code(spec_tenor)@
}

/// What converting the sorted instruments `ss` at the sorted rates `sr`
/// gives: the first tenor mismatch is an instrument error; otherwise a leg
/// paying weekly is a configuration error; otherwise the instruments, in order.
pub open spec fn conversion_outcome<T>(
    ss: Seq<InstrumentSpec>,
    sr: Seq<(InstrumentTenor, T)>,
    conv: SwapConvention,
    r: Result<Vec<BootstrapInstrument<T>>, CurveEngineError>,
) -> bool {
    match first_tenor_mismatch_from(ss, sr, 0) {
        Some(i) => r matches Err(CurveEngineError::Instrument { tenor, reason })
            && tenor@ == tenor_code(ss[i].tenor)@
            && reason@ == tenor_mismatch_message(sr[i].0, ss[i].tenor),
        None => if all_convertible(ss, sr, conv) {
            r matches Ok(v) && v@.len() == ss.len()
                && forall|k: int| 0 <= k < ss.len() ==> instrument_for(ss[k], sr[k].1, conv) == Some(#[trigger] v@[k])
        } else {
            r matches Err(e) && is_unsupported_frequency_error(e)
        },
    }
}

/// Converts curve definitions and quoted rates into bootstrap instruments.
pub struct InstrumentAdapter;

impl InstrumentAdapter {
    /// Converts a definition and one quoted rate per instrument into
    /// instruments ordered by maturity. Instruments and rates are each
    /// sorted by tenor (stably) and paired in that order.
    pub fn convert<T: Copy>(
        definition: &CurveDefinition,
        rates: &[(InstrumentTenor, T)],
    ) -> (r: Result<Vec<BootstrapInstrument<T>>, CurveEngineError>)
        ensures
            rates@.len() != definition.specs().len() ==> (r matches Err(CurveEngineError::Instrument { tenor, reason })
                && tenor@ == "rates"@
                && reason@ == rate_count_message(definition.specs().len(), definition.key(), rates@.len())),
            rates@.len() == definition.specs().len() ==> exists|ss: Seq<InstrumentSpec>, sr: Seq<(InstrumentTenor, T)>|
                #![trigger is_stable_tenor_sort(definition.specs(), ss), is_stable_rate_sort(rates@, sr)]
                is_stable_tenor_sort(definition.specs(), ss) && is_stable_rate_sort(rates@, sr)
                    && conversion_outcome(ss, sr, definition.swap_convention(), r),
            r matches Ok(v) ==> v@.len() == definition.specs().len()
                && forall|i: int, j: int| 0 <= i < j < v@.len() ==>
                    tenor_rank(instrument_tenor(#[trigger] v@[i])) <= tenor_rank(instrument_tenor(#[trigger] v@[j])),
            r matches Ok(v) ==> forall|k: int| 0 <= k < v@.len() ==> match #[trigger] v@[k] {
                BootstrapInstrument::Irs { fixed_frequency, float_frequency, .. } =>
                    bootstrap_frequency(definition.swap_convention().fixed_leg.payment_frequency) == Some(fixed_frequency)
                    && bootstrap_frequency(definition.swap_convention().float_leg.payment_frequency) == Some(float_frequency),
                BootstrapInstrument::Ois { payment_frequency, .. } => payment_frequency == Frequency::Annual
                    || bootstrap_frequency(definition.swap_convention().fixed_leg.payment_frequency) == Some(payment_frequency),
                _ => true,
            },
            rates@.len() == definition.specs().len() ==> forall|ss: Seq<InstrumentSpec>, sr: Seq<(InstrumentTenor, T)>|
                #![trigger is_stable_tenor_sort(definition.specs(), ss), is_stable_rate_sort(rates@, sr)]
                is_stable_tenor_sort(definition.specs(), ss) && is_stable_rate_sort(rates@, sr)
                    ==> conversion_outcome(ss, sr, definition.swap_convention(), r),
    {
        let n = definition.len();
        if rates.len() != n {
            let mut m = String::from_str("Expected ");
            let a = usize_to_string(n);
            m.append(a.as_str());
            m.append(" rates for ");
            m.append(definition.index_key());
            m.append(" instruments, got ");
            let b = usize_to_string(rates.len());
            m.append(b.as_str());
            return Err(CurveEngineError::instrument("rates", m.as_str()));
        }
        let sorted_specs = definition.sorted_instruments_owned();
        let sorted_rates = Self::sort_rates_by_tenor(rates);
        let convention = definition.convention();
        let ghost ss = sorted_specs@;
        let ghost sr = sorted_rates@;

        let mut i: usize = 0;
        while i < n
            invariant
                i <= n,
                n == ss.len(),
                n == sr.len(),
                ss == sorted_specs@,
                sr == sorted_rates@,
                n == definition.specs().len(),
                rates@.len() == n,
                is_stable_tenor_sort(definition.specs(), ss),
                is_stable_rate_sort(rates@, sr),
                first_tenor_mismatch_from(ss, sr, 0) == first_tenor_mismatch_from(ss, sr, i as int),
            decreases n - i,
        {
            let spec_tenor = sorted_specs[i].tenor;
            let rate_tenor = sorted_rates[i].0;
            if spec_tenor != rate_tenor {
                let mut m = String::from_str("Rate tenor ");
                m.append(rate_tenor.code());
                m.append(" doesn't match instrument tenor ");
                m.append(spec_tenor.code());
                let r = Err(CurveEngineError::instrument(spec_tenor.code(), m.as_str()));
                proof {
                    Self::lemma_outcome_everywhere(definition, rates@, ss, sr, r);
                }
                return r;
            }
            i = i + 1;
        }

        let mut instruments: Vec<BootstrapInstrument<T>> = Vec::new();
        let mut k: usize = 0;
        while k < n
            invariant
                k <= n,
                n == ss.len(),
                n == sr.len(),
                ss == sorted_specs@,
                sr == sorted_rates@,
                n == definition.specs().len(),
                rates@.len() == n,
                is_stable_tenor_sort(definition.specs(), ss),
                is_stable_rate_sort(rates@, sr),
                *convention == definition.swap_convention(),
                first_tenor_mismatch_from(ss, sr, 0) is None,
                instruments@.len() == k,
                forall|j: int| 0 <= j < k ==> instrument_for(ss[j], sr[j].1, *convention) == Some(#[trigger] instruments@[j]),
                forall|j: int| 0 <= j < k ==> instrument_tenor(#[trigger] instruments@[j]) == ss[j].tenor,
                forall|a: int, b: int| 0 <= a < b < n ==> tenor_rank(ss[a].tenor) <= tenor_rank(ss[b].tenor),
            decreases n - k,
        {
            match Self::convert_single(&sorted_specs[k], sorted_rates[k].1, convention) {
                Ok(inst) => {
                    instruments.push(inst);
                },
                Err(e) => {
                    let r = Err(e);
                    proof {
                        assert(!all_convertible(ss, sr, *convention)) by {
                            assert(instrument_for(ss[k as int], sr[k as int].1, *convention) is None);
                        }
                        Self::lemma_outcome_everywhere(definition, rates@, ss, sr, r);
                    }
                    return r;
                },
            }
            k = k + 1;
        }
        let r = Ok(instruments);
        proof {
            assert(all_convertible(ss, sr, *convention)) by {
                assert forall|j: int| 0 <= j < ss.len() implies (#[trigger] instrument_for(ss[j], sr[j].1, *convention)) is Some by {
                    assert(instrument_for(ss[j], sr[j].1, *convention) == Some(instruments@[j]));
                }
            }
            Self::lemma_outcome_everywhere(definition, rates@, ss, sr, r);
            assert forall|k: int| 0 <= k < instruments@.len() implies match #[trigger] instruments@[k] {
                BootstrapInstrument::Irs { fixed_frequency, float_frequency, .. } =>
                    bootstrap_frequency(convention.fixed_leg.payment_frequency) == Some(fixed_frequency)
                    && bootstrap_frequency(convention.float_leg.payment_frequency) == Some(float_frequency),
                BootstrapInstrument::Ois { payment_frequency, .. } => payment_frequency == Frequency::Annual
                    || bootstrap_frequency(convention.fixed_leg.payment_frequency) == Some(payment_frequency),
                _ => true,
            } by {
                assert(instrument_for(ss[k], sr[k].1, *convention) == Some(instruments@[k]));
            }
        }
        r
    }

    /// An outcome shown for one pair of stable sorts holds for every pair.
    proof fn lemma_outcome_everywhere<T>(
        definition: &CurveDefinition,
        rates: Seq<(InstrumentTenor, T)>,
        ss: Seq<InstrumentSpec>,
        sr: Seq<(InstrumentTenor, T)>,
        r: Result<Vec<BootstrapInstrument<T>>, CurveEngineError>,
    )
        requires
            is_stable_tenor_sort(definition.specs(), ss),
            is_stable_rate_sort(rates, sr),
            conversion_outcome(ss, sr, definition.swap_convention(), r),
        ensures
            exists|ss2: Seq<InstrumentSpec>, sr2: Seq<(InstrumentTenor, T)>|
                #![trigger is_stable_tenor_sort(definition.specs(), ss2), is_stable_rate_sort(rates, sr2)]
                is_stable_tenor_sort(definition.specs(), ss2) && is_stable_rate_sort(rates, sr2)
                    && conversion_outcome(ss2, sr2, definition.swap_convention(), r),
            forall|ss2: Seq<InstrumentSpec>, sr2: Seq<(InstrumentTenor, T)>|
                #![trigger is_stable_tenor_sort(definition.specs(), ss2), is_stable_rate_sort(rates, sr2)]
                is_stable_tenor_sort(definition.specs(), ss2) && is_stable_rate_sort(rates, sr2)
                    ==> conversion_outcome(ss2, sr2, definition.swap_convention(), r),
    {
        assert forall|ss2: Seq<InstrumentSpec>, sr2: Seq<(InstrumentTenor, T)>|
            #![trigger is_stable_tenor_sort(definition.specs(), ss2), is_stable_rate_sort(rates, sr2)]
            is_stable_tenor_sort(definition.specs(), ss2) && is_stable_rate_sort(rates, sr2)
            implies conversion_outcome(ss2, sr2, definition.swap_convention(), r) by {
            lemma_stable_tenor_sort_unique(definition.specs(), ss, ss2);
            lemma_stable_rate_sort_unique(rates, sr, sr2);
        }
    }

    /// The rates, stably sorted by tenor.
    fn sort_rates_by_tenor<T: Copy>(rates: &[(InstrumentTenor, T)]) -> (r: Vec<(InstrumentTenor, T)>)
        ensures
            is_stable_rate_sort(rates@, r@),
            r@.len() == rates@.len(),
    {
        let mut keys: Vec<InstrumentTenor> = Vec::new();
        let mut i: usize = 0;
        while i < rates.len()
            invariant
                i <= rates@.len(),
                keys@ == rate_tenors(rates@.subrange(0, i as int)),
            decreases rates@.len() - i,
        {
            keys.push(rates[i].0);
            proof {
                assert(rate_tenors(rates@.subrange(0, i + 1)) =~= rate_tenors(rates@.subrange(0, i as int)).push(rates@[i as int].0));
            }
            i = i + 1;
        }
        proof {
            assert(rates@.subrange(0, rates@.len() as int) =~= rates@);
        }
        let perm = stable_tenor_order(&keys);
        let mut out: Vec<(InstrumentTenor, T)> = Vec::new();
        let mut k: usize = 0;
        while k < perm.len()
            invariant
                k <= perm.len(),
                keys@ == rate_tenors(rates@),
                stably_sorts(keys@, perm@),
                out@.len() == k,
                forall|j: int| 0 <= j < k ==> out@[j] == rates@[perm@[j] as int],
            decreases perm.len() - k,
        {
            out.push(rates[perm[k]]);
            k = k + 1;
        }
        proof {
            assert(stably_sorts(rate_tenors(rates@), perm@));
        }
        out
    }

    /// Converts one specification at its quote.
    fn convert_single<T: Copy>(
        spec: &InstrumentSpec,
        rate: T,
        convention: &SwapConvention,
    ) -> (r: Result<BootstrapInstrument<T>, CurveEngineError>)
        ensures
            yields_instrument(r, instrument_for(*spec, rate, *convention)),
    {
        match spec.instrument_type() {
            CurveInstrumentType::Ois => Self::create_ois(spec.tenor(), rate, convention),
            CurveInstrumentType::Irs => Self::create_irs(spec.tenor(), rate, convention),
            CurveInstrumentType::Fra => Self::create_fra(spec, rate),
            CurveInstrumentType::Future => Self::create_future(spec, rate),
            CurveInstrumentType::Deposit => Ok(Self::create_deposit(spec.tenor(), rate)),
        }
    }

    /// An OIS paying at the frequency of the convention's fixed leg.
    pub fn create_ois<T: Copy>(
        maturity: InstrumentTenor,
        rate: T,
        convention: &SwapConvention,
    ) -> (r: Result<BootstrapInstrument<T>, CurveEngineError>)
        ensures
            match bootstrap_frequency(convention.fixed_leg.payment_frequency) {
                Some(f) => r matches Ok(i) && i == (BootstrapInstrument::Ois { tenor: maturity, rate, payment_frequency: f }),
                None => r matches Err(e) && is_unsupported_frequency_error(e),
            },
    {
        let frequency = match Self::convert_frequency(convention.fixed_leg.payment_frequency) {
            Ok(f) => f,
            Err(e) => return Err(e),
        };
        Ok(BootstrapInstrument::Ois { tenor: maturity, rate, payment_frequency: frequency })
    }

    /// An IRS paying at the frequencies of the convention's fixed and floating legs.
    pub fn create_irs<T: Copy>(
        maturity: InstrumentTenor,
        rate: T,
        convention: &SwapConvention,
    ) -> (r: Result<BootstrapInstrument<T>, CurveEngineError>)
        ensures
            match (
                bootstrap_frequency(convention.fixed_leg.payment_frequency),
                bootstrap_frequency(convention.float_leg.payment_frequency),
            ) {
                (Some(fixed), Some(float)) => r matches Ok(i) && i == (BootstrapInstrument::Irs {
                    tenor: maturity,
                    rate,
                    fixed_frequency: fixed,
                    float_frequency: float,
                }),
                _ => r matches Err(e) && is_unsupported_frequency_error(e),
            },
    {
        let fixed_frequency = match Self::convert_frequency(convention.fixed_leg.payment_frequency) {
            Ok(f) => f,
            Err(e) => return Err(e),
        };
        let float_frequency = match Self::convert_frequency(convention.float_leg.payment_frequency) {
            Ok(f) => f,
            Err(e) => return Err(e),
        };
        Ok(BootstrapInstrument::Irs { tenor: maturity, rate, fixed_frequency, float_frequency })
    }

    /// A FRA from today to the specification's tenor.
    pub fn create_fra<T: Copy>(spec: &InstrumentSpec, rate: T) -> (r: Result<BootstrapInstrument<T>, CurveEngineError>)
        ensures
            r matches Ok(i) && i == (BootstrapInstrument::Fra { tenor: spec.tenor, rate }),
    {
        Ok(BootstrapInstrument::Fra { tenor: spec.tenor(), rate })
    }

    /// A future at the specification's tenor and the quoted price, with the
    /// specification's convexity adjustment (zero when it has none).
    pub fn create_future<T: Copy>(spec: &InstrumentSpec, price: T) -> (r: Result<BootstrapInstrument<T>, CurveEngineError>)
        ensures
            r matches Ok(i) && i == (BootstrapInstrument::Future {
                tenor: spec.tenor,
                price,
                convexity_adjustment: match spec.convexity_adjustment {
                    Some(bits) => bits,
                    None => 0,
                },
            }),
    {
        let convexity_adjustment = match spec.convexity_adjustment() {
            Some(bits) => bits,
            None => 0,
        };
        Ok(BootstrapInstrument::Future { tenor: spec.tenor(), price, convexity_adjustment })
    }

    /// A deposit, bootstrapped as a single-period (annual) OIS.
    fn create_deposit<T: Copy>(maturity: InstrumentTenor, rate: T) -> (r: BootstrapInstrument<T>)
        ensures
            r == (BootstrapInstrument::Ois { tenor: maturity, rate, payment_frequency: Frequency::Annual }),
    {
        BootstrapInstrument::Ois { tenor: maturity, rate, payment_frequency: Frequency::Annual }
    }

    /// The bootstrap frequency of a leg frequency; weekly legs are refused.
    pub fn convert_frequency(freq: PaymentFrequency) -> (r: Result<Frequency, CurveEngineError>)
        ensures
            match bootstrap_frequency(freq) {
                Some(f) => r matches Ok(g) && g == f,
                None => r matches Err(e) && is_unsupported_frequency_error(e),
            },
    {
        match freq {
            PaymentFrequency::Annual => Ok(Frequency::Annual),
            PaymentFrequency::SemiAnnual => Ok(Frequency::SemiAnnual),
            PaymentFrequency::Quarterly => Ok(Frequency::Quarterly),
            PaymentFrequency::Monthly => Ok(Frequency::Monthly),
            PaymentFrequency::Daily => Ok(Frequency::Daily),
            PaymentFrequency::Weekly => Err(CurveEngineError::configuration(
                "frequency",
                "Weekly frequency is not supported for bootstrap instruments",
            )),
        }
    }
}

} // verus!
