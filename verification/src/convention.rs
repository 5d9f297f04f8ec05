//! Swap conventions that curve instruments are built with.
use vstd::prelude::*;
use crate::rate_index::RateIndex;

verus! {

/// Payment frequency of a swap leg.
#[derive(Debug, Clone, Copy, PartialEq, Eq, Hash, Structural)]
pub enum PaymentFrequency {
    /// Once a year.
    Annual,
    /// Twice a year.
    SemiAnnual,
    /// Four times a year.
    Quarterly,
    /// Every month.
    Monthly,
    /// Every week.
    Weekly,
    /// Every day.
    Daily,
}

/// Convention of one swap leg.
#[derive(Debug, Clone, Copy, PartialEq, Eq, Structural)]
pub struct LegConvention {
    /// How often the leg pays.
    pub payment_frequency: PaymentFrequency,
}

/// Market convention of a swap: both legs, the floating index and the spot lag.
#[derive(Debug, Clone, Copy, PartialEq, Eq, Structural)]
pub struct SwapConvention {
    /// Fixed leg convention.
    pub fixed_leg: LegConvention,
    /// Floating leg convention.
    pub float_leg: LegConvention,
    /// Index of the floating leg.
    pub float_index: RateIndex,
    /// Business days from trade to spot.
    pub spot_lag: u32,
}

/// The USD SOFR OIS convention.
pub open spec fn usd_sofr_convention() -> SwapConvention {
    SwapConvention {
        fixed_leg: LegConvention { payment_frequency: PaymentFrequency::Annual },
        float_leg: LegConvention { payment_frequency: PaymentFrequency::Annual },
        float_index: RateIndex::Sofr,
        spot_lag: 2,
    }
}

impl SwapConvention {
    /// USD SOFR OIS: annual fixed and floating payments, T+2.
    pub fn usd_sofr() -> (r: Self)
        ensures
            r == usd_sofr_convention(),
    {
        SwapConvention {
            fixed_leg: LegConvention { payment_frequency: PaymentFrequency::Annual },
            float_leg: LegConvention { payment_frequency: PaymentFrequency::Annual },
            float_index: RateIndex::Sofr,
            spot_lag: 2,
        }
    }

    /// EUR EURIBOR 6M swap: annual fixed, semi-annual floating payments, T+2.
    pub fn eur_euribor_6m() -> (r: Self)
        ensures
            r.fixed_leg.payment_frequency == PaymentFrequency::Annual,
            r.float_leg.payment_frequency == PaymentFrequency::SemiAnnual,
            r.float_index == RateIndex::Euribor6M,
            r.spot_lag == 2,
    {
        SwapConvention {
            fixed_leg: LegConvention { payment_frequency: PaymentFrequency::Annual },
            float_leg: LegConvention { payment_frequency: PaymentFrequency::SemiAnnual },
            float_index: RateIndex::Euribor6M,
            spot_lag: 2,
        }
    }
}

} // verus!
