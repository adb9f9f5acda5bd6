//! Types used for electricity and gas standing unit rates.

use vstd::prelude::*;

use crate::values::FloatBits;

verus! {

/// A list of electricity meter standing charges.
#[derive(Clone, Debug, PartialEq)]
pub struct StandingUnitRates {
    /// The total number of unit rates.
    pub count: usize,
    pub next: Option<String>,
    pub previous: Option<String>,
    /// The list of unit rate readings in this page. This may have fewer
    /// than `count` readings.
    pub results: Vec<StandingUnitRate>,
}

/// A single unit rate record, in pence, for one charging period.
#[derive(Clone, Debug, PartialEq)]
pub struct StandingUnitRate {
    /// The rate excluding VAT, carried as the bit pattern of the 64-bit
    /// value the sink receives.
    pub value_exc_vat: FloatBits,
    /// The rate including VAT, carried the same way.
    pub value_inc_vat: FloatBits,
    /// Start of the period, in epoch seconds.
    pub valid_from: i64,
    /// End of the period, in epoch seconds.
    pub valid_to: i64,
    pub payment_method: Option<String>,
}

} // verus!
