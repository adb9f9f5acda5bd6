//! Types used for electricity and gas consumption records.

use vstd::prelude::*;

use crate::values::FloatBits;

verus! {

/// A list of electricity or gas meter readings.
#[derive(Clone, Debug, PartialEq)]
pub struct Readings {
    /// The total number of readings available.
    pub count: usize,
    pub next: Option<String>,
    pub previous: Option<String>,
    /// The list of consumption readings in this page. This may have fewer
    /// than `count` readings.
    pub results: Vec<Consumption>,
}

/// A single consumption record from an electricity or gas meter. This may
/// be either for a single half hour or a longer grouping.
#[derive(Clone, Copy, Debug, PartialEq, Eq, Structural)]
pub struct Consumption {
    /// The amount of energy consumed in this time period, carried as the
    /// bit pattern of the 64-bit value the sink receives.
    pub consumption: FloatBits,
    /// Start of the period, in epoch seconds.
    pub interval_start: i64,
    /// End of the period, in epoch seconds.
    pub interval_end: i64,
}

} // verus!
