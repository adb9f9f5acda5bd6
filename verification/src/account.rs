//! Types used for account information.

use vstd::prelude::*;

verus! {

/// Information about an Octopus account.
#[derive(Clone, Debug, PartialEq)]
pub struct Account {
    /// The account number. This is usually of the form `"A-1234ABCD"`.
    pub number: String,
    /// The properties associated with this account.
    pub properties: Vec<Property>,
}

/// Information about a particular property within an Octopus account.
#[derive(Clone, Debug, PartialEq)]
pub struct Property {
    pub id: u32,
    /// When the account holder moved in, in epoch seconds.
    pub moved_in_at: i64,
    /// When the account holder moved out, in epoch seconds, if they have.
    pub moved_out_at: Option<i64>,
    pub address_line_1: String,
    pub address_line_2: String,
    pub address_line_3: String,
    pub town: String,
    pub county: String,
    pub postcode: String,
    pub electricity_meter_points: Vec<ElectricityMeterPoint>,
    pub gas_meter_points: Vec<GasMeterPoint>,
}

/// Information about a particular electricity meter point at a property.
/// This may include several different meters.
#[derive(Clone, Debug, PartialEq)]
pub struct ElectricityMeterPoint {
    /// The meter point administration number of this meter point.
    pub mpan: String,
    pub profile_class: u32,
    pub consumption_standard: u32,
    /// The electricity meters included in this meter point.
    pub meters: Vec<Meter>,
    pub agreements: Vec<Agreement>,
    pub is_export: bool,
}

/// Information about a particular gas meter point at a property. This may
/// include several different meters.
#[derive(Clone, Debug, PartialEq)]
pub struct GasMeterPoint {
    /// The meter point reference number of this meter point.
    pub mprn: String,
    pub consumption_standard: u32,
    /// The gas meters included in this meter point.
    pub meters: Vec<Meter>,
    pub agreements: Vec<Agreement>,
}

/// Information about a single electricity or gas meter at a property.
#[derive(Clone, Debug, PartialEq)]
pub struct Meter {
    pub serial_number: String,
    pub registers: Vec<Register>,
}

#[derive(Clone, Debug, PartialEq)]
pub struct Register {
    pub identifier: String,
    pub rate: String,
    pub is_settlement_register: bool,
}

#[derive(Clone, Debug, PartialEq)]
pub struct Agreement {
    pub tariff_code: String,
    /// Start of the agreement, in epoch seconds.
    pub valid_from: i64,
    /// End of the agreement, in epoch seconds, if it has one.
    pub valid_to: Option<i64>,
}

} // verus!
