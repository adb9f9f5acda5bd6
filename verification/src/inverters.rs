//! Types returned by the solar gateway's per-inverter production API.

use vstd::prelude::*;

verus! {

/// The mathematical value of an [`Inverter`] reading.
#[verifier::ext_equal]
pub ghost struct InverterV {
    pub serial_number: Seq<char>,
    pub last_report_date: i64,
    pub dev_type: u8,
    pub last_report_watts: u32,
    pub max_report_watts: u32,
}

/// Production data for a single microinverter.
#[derive(Clone, Debug)]
pub struct Inverter {
    /// The serial number of the microinverter.
    pub serial_number: String,
    /// The last time that the microinverter reported data, in epoch seconds.
    pub last_report_date: i64,
    /// The device type code.
    pub dev_type: u8,
    /// The power in watts last reported.
    pub last_report_watts: u32,
    /// The maximum power in watts which the microinverter has reported.
    pub max_report_watts: u32,
}

impl View for Inverter {
    type V = InverterV;

    open spec fn view(&self) -> InverterV {
        InverterV {
            serial_number: self.serial_number@,
            last_report_date: self.last_report_date,
            dev_type: self.dev_type,
            last_report_watts: self.last_report_watts,
            max_report_watts: self.max_report_watts,
        }
    }
}

impl Inverter {
    /// Whether two readings agree in every field: report time, device type
    /// code, last and maximum reported watts, and serial number.
    pub fn same_reading(&self, other: &Inverter) -> (r: bool)
        ensures
            r == (self@ == other@),
    {
        let r = self.serial_number == other.serial_number && self.last_report_date
            == other.last_report_date && self.dev_type == other.dev_type
            && self.last_report_watts == other.last_report_watts && self.max_report_watts
            == other.max_report_watts;
        proof {
            if r {
                assert(self@ =~= other@);
            }
        }
        r
    }
}

} // verus!
