//! Types returned by the solar gateway's production API.

use vstd::prelude::*;

use crate::values::FloatBits;

verus! {

/// One poll's production snapshot: current and past production and
/// consumption, partitioned by role. Immutable once built.
#[derive(Clone, Debug, PartialEq)]
pub struct Production {
    pub production: Vec<Device>,
    pub consumption: Vec<Device>,
    pub storage: Vec<Device>,
}

/// One measurement source in a production snapshot at a point in time.
#[derive(Clone, Debug, PartialEq)]
pub struct Device {
    /// The type of device this is about.
    pub type_: DeviceType,
    /// The number of active devices of this type.
    pub active_count: u32,
    pub measurement_type: Option<MeasurementType>,
    /// The time at which the reading was taken, in epoch seconds.
    pub reading_time: i64,
    /// The power in watts currently measured.
    pub w_now: FloatBits,
    pub wh_now: Option<FloatBits>,
    pub state: Option<AcBatteryState>,
    pub lines: Option<Vec<Line>>,
    pub details: Option<Details>,
}

/// Readings for a single phase of a metered device.
#[derive(Clone, Copy, Debug, PartialEq, Eq, Structural)]
pub struct Line {
    /// The power in watts currently measured.
    pub w_now: FloatBits,
    pub details: Details,
}

/// Extended electrical metrics present only for detailed meter types.
#[derive(Clone, Copy, Debug, PartialEq, Eq, Structural)]
pub struct Details {
    /// The number of watt-hours this device has measured.
    pub wh_lifetime: FloatBits,
    /// The total leading volt-amp reactive hours this device has measured.
    pub varh_lead_lifetime: FloatBits,
    /// The total lagging volt-amp reactive hours this device has measured.
    pub varh_lag_lifetime: FloatBits,
    /// The total volt-amp hours this device has measured.
    pub vah_lifetime: FloatBits,
    /// The root-mean-square current currently measured.
    pub rms_current: FloatBits,
    /// The root-mean-square voltage currently measured.
    pub rms_voltage: FloatBits,
    pub react_pwr: FloatBits,
    pub apprnt_pwr: FloatBits,
    pub pwr_factor: FloatBits,
    pub wh_today: FloatBits,
    pub wh_last_seven_days: FloatBits,
    pub vah_today: FloatBits,
    pub varh_lead_today: FloatBits,
    pub varh_lag_today: FloatBits,
}

impl Default for Details {
    /// All metrics zero (the all-zero bit pattern encodes zero).
    fn default() -> (d: Details)
        ensures
            d == (Details {
                wh_lifetime: FloatBits { bits: 0 },
                varh_lead_lifetime: FloatBits { bits: 0 },
                varh_lag_lifetime: FloatBits { bits: 0 },
                vah_lifetime: FloatBits { bits: 0 },
                rms_current: FloatBits { bits: 0 },
                rms_voltage: FloatBits { bits: 0 },
                react_pwr: FloatBits { bits: 0 },
                apprnt_pwr: FloatBits { bits: 0 },
                pwr_factor: FloatBits { bits: 0 },
                wh_today: FloatBits { bits: 0 },
                wh_last_seven_days: FloatBits { bits: 0 },
                vah_today: FloatBits { bits: 0 },
                varh_lead_today: FloatBits { bits: 0 },
                varh_lag_today: FloatBits { bits: 0 },
            }),
    {
        Details {
            wh_lifetime: FloatBits { bits: 0 },
            varh_lead_lifetime: FloatBits { bits: 0 },
            varh_lag_lifetime: FloatBits { bits: 0 },
            vah_lifetime: FloatBits { bits: 0 },
            rms_current: FloatBits { bits: 0 },
            rms_voltage: FloatBits { bits: 0 },
            react_pwr: FloatBits { bits: 0 },
            apprnt_pwr: FloatBits { bits: 0 },
            pwr_factor: FloatBits { bits: 0 },
            wh_today: FloatBits { bits: 0 },
            wh_last_seven_days: FloatBits { bits: 0 },
            vah_today: FloatBits { bits: 0 },
            varh_lead_today: FloatBits { bits: 0 },
            varh_lag_today: FloatBits { bits: 0 },
        }
    }
}

/// The device/measurement family a reading comes from.
#[derive(Clone, Copy, Debug, PartialEq, Eq, Structural)]
pub enum DeviceType {
    /// IQ Inverters.
    Inverters,
    /// The Envoy Integrated Meter built-in to the gateway.
    Eim,
    /// AC battery.
    Acb,
    /// Revenue Grade Meters.
    Rgms,
    /// Power Meter Units.
    Pmus,
}

/// Sub-classification of an aggregate meter reading.
#[derive(Clone, Copy, Debug, PartialEq, Eq, Structural)]
pub enum MeasurementType {
    /// Energy produced from the inverters.
    Production,
    /// Load minus solar production.
    NetConsumption,
    /// Total load.
    TotalConsumption,
}

/// The charge state of an AC battery.
#[derive(Clone, Copy, Debug, PartialEq, Eq, Structural)]
pub enum AcBatteryState {
    Charging,
    Discharging,
    Full,
    Idle,
}

} // verus!
