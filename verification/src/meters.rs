//! Types returned by the solar gateway's IVP meters API methods.

use vstd::prelude::*;

use crate::production::MeasurementType;
use crate::values::FloatBits;

verus! {

/// One meter reading: a summary of all channels plus the individual
/// channels.
#[derive(Clone, Debug, PartialEq)]
pub struct Reading {
    /// A summary of all channels.
    pub summary: Channel,
    /// The individual channels (typically different phases) that make up
    /// this reading.
    pub channels: Vec<Channel>,
}

/// Readings of one metering channel.
#[derive(Clone, Copy, Debug, PartialEq, Eq, Structural)]
pub struct Channel {
    /// Gateway record ID number.
    pub eid: u64,
    /// Time when the message was generated, in epoch seconds.
    pub timestamp: i64,
    /// Active energy delivered.
    pub act_energy_dlvd: FloatBits,
    /// Active energy received.
    pub act_energy_rcvd: FloatBits,
    /// Apparent energy.
    pub apparent_energy: FloatBits,
    /// Lagging reactive energy.
    pub react_energy_lagg: FloatBits,
    /// Leading reactive energy.
    pub react_energy_lead: FloatBits,
    /// Instantaneous demand.
    pub instantaneous_demand: FloatBits,
    /// Active power.
    pub active_power: FloatBits,
    /// Apparent power.
    pub apparent_power: FloatBits,
    /// Reactive power.
    pub reactive_power: FloatBits,
    /// Power factor.
    pub pwr_factor: FloatBits,
    /// Voltage.
    pub voltage: FloatBits,
    /// Current.
    pub current: FloatBits,
    /// Frequency.
    pub freq: FloatBits,
}

/// One meter report.
#[derive(Clone, Debug, PartialEq)]
pub struct Report {
    /// Time when the message was generated, in epoch seconds.
    pub created_at: i64,
    pub report_type: MeasurementType,
    pub cumulative: MeterReading,
    pub lines: Vec<MeterReading>,
}

/// Cumulative readings of one meter.
#[derive(Clone, Copy, Debug, PartialEq, Eq, Structural)]
pub struct MeterReading {
    /// Current power in watts.
    pub curr_w: FloatBits,
    /// Active power.
    pub act_power: FloatBits,
    /// Apparent power.
    pub apprnt_pwr: FloatBits,
    /// Reactive power.
    pub react_pwr: FloatBits,
    /// Cumulative watt-hours delivered.
    pub wh_dlvd_cum: FloatBits,
    /// Cumulative watt-hours received.
    pub wh_rcvd_cum: FloatBits,
    /// Cumulative lagging varh.
    pub varh_lag_cum: FloatBits,
    /// Cumulative leading varh.
    pub varh_lead_cum: FloatBits,
    /// Cumulative vah.
    pub vah_cum: FloatBits,
    /// RMS voltage.
    pub rms_voltage: FloatBits,
    /// RMS current.
    pub rms_current: FloatBits,
    /// Power factor.
    pub pwr_factor: FloatBits,
    /// Frequency in hertz.
    pub freq_hz: FloatBits,
}

} // verus!
