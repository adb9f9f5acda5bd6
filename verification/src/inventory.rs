//! Types returned by the solar gateway's inventory API.

use vstd::prelude::*;

verus! {

/// The inventory of all devices.
#[derive(Clone, Debug, PartialEq)]
pub struct Inventory(pub Vec<InventoryGroup>);

/// A group of devices of a particular type in the inventory.
#[derive(Clone, Debug, PartialEq)]
pub struct InventoryGroup {
    pub type_: DeviceType,
    pub devices: Vec<Device>,
}

/// The family of a device in the inventory.
#[derive(Clone, Copy, Debug, PartialEq, Eq, Structural)]
pub enum DeviceType {
    /// Power Conditioning Unit, aka. microinverter.
    Pcu,
    /// AC Battery.
    Acb,
    /// Network System Relay Breaker, aka. IQ Relay.
    Nsrb,
    /// Electrical sub-panel, aka. IQ System Controller.
    Esub,
}

/// The state of a device in the inventory.
#[derive(Clone, Debug, PartialEq)]
pub struct Device {
    /// The part number of the device.
    pub part_num: String,
    /// When the device was installed, in epoch seconds.
    pub installed: i64,
    /// The serial number of the device.
    pub serial_num: String,
    /// The device's current statuses.
    pub device_status: Vec<DeviceStatus>,
    /// When the device last reported to the gateway, in epoch seconds.
    pub last_rpt_date: i64,
    /// The administrative state of the device.
    pub admin_state: AdminState,
    /// The type of device.
    pub dev_type: u8,
    /// When the device was added to the gateway, in epoch seconds.
    pub created_date: i64,
    /// When the device's firmware was loaded, in epoch seconds.
    pub img_load_date: i64,
    /// The device's firmware product number.
    pub img_pnum_running: String,
    pub ptpn: String,
    /// The channel Enphase ID.
    pub chaneid: u64,
    pub device_control: Vec<DeviceControl>,
    /// Whether the device is producing electricity.
    pub producing: bool,
    /// Whether the device is communicating with the gateway.
    pub communicating: bool,
    /// Whether the device is provisioned.
    pub provisioned: bool,
    /// Whether the device is operating.
    pub operating: bool,
    pub phase: String,
}

/// The status flags of a device.
#[derive(Clone, Copy, Debug, PartialEq, Eq, Structural)]
pub enum DeviceStatus {
    /// No condition flag raised.
    Normal,
    /// DC voltage too low.
    DcVoltageTooLow,
    /// DC power low.
    DcPowerLow,
    /// Observed strings failure.
    Failure,
}

/// The administrative state of a device.
#[derive(Clone, Copy, Debug, PartialEq, Eq, Structural)]
pub enum AdminState {
    Discovered,
    Verified,
    Deleted,
}

impl AdminState {
    /// The numeric code the gateway uses on the wire for this state.
    pub fn code(self) -> (r: u8)
        ensures
            self is Discovered ==> r == 1,
            self is Verified ==> r == 2,
            self is Deleted ==> r == 3,
    {
        match self {
            AdminState::Discovered => 1,
            AdminState::Verified => 2,
            AdminState::Deleted => 3,
        }
    }
}

/// Control flags of a device.
#[derive(Clone, Copy, Debug, PartialEq, Eq, Structural)]
pub struct DeviceControl {
    /// Whether the device has a Ground Fault Interrupt error state.
    pub gficlearset: bool,
}

} // verus!
