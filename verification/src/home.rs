//! Types returned by the solar gateway's home API.

use vstd::prelude::*;

verus! {

/// A summary of the gateway status.
#[derive(Clone, Debug, PartialEq)]
pub struct Home {
    /// When the software was built, in epoch seconds.
    pub software_build_epoch: i64,
    /// The local timezone configured for the gateway.
    pub timezone: String,
    /// The current date according to the gateway.
    pub current_date: String,
    /// The current time according to the gateway.
    pub current_time: String,
    /// Information about the network interfaces of the gateway.
    pub network: Network,
    /// The type of tariff configured.
    pub tariff: String,
    /// Information about communications with devices.
    pub comm: CommunicationSummary,
    /// Information about wireless connections.
    pub wireless_connection: Vec<WirelessConnection>,
}

/// Information about the gateway's network interfaces.
#[derive(Clone, Debug, PartialEq)]
pub struct Network {
    pub web_comm: bool,
    pub ever_reported_to_enlighten: bool,
    /// When the gateway last reported upstream, in epoch seconds.
    pub last_enlighten_report_time: i64,
    pub primary_interface: String,
    pub interfaces: Vec<Interface>,
}

/// One network interface of the gateway.
#[derive(Clone, Debug, PartialEq)]
pub struct Interface {
    pub type_: InterfaceType,
    pub mac: String,
    pub dhcp: bool,
    /// The interface's address, in its printed form.
    pub ip: String,
    pub signal_strength: u8,
    pub signal_strength_max: u8,
    pub carrier: bool,
    pub supported: Option<bool>,
    pub present: Option<bool>,
    pub configured: Option<bool>,
    pub status: Option<String>,
}

/// The kind of a network interface.
#[derive(Clone, Copy, Debug, PartialEq, Eq, Structural)]
pub enum InterfaceType {
    Ethernet,
    Wifi,
}

/// Information about communications with devices.
#[derive(Clone, Debug, PartialEq)]
pub struct CommunicationSummary {
    /// The number of devices communicating.
    pub num: u8,
    /// The signal level.
    pub level: u8,
    /// Information about Power Conditioning Units.
    pub pcu: CommunicationStatus,
    /// Information about AC Batteries.
    pub acb: CommunicationStatus,
    /// Information about Network System Relay Breakers.
    pub nsrb: CommunicationStatus,
    /// Information about Electrical Sub-panels.
    pub esub: CommunicationStatus,
    /// Information about IQ Batteries (aka. Encharge Storage).
    pub encharge: Vec<EnchargeCommunicationStatus>,
}

/// Communication status for one device family.
#[derive(Clone, Copy, Debug, PartialEq, Eq, Structural)]
pub struct CommunicationStatus {
    /// The number of devices communicating.
    pub num: u8,
    /// The signal level.
    pub level: u8,
}

/// Communication status for IQ Batteries.
#[derive(Clone, Copy, Debug, PartialEq, Eq, Structural)]
pub struct EnchargeCommunicationStatus {
    /// The number of devices communicating.
    pub num: u8,
    /// The signal level.
    pub level: u8,
    /// The 2.4 GHz signal level.
    pub level_24g: u8,
    /// The sub-GHz signal level.
    pub level_subg: u8,
}

/// One wireless connection of the gateway.
#[derive(Clone, Copy, Debug, PartialEq, Eq, Structural)]
pub struct WirelessConnection {
    /// The current signal strength.
    pub signal_strength: u8,
    /// The maximum signal strength recorded.
    pub signal_strength_max: u8,
    /// The type of wireless connection.
    pub type_: WirelessConnectionType,
    /// Whether the connection is connected.
    pub connected: bool,
}

/// The kind of a wireless connection.
#[derive(Clone, Copy, Debug, PartialEq, Eq, Structural)]
pub enum WirelessConnectionType {
    Ble,
}

} // verus!
