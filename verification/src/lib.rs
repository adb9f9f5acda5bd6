//! Energy telemetry client library.
//!
//! Models the data returned by an Octopus Energy account and a local Enphase
//! Envoy solar gateway, and turns polled snapshots of device readings into
//! time-series points: an aggregate-meter mapper, a per-inverter
//! change-detection filter, and the request URLs the HTTP layer needs.

pub mod account;
pub mod api;
pub mod config;
pub mod consumption;
pub mod consumption_points;
pub mod envoy;
pub mod home;
pub mod inventory;
pub mod inverter_points;
pub mod inverters;
pub mod meters;
pub mod numeral;
pub mod point;
pub mod production;
pub mod production_points;
pub mod requests;
pub mod standing_unit_rate;
pub mod values;

pub use point::{FieldValue, Point, PointV};
pub use values::FloatBits;
