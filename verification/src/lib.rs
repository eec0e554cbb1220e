//! Decoder for the sensor telemetry broadcast by RuuviTag Bluetooth Low
//! Energy beacons inside the manufacturer specific data element of an
//! advertisement packet.
//!
//! Two wire formats of the sensor payload are supported, version 3 and
//! version 5.  Both share the manufacturer identifier `0x0499` but differ in
//! byte layout, field set and unavailability signaling.  A caller hands the
//! manufacturer identifier and the payload bytes to
//! `SensorValues::from_manufacturer_specific_data` and receives a decoded
//! reading or a `ParseError`.

pub use crate::errors::ParseError;
pub use crate::formats::generic::SensorValues;
pub use crate::formats::traits::Acceleration;
pub use crate::formats::traits::BatteryPotential;
pub use crate::formats::traits::Humidity;
pub use crate::formats::traits::MacAddress;
pub use crate::formats::traits::MeasurementSequenceNumber;
pub use crate::formats::traits::MovementCounter;
pub use crate::formats::traits::Pressure;
pub use crate::formats::traits::Temperature;
pub use crate::formats::traits::TransmitterPower;
pub use crate::formats::AccelerationVector;

mod errors;
pub mod formats;
pub mod gateway;
pub mod sensordata;
