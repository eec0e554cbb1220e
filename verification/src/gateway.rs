//! Data formats used by a gateway device for relaying sensor advertisements.
//!
//! The `data` field of a gateway MQTT message payload holds a hex-encoded
//! Bluetooth advertisement buffer: a sequence of length-prefixed elements,
//! one of which carries the manufacturer specific data.  This module walks
//! that buffer, locates the manufacturer data element and decodes the sensor
//! values from it.  Parsing the JSON envelope around the `data` field is left
//! to the caller.

pub use crate::gateway::data::{find_manufacturer_data, InvalidPacket, IterPackets, Packet};
pub use crate::gateway::mqtt::{MqttData, MqttDataError};

pub mod data;
pub mod mqtt;
