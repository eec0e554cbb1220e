//! An early, partial decoder of the version 3 sensor payload, kept for
//! compatibility.  It reads only the humidity and temperature fields and
//! leaves the rest of the record zeroed.

pub use crate::sensordata::v3::{AccelerationVectorV3, InvalidValueLength, SensorDataV3};

pub mod v3;

use vstd::prelude::*;

verus! {

/// A set of decoded sensor values, each field optional.
#[derive(Debug)]
pub struct SensorData {
    humidity: Option<u32>,
    temperature: Option<u32>,
    pressure: Option<u32>,
    acceleration: Option<AccelerationVector>,
    battery_potential: Option<u16>,
}

/// a 3-dimensional acceleration vector, each component in milli-G
#[derive(Debug)]
pub struct AccelerationVector(i16, i16, i16);

} // verus!
