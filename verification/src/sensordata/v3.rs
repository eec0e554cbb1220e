use vstd::prelude::*;

use crate::formats::util::{be_u16, u16_from_two_bytes};

verus! {

/// Raw fields of a version 3 manufacturer data value.  Only the humidity and
/// the temperature are read from the wire; the remaining fields are zeroed.
#[derive(Debug, Eq, PartialEq, Structural)]
pub struct SensorDataV3 {
    pub humidity: u8,
    pub temperature: u16,
    pub pressure: u16,
    pub acceleration: AccelerationVectorV3,
    pub battery_potential: u16,
}

/// a 3-dimensional acceleration vector, each component in milli-G
#[derive(Debug, Eq, PartialEq, Structural)]
pub struct AccelerationVectorV3(pub i16, pub i16, pub i16);

/// The value field does not have the expected length of the format.
#[derive(Debug, Eq, PartialEq, Structural)]
pub struct InvalidValueLength;

impl SensorDataV3 {
    /// Reads the humidity and temperature fields out of a whole version 3
    /// manufacturer data value, version byte included.  Succeeds exactly on
    /// a value of 14 bytes.
    pub fn from_manufacturer_specific_data(value: &[u8]) -> (r: Result<Self, InvalidValueLength>)
        ensures
            value@.len() == 14 ==> r == Ok::<SensorDataV3, InvalidValueLength>(
                SensorDataV3 {
                    humidity: value@[1],
                    temperature: be_u16(value@[2], value@[3]),
                    pressure: 0,
                    acceleration: AccelerationVectorV3(0, 0, 0),
                    battery_potential: 0,
                },
            ),
            value@.len() != 14 ==> r == Err::<SensorDataV3, InvalidValueLength>(InvalidValueLength),
    {
        if value.len() == 14 {
            let humidity = value[1];
            let temperature = u16_from_two_bytes(value[2], value[3]);
            Ok(
                Self {
                    humidity,
                    temperature,
                    pressure: 0,
                    acceleration: AccelerationVectorV3(0, 0, 0),
                    battery_potential: 0,
                },
            )
        } else {
            Err(InvalidValueLength)
        }
    }
}

} // verus!
