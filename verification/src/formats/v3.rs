use vstd::prelude::*;

use crate::formats::traits::{
    Acceleration, BatteryPotential, Humidity, MacAddress, MeasurementSequenceNumber,
    MovementCounter, Pressure, Temperature, TransmitterPower,
};
use crate::formats::util::{be_i16, be_u16, i16_from_two_bytes, u16_from_two_bytes};
use crate::formats::{AccelerationVector, SensorValuesModel};

verus! {

/// The format version byte of this format.
pub const VERSION: u8 = 3;

/// Length of the payload that follows the format version byte.
pub const PAYLOAD_SIZE: usize = 13;

/// Raw sensor values of the version 3 format, parsed from the 13 bytes of
/// manufacturer data that follow the format version byte.
///
/// This format has no sentinel values: every field it can represent is
/// populated on every successful parse.
#[derive(Clone, Copy, Debug, Eq, PartialEq, Structural)]
pub struct SensorValues {
    pub humidity: u8,
    pub temperature: u16,
    pub pressure: u16,
    pub acceleration: AccelerationVector,
    pub battery_potential: u16,
}

/// The millikelvin reading encoded by the raw version 3 temperature field:
/// bit 15 is the sign, bits 8 to 14 are whole degrees Celsius and bits 0 to 7
/// are tenths of a degree.
pub open spec fn spec_temperature(raw: u16) -> u32 {
    let integer_part = (raw / 256) % 128;
    let tenths = raw % 256;
    let magnitude = integer_part * 1000 + tenths * 10;
    if raw < 32768 {
        (273150 + magnitude) as u32
    } else {
        (273150 - magnitude) as u32
    }
}

/// The model of the sensor values encoded by a 13-byte version 3 payload.
pub open spec fn spec_parse(data: Seq<u8>) -> SensorValuesModel
    recommends
        data.len() == PAYLOAD_SIZE,
{
    SensorValuesModel {
        humidity_ppm: Some((data[0] * 5000) as u32),
        temperature_millikelvins: Some(spec_temperature(be_u16(data[1], data[2]))),
        pressure_pascals: Some((be_u16(data[3], data[4]) + 50000) as u32),
        acceleration_milli_g: Some(
            AccelerationVector(
                be_i16(data[5], data[6]),
                be_i16(data[7], data[8]),
                be_i16(data[9], data[10]),
            ),
        ),
        battery_millivolts: Some(be_u16(data[11], data[12])),
        tx_power_dbm: None,
        movement_counter: None,
        measurement_sequence_number: None,
        mac_address: None,
    }
}

impl SensorValues {
    /// Parses the raw fields out of the 13 bytes that follow the format
    /// version byte.  All multi-byte fields are big-endian.
    pub fn from_bytes(data: &[u8]) -> (r: Self)
        requires
            data@.len() == PAYLOAD_SIZE,
        ensures
            r.humidity == data@[0],
            r.temperature == be_u16(data@[1], data@[2]),
            r.pressure == be_u16(data@[3], data@[4]),
            r.acceleration == AccelerationVector(
                be_i16(data@[5], data@[6]),
                be_i16(data@[7], data@[8]),
                be_i16(data@[9], data@[10]),
            ),
            r.battery_potential == be_u16(data@[11], data@[12]),
    {
        SensorValues {
            humidity: data[0],
            temperature: u16_from_two_bytes(data[1], data[2]),
            pressure: u16_from_two_bytes(data[3], data[4]),
            acceleration: AccelerationVector(
                i16_from_two_bytes(data[5], data[6]),
                i16_from_two_bytes(data[7], data[8]),
                i16_from_two_bytes(data[9], data[10]),
            ),
            battery_potential: u16_from_two_bytes(data[11], data[12]),
        }
    }
}

impl Acceleration for SensorValues {
    open spec fn spec_acceleration(&self) -> Option<AccelerationVector> {
        Some(self.acceleration)
    }

    fn acceleration_vector_as_milli_g(&self) -> Option<AccelerationVector> {
        Some(self.acceleration)
    }
}

impl BatteryPotential for SensorValues {
    open spec fn spec_battery_millivolts(&self) -> Option<u16> {
        Some(self.battery_potential)
    }

    fn battery_potential_as_millivolts(&self) -> Option<u16> {
        Some(self.battery_potential)
    }
}

impl Humidity for SensorValues {
    open spec fn spec_humidity_ppm(&self) -> Option<u32> {
        Some((self.humidity * 5000) as u32)
    }

    fn humidity_as_ppm(&self) -> Option<u32> {
        Some(self.humidity as u32 * 5000)
    }
}

impl MacAddress for SensorValues {
    open spec fn spec_mac_address(&self) -> Option<Seq<u8>> {
        None
    }

    fn mac_address(&self) -> Option<[u8; 6]> {
        None
    }
}

impl MeasurementSequenceNumber for SensorValues {
    open spec fn spec_measurement_sequence_number(&self) -> Option<u32> {
        None
    }

    fn measurement_sequence_number(&self) -> Option<u32> {
        None
    }
}

impl MovementCounter for SensorValues {
    open spec fn spec_movement_counter(&self) -> Option<u32> {
        None
    }

    fn movement_counter(&self) -> Option<u32> {
        None
    }
}

impl Pressure for SensorValues {
    open spec fn spec_pressure_pascals(&self) -> Option<u32> {
        Some((self.pressure + 50000) as u32)
    }

    fn pressure_as_pascals(&self) -> Option<u32> {
        Some(self.pressure as u32 + 50000)
    }
}

impl Temperature for SensorValues {
    open spec fn spec_temperature_millikelvins(&self) -> Option<u32> {
        Some(spec_temperature(self.temperature))
    }

    fn temperature_as_millikelvins(&self) -> Option<u32> {
        let integer_part: u32 = ((self.temperature / 256) % 128) as u32;
        let tenths: u32 = (self.temperature % 256) as u32;
        let magnitude: u32 = integer_part * 1000 + tenths * 10;
        if self.temperature < 32768 {
            Some(273150 + magnitude)
        } else {
            Some(273150 - magnitude)
        }
    }
}

impl TransmitterPower for SensorValues {
    open spec fn spec_tx_power_dbm(&self) -> Option<i8> {
        None
    }

    fn tx_power_as_dbm(&self) -> Option<i8> {
        None
    }
}

} // verus!
