use vstd::prelude::*;

use crate::formats::traits::{
    Acceleration, BatteryPotential, Humidity, MacAddress, MeasurementSequenceNumber,
    MovementCounter, Pressure, Temperature, TransmitterPower,
};
use crate::formats::util::{be_i16, be_u16, i16_from_two_bytes, u16_from_two_bytes};
use crate::formats::{AccelerationVector, SensorValuesModel};

verus! {

/// The format version byte of this format.
pub const VERSION: u8 = 5;

/// Length of the payload that follows the format version byte.
pub const PAYLOAD_SIZE: usize = 23;

/// Raw sensor values of the version 5 format, parsed from the 23 bytes of
/// manufacturer data that follow the format version byte.
///
/// Every field has a sentinel bit pattern that marks the measurement as
/// unavailable; the accessor methods map a sentinel to `None`.
#[derive(Clone, Copy, Debug, Eq, PartialEq)]
pub struct SensorValues {
    pub humidity: u16,
    pub temperature: i16,
    pub pressure: u16,
    pub acceleration: [i16; 3],
    pub power_info: u16,
    pub movement_counter: u8,
    pub measurement_sequence_number: u16,
    pub mac_address: [u8; 6],
}

/// The model of the sensor values encoded by a 23-byte version 5 payload.
pub open spec fn spec_parse(data: Seq<u8>) -> SensorValuesModel
    recommends
        data.len() == PAYLOAD_SIZE,
{
    let temperature = be_i16(data[0], data[1]);
    let humidity = be_u16(data[2], data[3]);
    let pressure = be_u16(data[4], data[5]);
    let acceleration_x = be_i16(data[6], data[7]);
    let acceleration_y = be_i16(data[8], data[9]);
    let acceleration_z = be_i16(data[10], data[11]);
    let power_info = be_u16(data[12], data[13]);
    let movement_counter = data[14];
    let measurement_sequence_number = be_u16(data[15], data[16]);
    let mac_address = data.subrange(17, 23);
    SensorValuesModel {
        humidity_ppm: spec_humidity_ppm(humidity),
        temperature_millikelvins: spec_temperature_millikelvins(temperature),
        pressure_pascals: spec_pressure_pascals(pressure),
        acceleration_milli_g: spec_acceleration(acceleration_x, acceleration_y, acceleration_z),
        battery_millivolts: spec_battery_millivolts(power_info),
        tx_power_dbm: spec_tx_power_dbm(power_info),
        movement_counter: spec_movement_counter(movement_counter),
        measurement_sequence_number: spec_measurement_sequence_number(
            measurement_sequence_number,
        ),
        mac_address: spec_mac_address(mac_address),
    }
}

/// Humidity in parts per million; the raw value `0xFFFF` is the sentinel.
pub open spec fn spec_humidity_ppm(raw: u16) -> Option<u32> {
    if raw != 0xFFFF {
        Some((raw * 25) as u32)
    } else {
        None
    }
}

/// Temperature in millikelvins, 5 millicelsius per raw step; the raw value
/// `i16::MIN` is the sentinel.
pub open spec fn spec_temperature_millikelvins(raw: i16) -> Option<u32> {
    if raw != i16::MIN {
        Some((273150 + raw * 5) as u32)
    } else {
        None
    }
}

/// Pressure in pascals, offset by 50000; the raw value `0xFFFF` is the sentinel.
pub open spec fn spec_pressure_pascals(raw: u16) -> Option<u32> {
    if raw != 0xFFFF {
        Some((raw + 50000) as u32)
    } else {
        None
    }
}

/// The acceleration vector in milli-G.  The vector is available only if no
/// axis holds the sentinel `i16::MIN`; the rule is a conjunction over all
/// three axes, not per-axis.
pub open spec fn spec_acceleration(x: i16, y: i16, z: i16) -> Option<AccelerationVector> {
    if x != i16::MIN && y != i16::MIN && z != i16::MIN {
        Some(AccelerationVector(x, y, z))
    } else {
        None
    }
}

/// Battery potential in millivolts, decoded from the upper 11 bits of the
/// power info field; the raw value `2047` is the sentinel.
pub open spec fn spec_battery_millivolts(power_info: u16) -> Option<u16> {
    let raw = power_info / 32;
    if raw != 2047 {
        Some((1600 + raw) as u16)
    } else {
        None
    }
}

/// Transmitter power in dBm, decoded from the lower 5 bits of the power info
/// field, 2 dBm per raw step starting at -40; the raw value `31` is the
/// sentinel.
pub open spec fn spec_tx_power_dbm(power_info: u16) -> Option<i8> {
    let raw = power_info % 32;
    if raw != 31 {
        Some((raw * 2 - 40) as i8)
    } else {
        None
    }
}

/// Movement counter; the raw value `0xFF` is the sentinel.
pub open spec fn spec_movement_counter(raw: u8) -> Option<u32> {
    if raw != 0xFF {
        Some(raw as u32)
    } else {
        None
    }
}

/// Measurement sequence number; the raw value `0xFFFF` is the sentinel.
pub open spec fn spec_measurement_sequence_number(raw: u16) -> Option<u32> {
    if raw != 0xFFFF {
        Some(raw as u32)
    } else {
        None
    }
}

/// MAC address; six `0xFF` bytes are the sentinel.
pub open spec fn spec_mac_address(raw: Seq<u8>) -> Option<Seq<u8>> {
    if raw =~= seq![0xFFu8, 0xFF, 0xFF, 0xFF, 0xFF, 0xFF] {
        None
    } else {
        Some(raw)
    }
}

impl SensorValues {
    /// Parses the raw fields out of the 23 bytes that follow the format
    /// version byte.  All multi-byte fields are big-endian.
    pub fn from_bytes(data: &[u8]) -> (r: Self)
        requires
            data@.len() == PAYLOAD_SIZE,
        ensures
            r.temperature == be_i16(data@[0], data@[1]),
            r.humidity == be_u16(data@[2], data@[3]),
            r.pressure == be_u16(data@[4], data@[5]),
            r.acceleration@ =~= seq![
                be_i16(data@[6], data@[7]),
                be_i16(data@[8], data@[9]),
                be_i16(data@[10], data@[11]),
            ],
            r.power_info == be_u16(data@[12], data@[13]),
            r.movement_counter == data@[14],
            r.measurement_sequence_number == be_u16(data@[15], data@[16]),
            r.mac_address@ =~= data@.subrange(17, 23),
    {
        SensorValues {
            temperature: i16_from_two_bytes(data[0], data[1]),
            humidity: u16_from_two_bytes(data[2], data[3]),
            pressure: u16_from_two_bytes(data[4], data[5]),
            acceleration: [
                i16_from_two_bytes(data[6], data[7]),
                i16_from_two_bytes(data[8], data[9]),
                i16_from_two_bytes(data[10], data[11]),
            ],
            power_info: u16_from_two_bytes(data[12], data[13]),
            movement_counter: data[14],
            measurement_sequence_number: u16_from_two_bytes(data[15], data[16]),
            mac_address: [data[17], data[18], data[19], data[20], data[21], data[22]],
        }
    }
}

impl Acceleration for SensorValues {
    open spec fn spec_acceleration(&self) -> Option<AccelerationVector> {
        spec_acceleration(self.acceleration[0], self.acceleration[1], self.acceleration[2])
    }

    fn acceleration_vector_as_milli_g(&self) -> Option<AccelerationVector> {
        let x = self.acceleration[0];
        let y = self.acceleration[1];
        let z = self.acceleration[2];
        if x != i16::MIN && y != i16::MIN && z != i16::MIN {
            Some(AccelerationVector(x, y, z))
        } else {
            None
        }
    }
}

impl BatteryPotential for SensorValues {
    open spec fn spec_battery_millivolts(&self) -> Option<u16> {
        spec_battery_millivolts(self.power_info)
    }

    fn battery_potential_as_millivolts(&self) -> Option<u16> {
        let raw = self.power_info / 32;
        if raw != 2047 {
            Some(1600 + raw)
        } else {
            None
        }
    }
}

impl Humidity for SensorValues {
    open spec fn spec_humidity_ppm(&self) -> Option<u32> {
        spec_humidity_ppm(self.humidity)
    }

    fn humidity_as_ppm(&self) -> Option<u32> {
        if self.humidity != 0xFFFF {
            Some(self.humidity as u32 * 25)
        } else {
            None
        }
    }
}

impl MacAddress for SensorValues {
    open spec fn spec_mac_address(&self) -> Option<Seq<u8>> {
        spec_mac_address(self.mac_address@)
    }

    fn mac_address(&self) -> (r: Option<[u8; 6]>) {
        let m = self.mac_address;
        if m[0] == 0xFF && m[1] == 0xFF && m[2] == 0xFF && m[3] == 0xFF && m[4] == 0xFF && m[5]
            == 0xFF {
            proof {
                assert(m@ =~= seq![0xFFu8, 0xFF, 0xFF, 0xFF, 0xFF, 0xFF]);
            }
            None
        } else {
            proof {
                assert(!(m@ =~= seq![0xFFu8, 0xFF, 0xFF, 0xFF, 0xFF, 0xFF]));
            }
            Some(m)
        }
    }
}

impl MeasurementSequenceNumber for SensorValues {
    open spec fn spec_measurement_sequence_number(&self) -> Option<u32> {
        spec_measurement_sequence_number(self.measurement_sequence_number)
    }

    fn measurement_sequence_number(&self) -> Option<u32> {
        if self.measurement_sequence_number != 0xFFFF {
            Some(self.measurement_sequence_number as u32)
        } else {
            None
        }
    }
}

impl MovementCounter for SensorValues {
    open spec fn spec_movement_counter(&self) -> Option<u32> {
        spec_movement_counter(self.movement_counter)
    }

    fn movement_counter(&self) -> Option<u32> {
        if self.movement_counter != 0xFF {
            Some(self.movement_counter as u32)
        } else {
            None
        }
    }
}

impl Pressure for SensorValues {
    open spec fn spec_pressure_pascals(&self) -> Option<u32> {
        spec_pressure_pascals(self.pressure)
    }

    fn pressure_as_pascals(&self) -> Option<u32> {
        if self.pressure != 0xFFFF {
            Some(self.pressure as u32 + 50000)
        } else {
            None
        }
    }
}

impl Temperature for SensorValues {
    open spec fn spec_temperature_millikelvins(&self) -> Option<u32> {
        spec_temperature_millikelvins(self.temperature)
    }

    fn temperature_as_millikelvins(&self) -> Option<u32> {
        if self.temperature != i16::MIN {
            let scaled: i32 = self.temperature as i32 * 5;
            Some((273150 + scaled) as u32)
        } else {
            None
        }
    }
}

impl TransmitterPower for SensorValues {
    open spec fn spec_tx_power_dbm(&self) -> Option<i8> {
        spec_tx_power_dbm(self.power_info)
    }

    fn tx_power_as_dbm(&self) -> Option<i8> {
        let raw = self.power_info % 32;
        if raw != 31 {
            Some((raw as i8) * 2 - 40)
        } else {
            None
        }
    }
}

} // verus!
