use vstd::prelude::*;

use crate::errors::ParseError;
use crate::formats::traits::{
    Acceleration, BatteryPotential, Humidity, MacAddress, MeasurementSequenceNumber,
    MovementCounter, Pressure, Temperature, TransmitterPower,
};
use crate::formats::util::be_u16;
use crate::formats::{v3, v5, AccelerationVector, SensorValuesModel};
use vstd::slice::slice_subrange;

verus! {

/// The manufacturer identifier of the supported sensor beacons.
pub const MANUFACTURER_DATA_ID: u16 = 0x0499;

/// The decoding relation of the manufacturer specific data element: which
/// reading or which error a manufacturer identifier and a value field decode
/// to.  The error cases are checked in order: an empty value first, then the
/// manufacturer identifier, then the format version byte, then the length of
/// the value, which counts the version byte on both sides of the comparison.
pub open spec fn spec_from_manufacturer_specific_data(id: u16, value: Seq<u8>) -> Result<
    SensorValuesModel,
    ParseError,
> {
    if value.len() == 0 {
        Err(ParseError::EmptyValue)
    } else if id != MANUFACTURER_DATA_ID {
        Err(ParseError::UnknownManufacturerId(id))
    } else if value[0] == v3::VERSION {
        if value.len() == v3::PAYLOAD_SIZE + 1 {
            Ok(v3::spec_parse(value.subrange(1, value.len() as int)))
        } else {
            Err(
                ParseError::InvalidValueLength(
                    v3::VERSION,
                    value.len() as usize,
                    (v3::PAYLOAD_SIZE + 1) as usize,
                ),
            )
        }
    } else if value[0] == v5::VERSION {
        if value.len() == v5::PAYLOAD_SIZE + 1 {
            Ok(v5::spec_parse(value.subrange(1, value.len() as int)))
        } else {
            Err(
                ParseError::InvalidValueLength(
                    v5::VERSION,
                    value.len() as usize,
                    (v5::PAYLOAD_SIZE + 1) as usize,
                ),
            )
        }
    } else {
        Err(ParseError::UnsupportedFormatVersion(value[0]))
    }
}

/// Represents a set of values read from sensors on the device
#[derive(Clone, Debug, PartialEq)]
pub struct SensorValues {
    /// humidity in parts per million
    humidity: Option<u32>,
    /// temperature in milli-kelvins
    temperature: Option<u32>,
    /// pressure in pascals
    pressure: Option<u32>,
    /// 3-dimensional acceleration vector, each component is in milli-G
    acceleration: Option<AccelerationVector>,
    /// battery potential in milli-volts
    battery_potential: Option<u16>,
    /// transmitter power in dBm
    tx_power: Option<i8>,
    /// movement counter
    movement_counter: Option<u32>,
    /// measurement sequence number
    measurement_sequence_number: Option<u32>,
    /// MAC address
    mac_address: Option<[u8; 6]>,
}

impl View for SensorValues {
    type V = SensorValuesModel;

    closed spec fn view(&self) -> SensorValuesModel {
        SensorValuesModel {
            humidity_ppm: self.humidity,
            temperature_millikelvins: self.temperature,
            pressure_pascals: self.pressure,
            acceleration_milli_g: self.acceleration,
            battery_millivolts: self.battery_potential,
            tx_power_dbm: self.tx_power,
            movement_counter: self.movement_counter,
            measurement_sequence_number: self.measurement_sequence_number,
            mac_address: match self.mac_address {
                Some(mac) => Some(mac@),
                None => None,
            },
        }
    }
}

impl SensorValues {
    /// Parses sensor values from the payload encoded in the manufacturer
    /// specific data field.  The function returns a `ParseError` if the `id`
    /// does not match the expected id in the manufacturer specific data, or
    /// the format of the `value` is not supported.  At the moment only
    /// versions 3 and 5 of the format are supported.
    pub fn from_manufacturer_specific_data(id: u16, value: &[u8]) -> (r: Result<
        SensorValues,
        ParseError,
    >)
        ensures
            match r {
                Ok(v) => spec_from_manufacturer_specific_data(id, value@) == Ok::<
                    SensorValuesModel,
                    ParseError,
                >(v@),
                Err(e) => spec_from_manufacturer_specific_data(id, value@) == Err::<
                    SensorValuesModel,
                    ParseError,
                >(e),
            },
    {
        if value.len() == 0 {
            return Err(ParseError::EmptyValue);
        }
        if id != MANUFACTURER_DATA_ID {
            return Err(ParseError::UnknownManufacturerId(id));
        }
        let version = value[0];
        if version == v3::VERSION {
            if value.len() == v3::PAYLOAD_SIZE + 1 {
                let data = slice_subrange(value, 1, v3::PAYLOAD_SIZE + 1);
                let raw = v3::SensorValues::from_bytes(data);
                let values = SensorValues::from_values(&raw);
                proof {
                    assert(data@ =~= value@.subrange(1, value@.len() as int));
                    assert(values@ == v3::spec_parse(value@.subrange(1, value@.len() as int)));
                }
                Ok(values)
            } else {
                Err(ParseError::InvalidValueLength(v3::VERSION, value.len(), v3::PAYLOAD_SIZE + 1))
            }
        } else if version == v5::VERSION {
            if value.len() == v5::PAYLOAD_SIZE + 1 {
                let data = slice_subrange(value, 1, v5::PAYLOAD_SIZE + 1);
                let raw = v5::SensorValues::from_bytes(data);
                let values = SensorValues::from_values(&raw);
                proof {
                    assert(data@ =~= value@.subrange(1, value@.len() as int));
                    assert(values@ == v5::spec_parse(value@.subrange(1, value@.len() as int)));
                }
                Ok(values)
            } else {
                Err(ParseError::InvalidValueLength(v5::VERSION, value.len(), v5::PAYLOAD_SIZE + 1))
            }
        } else {
            Err(ParseError::UnsupportedFormatVersion(version))
        }
    }

    /// Collects the readings of one parsed payload into a single set of
    /// sensor values, by asking the payload for each measurement in turn.
    pub fn from_values<T: Acceleration + BatteryPotential + Humidity + MacAddress
        + MeasurementSequenceNumber + MovementCounter + Pressure + Temperature
        + TransmitterPower>(values: &T) -> (r: SensorValues)
        ensures
            r@ == (SensorValuesModel {
                humidity_ppm: values.spec_humidity_ppm(),
                temperature_millikelvins: values.spec_temperature_millikelvins(),
                pressure_pascals: values.spec_pressure_pascals(),
                acceleration_milli_g: values.spec_acceleration(),
                battery_millivolts: values.spec_battery_millivolts(),
                tx_power_dbm: values.spec_tx_power_dbm(),
                movement_counter: values.spec_movement_counter(),
                measurement_sequence_number: values.spec_measurement_sequence_number(),
                mac_address: values.spec_mac_address(),
            }),
    {
        SensorValues {
            acceleration: values.acceleration_vector_as_milli_g(),
            battery_potential: values.battery_potential_as_millivolts(),
            humidity: values.humidity_as_ppm(),
            mac_address: values.mac_address(),
            measurement_sequence_number: values.measurement_sequence_number(),
            movement_counter: values.movement_counter(),
            pressure: values.pressure_as_pascals(),
            temperature: values.temperature_as_millikelvins(),
            tx_power: values.tx_power_as_dbm(),
        }
    }
}

/// Every 14-byte version 3 value decodes successfully, and its pressure
/// reading is always present: the raw big-endian field plus 50000 pascals.
pub proof fn lemma_v3_pressure_always_present(value: Seq<u8>)
    requires
        value.len() == v3::PAYLOAD_SIZE + 1,
        value[0] == v3::VERSION,
    ensures
        spec_from_manufacturer_specific_data(MANUFACTURER_DATA_ID, value) matches Ok(m)
            && m.pressure_pascals == Some(
            (be_u16(value[4], value[5]) + 50000) as u32,
        ),
{
}

/// Every 14-byte version 3 value decodes successfully, and its temperature
/// reading is always present: 273150 millikelvins plus or minus the encoded
/// magnitude of whole degrees and tenths of a degree, the sign given by the
/// top bit of the first temperature byte.
pub proof fn lemma_v3_temperature_always_present(value: Seq<u8>)
    requires
        value.len() == v3::PAYLOAD_SIZE + 1,
        value[0] == v3::VERSION,
    ensures
        spec_from_manufacturer_specific_data(MANUFACTURER_DATA_ID, value) matches Ok(m) && ({
            let magnitude = (value[2] % 128) * 1000 + value[3] * 10;
            if value[2] < 128 {
                m.temperature_millikelvins == Some((273150 + magnitude) as u32)
            } else {
                m.temperature_millikelvins == Some((273150 - magnitude) as u32)
            }
        }),
{
    let data = value.subrange(1, value.len() as int);
    let raw = be_u16(data[1], data[2]);
    assert(raw == value[2] * 256 + value[3]);
    assert(raw / 256 == value[2] && raw % 256 == value[3]) by (nonlinear_arith)
        requires
            raw == value[2] * 256 + value[3],
            0 <= value[2] < 256,
            0 <= value[3] < 256,
    ;
    assert((raw / 256) % 128 == value[2] % 128);
    assert(raw < 32768 <==> value[2] < 128) by (nonlinear_arith)
        requires
            raw == value[2] * 256 + value[3],
            0 <= value[2] < 256,
            0 <= value[3] < 256,
    ;
}

/// A version 5 value whose fields all hold their sentinel bit patterns
/// decodes successfully to a reading with every optional field absent.  For
/// the acceleration vector one sentinel axis suffices.
pub proof fn lemma_v5_all_sentinels_decode_to_none(value: Seq<u8>)
    requires
        value.len() == v5::PAYLOAD_SIZE + 1,
        value[0] == v5::VERSION,
        value[1] == 0x80 && value[2] == 0x00,
        value[3] == 0xFF && value[4] == 0xFF,
        value[5] == 0xFF && value[6] == 0xFF,
        (value[7] == 0x80 && value[8] == 0x00) || (value[9] == 0x80 && value[10] == 0x00) || (
        value[11] == 0x80 && value[12] == 0x00),
        value[13] == 0xFF && value[14] == 0xFF,
        value[15] == 0xFF,
        value[16] == 0xFF && value[17] == 0xFF,
        forall|i: int| 18 <= i < 24 ==> value[i] == 0xFF,
    ensures
        spec_from_manufacturer_specific_data(MANUFACTURER_DATA_ID, value) matches Ok(m)
            && m == (SensorValuesModel {
            humidity_ppm: None,
            temperature_millikelvins: None,
            pressure_pascals: None,
            acceleration_milli_g: None,
            battery_millivolts: None,
            tx_power_dbm: None,
            movement_counter: None,
            measurement_sequence_number: None,
            mac_address: None,
        }),
{
    let data = value.subrange(1, value.len() as int);
    assert(data.subrange(17, 23) =~= seq![0xFFu8, 0xFF, 0xFF, 0xFF, 0xFF, 0xFF]);
}

impl Acceleration for SensorValues {
    open spec fn spec_acceleration(&self) -> Option<AccelerationVector> {
        self@.acceleration_milli_g
    }

    fn acceleration_vector_as_milli_g(&self) -> Option<AccelerationVector> {
        self.acceleration
    }
}

impl BatteryPotential for SensorValues {
    open spec fn spec_battery_millivolts(&self) -> Option<u16> {
        self@.battery_millivolts
    }

    fn battery_potential_as_millivolts(&self) -> Option<u16> {
        self.battery_potential
    }
}

impl Humidity for SensorValues {
    open spec fn spec_humidity_ppm(&self) -> Option<u32> {
        self@.humidity_ppm
    }

    fn humidity_as_ppm(&self) -> Option<u32> {
        self.humidity
    }
}

impl MacAddress for SensorValues {
    open spec fn spec_mac_address(&self) -> Option<Seq<u8>> {
        self@.mac_address
    }

    fn mac_address(&self) -> Option<[u8; 6]> {
        self.mac_address
    }
}

impl MeasurementSequenceNumber for SensorValues {
    open spec fn spec_measurement_sequence_number(&self) -> Option<u32> {
        self@.measurement_sequence_number
    }

    fn measurement_sequence_number(&self) -> Option<u32> {
        self.measurement_sequence_number
    }
}

impl MovementCounter for SensorValues {
    open spec fn spec_movement_counter(&self) -> Option<u32> {
        self@.movement_counter
    }

    fn movement_counter(&self) -> Option<u32> {
        self.movement_counter
    }
}

impl Pressure for SensorValues {
    open spec fn spec_pressure_pascals(&self) -> Option<u32> {
        self@.pressure_pascals
    }

    fn pressure_as_pascals(&self) -> Option<u32> {
        self.pressure
    }
}

impl Temperature for SensorValues {
    open spec fn spec_temperature_millikelvins(&self) -> Option<u32> {
        self@.temperature_millikelvins
    }

    fn temperature_as_millikelvins(&self) -> Option<u32> {
        self.temperature
    }
}

impl TransmitterPower for SensorValues {
    open spec fn spec_tx_power_dbm(&self) -> Option<i8> {
        self@.tx_power_dbm
    }

    fn tx_power_as_dbm(&self) -> Option<i8> {
        self.tx_power
    }
}

} // verus!
