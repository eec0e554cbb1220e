use vstd::prelude::*;

use crate::formats::AccelerationVector;

verus! {

pub const ZERO_CELSIUS_IN_MILLIKELVINS: u32 = 273150;

/// Converts an optional millikelvin reading to millicelsius.  A value too far
/// above zero Celsius to fit the result type is truncated; every reading that
/// the supported formats can produce is far inside the representable range.
pub open spec fn spec_millicelsius_from_millikelvins(millikelvins: Option<u32>) -> Option<i32> {
    match millikelvins {
        Some(mk) => Some((mk - ZERO_CELSIUS_IN_MILLIKELVINS) as i32),
        None => None,
    }
}

pub trait Acceleration {
    /// The acceleration vector this value represents, if one is available.
    spec fn spec_acceleration(&self) -> Option<AccelerationVector>;

    /// Returns a three-dimensional acceleration vector where each component is in milli-G if an
    /// acceleration measurement is available.
    fn acceleration_vector_as_milli_g(&self) -> (r: Option<AccelerationVector>)
        ensures
            r == self.spec_acceleration(),
    ;
}

pub trait BatteryPotential {
    /// The battery potential this value represents, if one is available.
    spec fn spec_battery_millivolts(&self) -> Option<u16>;

    /// Returns battery potential as milli-volts
    fn battery_potential_as_millivolts(&self) -> (r: Option<u16>)
        ensures
            r == self.spec_battery_millivolts(),
    ;
}

pub trait Humidity {
    /// The humidity reading this value represents, if one is available.
    spec fn spec_humidity_ppm(&self) -> Option<u32>;

    /// Returns relative humidity as parts per million
    fn humidity_as_ppm(&self) -> (r: Option<u32>)
        ensures
            r == self.spec_humidity_ppm(),
    ;
}

pub trait MacAddress {
    /// The MAC address this value carries, if one is available.
    spec fn spec_mac_address(&self) -> Option<Seq<u8>>;

    /// Returns the MAC address of the sensor if available.
    fn mac_address(&self) -> (r: Option<[u8; 6]>)
        ensures
            match r {
                Some(mac) => self.spec_mac_address() == Some(mac@),
                None => self.spec_mac_address() is None,
            },
    ;
}

pub trait MeasurementSequenceNumber {
    /// The measurement sequence number this value carries, if one is available.
    spec fn spec_measurement_sequence_number(&self) -> Option<u32>;

    /// Returns the measurement sequence number if available. The maximum value is not specified.
    fn measurement_sequence_number(&self) -> (r: Option<u32>)
        ensures
            r == self.spec_measurement_sequence_number(),
    ;
}

pub trait MovementCounter {
    /// The movement count this value carries, if one is available.
    spec fn spec_movement_counter(&self) -> Option<u32>;

    /// Returns the movement count of the tag if available. The maximum value is not specified.
    fn movement_counter(&self) -> (r: Option<u32>)
        ensures
            r == self.spec_movement_counter(),
    ;
}

pub trait Pressure {
    /// The pressure reading this value represents, if one is available.
    spec fn spec_pressure_pascals(&self) -> Option<u32>;

    /// Returns pressure as pascals
    fn pressure_as_pascals(&self) -> (r: Option<u32>)
        ensures
            r == self.spec_pressure_pascals(),
    ;
}

pub trait Temperature {
    /// The temperature reading this value represents, if one is available.
    spec fn spec_temperature_millikelvins(&self) -> Option<u32>;

    /// Returns temperature as milli-kelvins if a temperature reading is available.
    fn temperature_as_millikelvins(&self) -> (r: Option<u32>)
        ensures
            r == self.spec_temperature_millikelvins(),
    ;

    /// Returns temperature as milli-Celsius if a temperature reading is available.
    fn temperature_as_millicelsius(&self) -> (r: Option<i32>)
        ensures
            r == spec_millicelsius_from_millikelvins(self.spec_temperature_millikelvins()),
    {
        match self.temperature_as_millikelvins() {
            Some(mk) => Some(
                #[verifier::truncate]
                ((mk as i64 - ZERO_CELSIUS_IN_MILLIKELVINS as i64) as i32),
            ),
            None => None,
        }
    }
}

pub trait TransmitterPower {
    /// The transmitter power this value carries, if one is available.
    spec fn spec_tx_power_dbm(&self) -> Option<i8>;

    /// Returns transmitter power as dBm if available.
    fn tx_power_as_dbm(&self) -> (r: Option<i8>)
        ensures
            r == self.spec_tx_power_dbm(),
    ;
}

} // verus!
