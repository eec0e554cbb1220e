use vstd::prelude::*;

pub mod generic;
pub mod traits;
pub mod util;
pub mod v3;
pub mod v5;

verus! {

/// a 3-dimensional vector which represents acceleration of each dimension in milli-G
#[derive(Clone, Copy, Debug, Eq, PartialEq, Structural)]
pub struct AccelerationVector(pub i16, pub i16, pub i16);

/// Mathematical model of one decoded set of sensor values.  Each field is
/// `None` when the source format can not represent the value or marked it
/// unavailable with its sentinel.
pub ghost struct SensorValuesModel {
    /// humidity in parts per million
    pub humidity_ppm: Option<u32>,
    /// temperature in milli-kelvins
    pub temperature_millikelvins: Option<u32>,
    /// pressure in pascals
    pub pressure_pascals: Option<u32>,
    /// 3-dimensional acceleration vector, each component in milli-G
    pub acceleration_milli_g: Option<AccelerationVector>,
    /// battery potential in milli-volts
    pub battery_millivolts: Option<u16>,
    /// transmitter power in dBm
    pub tx_power_dbm: Option<i8>,
    /// movement counter
    pub movement_counter: Option<u32>,
    /// measurement sequence number
    pub measurement_sequence_number: Option<u32>,
    /// MAC address, six bytes
    pub mac_address: Option<Seq<u8>>,
}

} // verus!
