use ruuvi_sensor_protocol::formats::v3::SensorValues;
use ruuvi_sensor_protocol::{
    Acceleration, AccelerationVector, BatteryPotential, Humidity, MacAddress,
    MeasurementSequenceNumber, MovementCounter, Pressure, Temperature, TransmitterPower,
};

const INPUT: [u8; 13] = [
    0x17, 0x01, 0x45, 0x35, 0x58, 0x03, 0xE8, 0x04, 0xE7, 0x05, 0xE6, 0x08, 0x86,
];
const NEGATIVE_INPUT: [u8; 13] = [
    0x17, 0x81, 0x45, 0x35, 0x58, 0xFC, 0x18, 0xFB, 0x19, 0xFA, 0x1A, 0x08, 0x86,
];

#[test]
fn v3_valid_input() {
    assert_eq!(
        SensorValues::from_bytes(&INPUT),
        SensorValues {
            humidity: 0x17,
            temperature: 0x0145,
            pressure: 0x3558,
            acceleration: AccelerationVector(1000, 1255, 1510),
            battery_potential: 0x0886,
        }
    );
}

#[test]
fn v3_positive_input_trait_methods() {
    let values = SensorValues::from_bytes(&INPUT);
    assert_eq!(
        values.acceleration_vector_as_milli_g(),
        Some(AccelerationVector(1000, 1255, 1510))
    );
    assert_eq!(values.battery_potential_as_millivolts(), Some(2182));
    assert_eq!(values.humidity_as_ppm(), Some(115_000));
    assert_eq!(values.mac_address(), None);
    assert_eq!(values.measurement_sequence_number(), None);
    assert_eq!(values.movement_counter(), None);
    assert_eq!(values.pressure_as_pascals(), Some(63_656));
    assert_eq!(values.temperature_as_millikelvins(), Some(274_840));
    assert_eq!(values.temperature_as_millicelsius(), Some(1690));
    assert_eq!(values.tx_power_as_dbm(), None);
}

#[test]
fn v3_negative_input_trait_methods() {
    let values = SensorValues::from_bytes(&NEGATIVE_INPUT);
    assert_eq!(
        values.acceleration_vector_as_milli_g(),
        Some(AccelerationVector(-1000, -1255, -1510))
    );
    assert_eq!(values.temperature_as_millikelvins(), Some(271_460));
    assert_eq!(values.temperature_as_millicelsius(), Some(-1690));
}
