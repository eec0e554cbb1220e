use ruuvi_sensor_protocol::formats::v5::SensorValues;
use ruuvi_sensor_protocol::{
    Acceleration, AccelerationVector, BatteryPotential, Humidity, MacAddress,
    MeasurementSequenceNumber, MovementCounter, Pressure, Temperature, TransmitterPower,
};

// These test vectors are from the format specification.
const VALID_VALUES: [u8; 23] = [
    0x12, 0xFC, 0x53, 0x94, 0xC3, 0x7C, 0x00, 0x04, 0xFF, 0xFC, 0x04, 0x0C, 0xAC, 0x36, 0x42,
    0x00, 0xCD, 0xCB, 0xB8, 0x33, 0x4C, 0x88, 0x4F,
];
const MAX_VALUES: [u8; 23] = [
    0x7F, 0xFF, 0xFF, 0xFE, 0xFF, 0xFE, 0x7F, 0xFF, 0x7F, 0xFF, 0x7F, 0xFF, 0xFF, 0xDE, 0xFE,
    0xFF, 0xFE, 0xCB, 0xB8, 0x33, 0x4C, 0x88, 0x4F,
];
const MIN_VALUES: [u8; 23] = [
    0x80, 0x01, 0x00, 0x00, 0x00, 0x00, 0x80, 0x01, 0x80, 0x01, 0x80, 0x01, 0x00, 0x00, 0x00,
    0x00, 0x00, 0xCB, 0xB8, 0x33, 0x4C, 0x88, 0x4F,
];
const INVALID_VALUES: [u8; 23] = [
    0x80, 0x00, 0xFF, 0xFF, 0xFF, 0xFF, 0x80, 0x00, 0x80, 0x00, 0x80, 0x00, 0xFF, 0xFF, 0xFF,
    0xFF, 0xFF, 0xFF, 0xFF, 0xFF, 0xFF, 0xFF, 0xFF,
];

#[test]
fn v5_valid_input() {
    assert_eq!(
        SensorValues::from_bytes(&VALID_VALUES),
        SensorValues {
            humidity: 0x5394,
            temperature: 0x12FC,
            pressure: 0xC37C,
            acceleration: [4, -4, 1036],
            power_info: 0xAC36,
            movement_counter: 0x42,
            measurement_sequence_number: 0xCD,
            mac_address: [0xCB, 0xB8, 0x33, 0x4C, 0x88, 0x4F],
        }
    );
}

#[test]
fn v5_valid_values_trait_methods() {
    let values = SensorValues::from_bytes(&VALID_VALUES);
    assert_eq!(
        values.acceleration_vector_as_milli_g(),
        Some(AccelerationVector(4, -4, 1_036))
    );
    assert_eq!(values.battery_potential_as_millivolts(), Some(2_977));
    assert_eq!(values.humidity_as_ppm(), Some(534_900));
    assert_eq!(values.mac_address(), Some([0xCB, 0xB8, 0x33, 0x4C, 0x88, 0x4F]));
    assert_eq!(values.measurement_sequence_number(), Some(205));
    assert_eq!(values.movement_counter(), Some(66));
    assert_eq!(values.pressure_as_pascals(), Some(100_044));
    assert_eq!(values.temperature_as_millicelsius(), Some(24_300));
    assert_eq!(values.tx_power_as_dbm(), Some(4));
}

#[test]
fn v5_invalid_values_trait_methods() {
    let values = SensorValues::from_bytes(&INVALID_VALUES);
    assert_eq!(values.acceleration_vector_as_milli_g(), None);
    assert_eq!(values.battery_potential_as_millivolts(), None);
    assert_eq!(values.humidity_as_ppm(), None);
    assert_eq!(values.mac_address(), None);
    assert_eq!(values.measurement_sequence_number(), None);
    assert_eq!(values.movement_counter(), None);
    assert_eq!(values.pressure_as_pascals(), None);
    assert_eq!(values.temperature_as_millikelvins(), None);
    assert_eq!(values.temperature_as_millicelsius(), None);
    assert_eq!(values.tx_power_as_dbm(), None);
}

#[test]
fn v5_min_values_trait_methods() {
    let values = SensorValues::from_bytes(&MIN_VALUES);
    assert_eq!(
        values.acceleration_vector_as_milli_g(),
        Some(AccelerationVector(-32_767, -32_767, -32_767))
    );
    assert_eq!(values.battery_potential_as_millivolts(), Some(1_600));
    assert_eq!(values.humidity_as_ppm(), Some(0));
    assert_eq!(values.measurement_sequence_number(), Some(0));
    assert_eq!(values.movement_counter(), Some(0));
    assert_eq!(values.pressure_as_pascals(), Some(50_000));
    assert_eq!(values.temperature_as_millicelsius(), Some(-163_835));
    assert_eq!(values.tx_power_as_dbm(), Some(-40));
}

#[test]
fn v5_max_values_trait_methods() {
    let values = SensorValues::from_bytes(&MAX_VALUES);
    assert_eq!(
        values.acceleration_vector_as_milli_g(),
        Some(AccelerationVector(32_767, 32_767, 32_767))
    );
    assert_eq!(values.battery_potential_as_millivolts(), Some(3_646));
    assert_eq!(values.humidity_as_ppm(), Some(1_638_350));
    assert_eq!(values.measurement_sequence_number(), Some(65_534));
    assert_eq!(values.movement_counter(), Some(254));
    assert_eq!(values.pressure_as_pascals(), Some(115_534));
    assert_eq!(values.temperature_as_millicelsius(), Some(163_835));
    assert_eq!(values.tx_power_as_dbm(), Some(20));
}

#[test]
fn v5_battery_raw_boundaries() {
    let with_power_info = |power_info: u16| SensorValues {
        humidity: 0,
        temperature: 0,
        pressure: 0,
        acceleration: [0, 0, 0],
        power_info,
        movement_counter: 0,
        measurement_sequence_number: 0,
        mac_address: [0, 0, 0, 0, 0, 0],
    };
    // battery raw value is the upper 11 bits of the power info field
    assert_eq!(
        with_power_info(0 << 5).battery_potential_as_millivolts(),
        Some(1_600)
    );
    assert_eq!(
        with_power_info(2046 << 5).battery_potential_as_millivolts(),
        Some(3_646)
    );
    assert_eq!(with_power_info(2047 << 5).battery_potential_as_millivolts(), None);
}
