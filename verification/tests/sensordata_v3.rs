use ruuvi_sensor_protocol::sensordata::{InvalidValueLength, SensorDataV3};

#[test]
fn parse_version_3_data_with_invalid_length() {
    let value = vec![3, 103, 22, 50, 60, 70];
    let result = SensorDataV3::from_manufacturer_specific_data(&value);
    assert!(result.is_err());
    assert_eq!(result.unwrap_err(), InvalidValueLength);
}

#[test]
fn parse_version_3_humidity() {
    let value = vec![3, 0x17, 0, 0, 0, 0, 0, 0, 0, 0, 0, 0, 0, 0];
    let result = SensorDataV3::from_manufacturer_specific_data(&value);
    assert!(result.is_ok());
    assert_eq!(result.unwrap().humidity, 0x17);
}

#[test]
fn parse_version_3_temperature() {
    let value = vec![3, 0, 0x01, 0x45, 0, 0, 0, 0, 0, 0, 0, 0, 0, 0];
    let result = SensorDataV3::from_manufacturer_specific_data(&value);
    assert!(result.is_ok());
    assert_eq!(result.unwrap().temperature, 0x0145);
}
