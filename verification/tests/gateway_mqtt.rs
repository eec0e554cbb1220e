use ruuvi_sensor_protocol::gateway::{MqttData, MqttDataError};
use ruuvi_sensor_protocol::{MacAddress, MeasurementSequenceNumber, ParseError};

#[test]
fn parse_data_field_counter() {
    let data = "0201061BFF990405166455D5C6DE0008FFF403F0AE760F2A8BF41F0C28CBD6";
    let mqtt_data = MqttData::from_data_field(data).unwrap();

    assert_eq!(
        mqtt_data.data.mac_address(),
        Some([0xF4, 0x1F, 0x0C, 0x28, 0xCB, 0xD6])
    );
    assert_eq!(mqtt_data.data.measurement_sequence_number(), Some(10891));
}

#[test]
fn parse_data_field_switched_packet_order() {
    let data = "1BFF990405166455D5C6DE0008FFF403F0AE760F2A8BF41F0C28CBD6020106";
    let mqtt_data = MqttData::from_data_field(data).unwrap();

    assert_eq!(
        mqtt_data.data.mac_address(),
        Some([0xF4, 0x1F, 0x0C, 0x28, 0xCB, 0xD6])
    );
    assert_eq!(mqtt_data.data.measurement_sequence_number(), Some(10891));
}

#[test]
fn parse_data_field_no_flags_packet() {
    let data = "1BFF990405166455D5C6DE0008FFF403F0AE760F2A8BF41F0C28CBD6";
    let mqtt_data = MqttData::from_data_field(data).unwrap();

    assert_eq!(
        mqtt_data.data.mac_address(),
        Some([0xF4, 0x1F, 0x0C, 0x28, 0xCB, 0xD6])
    );
    assert_eq!(mqtt_data.data.measurement_sequence_number(), Some(10891));
}

#[test]
fn parse_data_field_no_manufacturer_data_packet() {
    let result = MqttData::from_data_field("020106");
    assert_eq!(result.unwrap_err(), MqttDataError::NoManufacturerData);
}

#[test]
fn parse_data_field_empty_data() {
    let result = MqttData::from_data_field("");
    assert_eq!(result.unwrap_err(), MqttDataError::NoManufacturerData);
}

#[test]
fn parse_data_field_two_manufacturer_data_packets() {
    let data = "1BFF990405158A5B05C6810004004403DCAB767A45BDE375CF374E23\
                1BFF990405166455D5C6DE0008FFF403F0AE760F2A8BF41F0C28CBD6";
    let mqtt_data = MqttData::from_data_field(data).unwrap();

    assert_eq!(
        mqtt_data.data.mac_address(),
        Some([0xE3, 0x75, 0xCF, 0x37, 0x4E, 0x23])
    );
    assert_eq!(mqtt_data.data.measurement_sequence_number(), Some(17853));
}

#[test]
fn parse_data_field_invalid_manufacturer() {
    let data = "0201061BFF9A0405166455D5C6DE0008FFF403F0AE760F2A8BF41F0C28CBD6";
    let result = MqttData::from_data_field(data);
    assert_eq!(
        result.unwrap_err(),
        MqttDataError::InvalidSensorData(ParseError::UnknownManufacturerId(0x049A))
    );
}

#[test]
fn parse_data_field_invalid_data() {
    let data = "0201061BFF990405166455D5C6DE0008FFF403F0AE760F2A8BF41F0C28CB";
    let result = MqttData::from_data_field(data);
    assert_eq!(result.unwrap_err(), MqttDataError::InvalidAdvertisement);
}

#[test]
fn parse_data_field_invalid_hex() {
    let result = MqttData::from_data_field("invalid");
    assert_eq!(result.unwrap_err(), MqttDataError::InvalidHex);
}

#[test]
fn parse_data_field_lowercase_hex() {
    let data = "0201061bff990405166455d5c6de0008fff403f0ae760f2a8bf41f0c28cbd6";
    let mqtt_data = MqttData::from_data_field(data).unwrap();
    assert_eq!(mqtt_data.data.measurement_sequence_number(), Some(10891));
}
