use ruuvi_sensor_protocol::gateway::MqttData;
use ruuvi_sensor_protocol::{AccelerationVector, ParseError, SensorValues};

fn type_has_default_traits<T: core::fmt::Debug + Sized + Send + Sync + Unpin>() {}

#[test]
fn parse_error_has_default_traits() {
    type_has_default_traits::<ParseError>();
}

#[test]
fn sensor_values_has_default_traits() {
    type_has_default_traits::<SensorValues>();
}

#[test]
fn acceleration_vector_has_default_traits() {
    type_has_default_traits::<AccelerationVector>();
}

#[test]
fn mqtt_data_has_default_traits() {
    type_has_default_traits::<MqttData>();
}
