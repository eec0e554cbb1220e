use vstd::prelude::*;

use crate::errors::ParseError;
use crate::formats::generic::{spec_from_manufacturer_specific_data, SensorValues};
use crate::formats::SensorValuesModel;
use crate::gateway::data::{find_manufacturer_data, spec_find_manufacturer_data};

verus! {

/// Whether a character is an ASCII hex digit of either case.
pub open spec fn is_hex_digit(c: char) -> bool {
    ('0' <= c && c <= '9') || ('a' <= c && c <= 'f') || ('A' <= c && c <= 'F')
}

/// The value of one ASCII hex digit.
pub open spec fn hex_digit_value(c: char) -> u8
    recommends
        is_hex_digit(c),
{
    if '0' <= c && c <= '9' {
        (c as int - 48) as u8
    } else if 'a' <= c && c <= 'f' {
        (c as int - 87) as u8
    } else {
        (c as int - 55) as u8
    }
}

/// Whether a string is a well-formed hex encoding of a byte string: an even
/// number of characters, all of them hex digits.
pub open spec fn is_hex_string(s: Seq<char>) -> bool {
    s.len() % 2 == 0 && (forall|i: int| 0 <= i < s.len() ==> is_hex_digit(#[trigger] s[i]))
}

/// The byte string a hex string encodes: one byte per digit pair, high digit
/// first.
pub open spec fn spec_hex_decoded(s: Seq<char>) -> Seq<u8> {
    Seq::new(
        (s.len() / 2) as nat,
        |i: int| (hex_digit_value(s[2 * i]) * 16 + hex_digit_value(s[2 * i + 1])) as u8,
    )
}

/// Relies on hex::decode: it succeeds exactly on a string with an even
/// number of characters that are all hex digits of either case, and decodes
/// each digit pair to one byte, high digit first.
#[verifier::external_body]
fn decode_hex(encoded: &str) -> (r: Option<Vec<u8>>)
    ensures
        r is Some <==> is_hex_string(encoded@),
        match r {
            Some(bytes) => bytes@ == spec_hex_decoded(encoded@),
            None => true,
        },
{
    hex::decode(encoded).ok()
}

/// Why the `data` field of an MQTT message payload failed to parse.
#[derive(Clone, Debug, Eq, PartialEq, Structural)]
pub enum MqttDataError {
    /// The field is not a hex-encoded byte string
    InvalidHex,
    /// The advertisement has a framing error: a length prefix overruns the
    /// buffer, or an element body is malformed
    InvalidAdvertisement,
    /// No element of the advertisement carries manufacturer specific data
    NoManufacturerData,
    /// The manufacturer data payload does not decode to sensor values
    InvalidSensorData(ParseError),
}

/// The sensor values or the error that the hex-encoded `data` field of an
/// MQTT message payload parses to: the field is hex-decoded, the resulting
/// advertisement buffer is scanned for its first manufacturer data element,
/// and that element's identifier and payload are decoded as sensor values.
pub open spec fn spec_parse_data_field(encoded: Seq<char>) -> Result<
    SensorValuesModel,
    MqttDataError,
> {
    if !is_hex_string(encoded) {
        Err(MqttDataError::InvalidHex)
    } else {
        match spec_find_manufacturer_data(spec_hex_decoded(encoded)) {
            Err(_) => Err(MqttDataError::InvalidAdvertisement),
            Ok(None) => Err(MqttDataError::NoManufacturerData),
            Ok(Some((id, payload))) => match spec_from_manufacturer_specific_data(id, payload) {
                Ok(m) => Ok(m),
                Err(e) => Err(MqttDataError::InvalidSensorData(e)),
            },
        }
    }
}

/// MQTT message payload sent by a gateway.
///
/// At the moment, only the `data` field is parsed from the payload although
/// it may contain other fields.
#[derive(Debug)]
pub struct MqttData {
    /// Sensor values parsed from the message payload
    pub data: SensorValues,
}

impl MqttData {
    /// Parses the hex-encoded `data` field of an MQTT message payload.  The
    /// JSON envelope around the field is the caller's concern.
    pub fn from_data_field(encoded: &str) -> (r: Result<MqttData, MqttDataError>)
        ensures
            match r {
                Ok(m) => spec_parse_data_field(encoded@) == Ok::<
                    SensorValuesModel,
                    MqttDataError,
                >(m.data@),
                Err(e) => spec_parse_data_field(encoded@) == Err::<
                    SensorValuesModel,
                    MqttDataError,
                >(e),
            },
    {
        let decoded = match decode_hex(encoded) {
            Some(bytes) => bytes,
            None => {
                return Err(MqttDataError::InvalidHex);
            },
        };
        match find_manufacturer_data(decoded.as_slice()) {
            Err(_) => Err(MqttDataError::InvalidAdvertisement),
            Ok(None) => Err(MqttDataError::NoManufacturerData),
            Ok(Some((id, payload))) => match SensorValues::from_manufacturer_specific_data(
                id,
                payload,
            ) {
                Ok(values) => Ok(MqttData { data: values }),
                Err(e) => Err(MqttDataError::InvalidSensorData(e)),
            },
        }
    }
}

} // verus!
