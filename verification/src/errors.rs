use vstd::prelude::*;

verus! {

/// Errors which can occur during parsing of the manufacturer specific data
#[derive(Clone, Debug, Eq, PartialEq, Structural)]
pub enum ParseError {
    /// Manufacturer id does not match the expected value
    UnknownManufacturerId(u16),
    /// Format of the data is not supported by this crate
    UnsupportedFormatVersion(u8),
    /// Length of the value does not match the expected length of the format;
    /// both lengths count the format version byte
    InvalidValueLength(u8, usize, usize),
    /// Format can not be determined from the value due to it being empty
    EmptyValue,
}

} // verus!
