use vstd::prelude::*;

verus! {

/// The big-endian unsigned 16-bit value formed by two bytes.
pub open spec fn be_u16(b1: u8, b2: u8) -> u16 {
    (b1 * 256 + b2) as u16
}

/// The big-endian two's-complement 16-bit value formed by two bytes.
pub open spec fn be_i16(b1: u8, b2: u8) -> i16 {
    if b1 < 128 {
        (b1 * 256 + b2) as i16
    } else {
        (b1 * 256 + b2 - 65536) as i16
    }
}

/// The little-endian unsigned 16-bit value formed by two bytes.
pub open spec fn le_u16(lo: u8, hi: u8) -> u16 {
    (hi * 256 + lo) as u16
}

pub(crate) fn u16_from_two_bytes(b1: u8, b2: u8) -> (r: u16)
    ensures
        r == be_u16(b1, b2),
{
    b1 as u16 * 256 + b2 as u16
}

pub(crate) fn i16_from_two_bytes(b1: u8, b2: u8) -> (r: i16)
    ensures
        r == be_i16(b1, b2),
{
    let wide: i32 = b1 as i32 * 256 + b2 as i32;
    if wide < 32768 {
        wide as i16
    } else {
        (wide - 65536) as i16
    }
}

} // verus!
