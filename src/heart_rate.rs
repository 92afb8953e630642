//! Heart-rate measurement: its two-byte wire form and the bounded random walk
//! that the streaming server follows.
use vstd::prelude::*;

verus! {

/// Value the streaming server starts from.
pub const INITIAL_HEART_RATE_MEASURE: u16 = 80;

/// Seconds between two notifications of the streaming server.
pub const NOTIFICATION_INTERVAL: u64 = 7;

/// Largest value the random walk may reach.
pub const MAX_HEART_RATE: u16 = 250;

/// Smallest value the random walk may reach.
pub const MIN_HEART_RATE: u16 = 60;

/// Big-endian value of the first two bytes.
pub open spec fn be_u16(b0: u8, b1: u8) -> int {
    b0 as int * 256 + b1 as int
}

/// Reads a measurement from its wire form: the first two bytes, big-endian.
pub fn vector_to_heart_rate(vector: &[u8]) -> (r: u16)
    requires
        vector@.len() >= 2,
    ensures
        r as int == be_u16(vector@[0], vector@[1]),
{
    let hi: u8 = vector[0];
    let lo: u8 = vector[1];
    let r: u16 = ((hi as u16) << 8u16) | lo as u16;
    assert(r as int == hi as int * 256 + lo as int) by (bit_vector)
        requires
            r == ((hi as u16) << 8u16) | lo as u16,
    ;
    r
}

/// Writes a measurement in its wire form: two bytes, big-endian.
pub fn heart_rate_to_vector(heart_rate: &u16) -> (r: Vec<u8>)
    ensures
        r@.len() == 2,
        be_u16(r@[0], r@[1]) == *heart_rate as int,
        r@[0] as int == *heart_rate as int / 256,
        r@[1] as int == *heart_rate as int % 256,
{
    let hr: u16 = *heart_rate;
    let hi: u8 = (hr >> 8u16) as u8;
    let lo: u8 = (hr & 0xffu16) as u8;
    assert(hi as int == hr as int / 256 && lo as int == hr as int % 256) by (bit_vector)
        requires
            hi == (hr >> 8u16) as u8,
            lo == (hr & 0xffu16) as u8,
    ;
    vec![hi, lo]
}

} // verus!

verus! {

/// One step of the random walk: the previous value moved by `change` and
/// kept within the allowed range.
pub open spec fn next_rate(previous: int, change: int) -> int {
    let v = previous + change;
    if v > MAX_HEART_RATE as int {
        MAX_HEART_RATE as int
    } else if v < MIN_HEART_RATE as int {
        MIN_HEART_RATE as int
    } else {
        v
    }
}

/// Moves a measurement by a random step, kept within
/// [`MIN_HEART_RATE`, `MAX_HEART_RATE`].
pub fn next_heart_rate(previous: u16, change: i16) -> (r: u16)
    ensures
        r as int == next_rate(previous as int, change as int),
        MIN_HEART_RATE <= r <= MAX_HEART_RATE,
{
    let v: i32 = previous as i32 + change as i32;
    if v > MAX_HEART_RATE as i32 {
        MAX_HEART_RATE
    } else if v < MIN_HEART_RATE as i32 {
        MIN_HEART_RATE
    } else {
        v as u16
    }
}

} // verus!
