//! The magnetic angle sensor on the I2C bus: its address, the register that
//! holds the raw angle, and how the two bytes read from it make the raw angle.
use vstd::prelude::*;

verus! {

/// 7-bit I2C address of the angle sensor.
pub const SENSOR_ADDRESS: u8 = 0x36;

/// Register from which the raw angle is read (high byte first).
pub const RAW_ANGLE_REGISTER: u8 = 0x0E;

/// The raw angle that a high byte and a low byte make.
pub open spec fn raw_angle_of(hi: u8, lo: u8) -> int {
    hi as int * 256 + lo as int
}

/// Combines the two bytes read from `RAW_ANGLE_REGISTER`, high byte first,
/// into the raw angle.
pub fn raw_angle_from_bytes(buf: [u8; 2]) -> (angle: u16)
    ensures
        angle == raw_angle_of(buf@[0], buf@[1]),
{
    let hi = buf[0];
    let lo = buf[1];
    let angle = ((hi as u16) << 8) | (lo as u16);
    assert(angle == hi as int * 256 + lo as int) by (bit_vector)
        requires
            angle == ((hi as u16) << 8) | (lo as u16),
    ;
    angle
}

/// Decoding gives back every 16-bit value from its big-endian bytes.
pub proof fn lemma_raw_angle_round_trip(value: u16)
    ensures
        raw_angle_of((value / 256) as u8, (value % 256) as u8) == value,
{
}

} // verus!
