use vstd::prelude::*;
use vstd::bytes::spec_u32_from_le_bytes;
use vstd::bytes::spec_u32_to_le_bytes;

use crate::protocal::S2C_SIZE;

verus! {

/// One reading of the sensor server, as the server's reply carries it:
/// three little-endian 32-bit numbers, in this order.
#[derive(Debug, Clone, Copy, PartialEq, Eq, Structural)]
pub struct SensorReading {
    pub people: u32,
    pub humidity: u32,
    pub temperature: u32,
}

/// The little-endian number in the four bytes of `frame` from `at`.
pub open spec fn spec_field(frame: Seq<u8>, at: int) -> u32 {
    spec_u32_from_le_bytes(frame.subrange(at, at + 4))
}

impl SensorReading {
    /// Decodes the server's reply: people in bytes 0..4, humidity in
    /// bytes 4..8, temperature in bytes 8..12.
    pub fn from_frame(frame: &[u8; S2C_SIZE]) -> (r: SensorReading)
        ensures
            r.people == spec_field(frame@, 0),
            r.humidity == spec_field(frame@, 4),
            r.temperature == spec_field(frame@, 8),
    {
        let bytes: &[u8] = vstd::array::array_as_slice(frame);
        let people: u32 = vstd::bytes::u32_from_le_bytes(vstd::slice::slice_subrange(bytes, 0, 4));
        let humidity: u32 = vstd::bytes::u32_from_le_bytes(vstd::slice::slice_subrange(bytes, 4, 8));
        let temperature: u32 = vstd::bytes::u32_from_le_bytes(
            vstd::slice::slice_subrange(bytes, 8, 12),
        );
        SensorReading { people, humidity, temperature }
    }

    /// The three values as the window's integer properties take them:
    /// people, humidity, temperature, each reinterpreted as signed.
    pub fn ui_values(&self) -> (v: (i32, i32, i32))
        ensures
            v.0 == self.people as i32,
            v.1 == self.humidity as i32,
            v.2 == self.temperature as i32,
    {
        (self.people as i32, self.humidity as i32, self.temperature as i32)
    }
}

/// Decoding keeps every byte of the reply: writing the three values back
/// in little-endian order gives the reply again.
pub proof fn lemma_reading_keeps_frame(frame: Seq<u8>)
    requires
        frame.len() == S2C_SIZE,
    ensures
        spec_u32_to_le_bytes(spec_field(frame, 0)) + spec_u32_to_le_bytes(spec_field(frame, 4))
            + spec_u32_to_le_bytes(spec_field(frame, 8)) == frame,
{
    vstd::bytes::lemma_auto_spec_u32_to_from_le_bytes();
    let a = frame.subrange(0, 4);
    let b = frame.subrange(4, 8);
    let c = frame.subrange(8, 12);
    assert(spec_u32_to_le_bytes(spec_u32_from_le_bytes(a)) == a);
    assert(spec_u32_to_le_bytes(spec_u32_from_le_bytes(b)) == b);
    assert(spec_u32_to_le_bytes(spec_u32_from_le_bytes(c)) == c);
    assert(a + b + c =~= frame);
}

} // verus!
