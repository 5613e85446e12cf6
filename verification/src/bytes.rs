//! Little-endian field extraction from raw report buffers.
//!
//! The controller is prone to returning short or oversized buffers under
//! electrical noise, so decoding never fails: a byte read past the end of
//! a buffer is taken as zero, and trailing bytes are ignored.

use vstd::prelude::*;

verus! {

/// The byte at offset `i`, or zero when the buffer is too short.
pub open spec fn spec_byte_at(s: Seq<u8>, i: int) -> u8 {
    if 0 <= i < s.len() {
        s[i]
    } else {
        0
    }
}

/// 16-bit little-endian field starting at offset `i`.
pub open spec fn spec_le16_at(s: Seq<u8>, i: int) -> u16 {
    (spec_byte_at(s, i) + spec_byte_at(s, i + 1) * 0x100) as u16
}

/// 32-bit little-endian field starting at offset `i`.
pub open spec fn spec_le32_at(s: Seq<u8>, i: int) -> u32 {
    (spec_byte_at(s, i) + spec_byte_at(s, i + 1) * 0x100 + spec_byte_at(s, i + 2) * 0x1_0000
        + spec_byte_at(s, i + 3) * 0x100_0000) as u32
}

/// Reads the byte at offset `i`, with the out-of-range-is-zero policy.
pub fn byte_at(buf: &[u8], i: usize) -> (r: u8)
    ensures
        r == spec_byte_at(buf@, i as int),
{
    if i < buf.len() {
        buf[i]
    } else {
        0
    }
}

/// Reads the 16-bit little-endian field at offset `i`.
pub fn read_le16_at(buf: &[u8], i: usize) -> (r: u16)
    requires
        i + 1 <= usize::MAX,
    ensures
        r == spec_le16_at(buf@, i as int),
{
    byte_at(buf, i) as u16 + byte_at(buf, i + 1) as u16 * 0x100
}

/// Reads the 32-bit little-endian field at offset `i`.
pub fn read_le32_at(buf: &[u8], i: usize) -> (r: u32)
    requires
        i + 3 <= usize::MAX,
    ensures
        r == spec_le32_at(buf@, i as int),
{
    byte_at(buf, i) as u32 + byte_at(buf, i + 1) as u32 * 0x100
        + byte_at(buf, i + 2) as u32 * 0x1_0000 + byte_at(buf, i + 3) as u32 * 0x100_0000
}

} // verus!
