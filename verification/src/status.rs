//! Decoding of the controller's status registers.
//!
//! The device status register is two 8-bit bytes, each unpacked into
//! eight single-bit flags, followed by a 16-bit little-endian read
//! length.  A secondary status structure is consulted while draining a
//! multi-packet report.

use vstd::prelude::*;

use crate::bytes::{read_le16_at, byte_at, spec_byte_at, spec_le16_at};

verus! {

/// Flags of the low status byte, one per bit position.
#[derive(Clone, Copy, Debug, PartialEq, Eq, Structural)]
pub struct StatusLow {
    /// Bit 0: at least one touch point is present.
    pub pt_exist: bool,
    /// Bit 1: a gesture report is pending.
    pub gesture: bool,
    /// Bit 2: a key event is pending.
    pub key: bool,
    /// Bit 3: auxiliary flag.
    pub aux: bool,
    /// Bit 4: "keep" flag.
    pub keep: bool,
    /// Bit 5: raw-data mode rather than point mode.
    pub raw_or_pt: bool,
    /// Bit 6: reserved.
    pub none6: bool,
    /// Bit 7: reserved.
    pub none7: bool,
}

/// Flags of the high status byte, one per bit position.
#[derive(Clone, Copy, Debug, PartialEq, Eq, Structural)]
pub struct StatusHigh {
    /// Bit 0: reserved.
    pub none0: bool,
    /// Bit 1: reserved.
    pub none1: bool,
    /// Bit 2: reserved.
    pub none2: bool,
    /// Bit 3: the controller CPU is running.
    pub cpu_run: bool,
    /// Bit 4: low-temperature interrupt.
    pub tint_low: bool,
    /// Bit 5: boot stage is "in CPU".
    pub tic_in_cpu: bool,
    /// Bit 6: boot stage is "in BIOS".
    pub tic_in_bios: bool,
    /// Bit 7: the controller is busy.
    pub tic_busy: bool,
}

/// Decoded device status register.
#[derive(Clone, Copy, Debug, PartialEq, Eq, Structural)]
pub struct TouchStatus {
    pub status_low: StatusLow,
    pub status_high: StatusHigh,
    /// How many bytes of report data are available to read.
    pub read_len: u16,
}

/// Secondary status consulted while draining a multi-packet report.
/// A `next_packet_len` of zero signals that no more data is available.
#[derive(Clone, Copy, Debug, PartialEq, Eq, Structural)]
pub struct HDPStatus {
    pub status: u8,
    pub next_packet_len: u16,
}

/// The flags that the low status byte `b` decodes to.
pub open spec fn spec_status_low(b: u8) -> StatusLow {
    StatusLow {
        pt_exist: b & 0x01 != 0,
        gesture: b & 0x02 != 0,
        key: b & 0x04 != 0,
        aux: b & 0x08 != 0,
        keep: b & 0x10 != 0,
        raw_or_pt: b & 0x20 != 0,
        none6: b & 0x40 != 0,
        none7: b & 0x80 != 0,
    }
}

/// The flags that the high status byte `b` decodes to.
pub open spec fn spec_status_high(b: u8) -> StatusHigh {
    StatusHigh {
        none0: b & 0x01 != 0,
        none1: b & 0x02 != 0,
        none2: b & 0x04 != 0,
        cpu_run: b & 0x08 != 0,
        tint_low: b & 0x10 != 0,
        tic_in_cpu: b & 0x20 != 0,
        tic_in_bios: b & 0x40 != 0,
        tic_busy: b & 0x80 != 0,
    }
}

/// The flag of `s` at bit position `i`.
pub open spec fn status_low_flag(s: StatusLow, i: int) -> bool {
    if i == 0 {
        s.pt_exist
    } else if i == 1 {
        s.gesture
    } else if i == 2 {
        s.key
    } else if i == 3 {
        s.aux
    } else if i == 4 {
        s.keep
    } else if i == 5 {
        s.raw_or_pt
    } else if i == 6 {
        s.none6
    } else {
        s.none7
    }
}

/// Unpacks the low status byte into its eight flags by bit position.
pub fn decode_status_low(b: u8) -> (r: StatusLow)
    ensures
        r == spec_status_low(b),
{
    StatusLow {
        pt_exist: b & 0x01 != 0,
        gesture: b & 0x02 != 0,
        key: b & 0x04 != 0,
        aux: b & 0x08 != 0,
        keep: b & 0x10 != 0,
        raw_or_pt: b & 0x20 != 0,
        none6: b & 0x40 != 0,
        none7: b & 0x80 != 0,
    }
}

/// Unpacks the high status byte into its eight flags by bit position.
pub fn decode_status_high(b: u8) -> (r: StatusHigh)
    ensures
        r == spec_status_high(b),
{
    StatusHigh {
        none0: b & 0x01 != 0,
        none1: b & 0x02 != 0,
        none2: b & 0x04 != 0,
        cpu_run: b & 0x08 != 0,
        tint_low: b & 0x10 != 0,
        tic_in_cpu: b & 0x20 != 0,
        tic_in_bios: b & 0x40 != 0,
        tic_busy: b & 0x80 != 0,
    }
}

/// Combines both status bytes with the 16-bit read length (wire byte
/// order little-endian) into a `TouchStatus`.
pub fn decode_touch_status(low: u8, high: u8, len_low: u8, len_high: u8) -> (r: TouchStatus)
    ensures
        r.status_low == spec_status_low(low),
        r.status_high == spec_status_high(high),
        r.read_len == low_high_to_u16(len_low, len_high),
{
    TouchStatus {
        status_low: decode_status_low(low),
        status_high: decode_status_high(high),
        read_len: len_low as u16 + len_high as u16 * 0x100,
    }
}

/// The 16-bit value with low byte `low` and high byte `high`.
pub open spec fn low_high_to_u16(low: u8, high: u8) -> u16 {
    (low + high * 0x100) as u16
}

/// Parses the device status register buffer: the low status byte at
/// offset 0, the high status byte at offset 1, and the little-endian
/// read length at offsets 2..4.  Bytes past the end of a short buffer
/// read as zero.
pub fn parse_touch_status(buf: &[u8]) -> (r: TouchStatus)
    ensures
        r.status_low == spec_status_low(spec_byte_at(buf@, 0)),
        r.status_high == spec_status_high(spec_byte_at(buf@, 1)),
        r.read_len == spec_le16_at(buf@, 2),
{
    TouchStatus {
        status_low: decode_status_low(byte_at(buf, 0)),
        status_high: decode_status_high(byte_at(buf, 1)),
        read_len: read_le16_at(buf, 2),
    }
}

/// Parses the secondary (HDP) status buffer: the status byte at offset
/// 0 and the little-endian length of the next packet at offsets 1..3.
/// Bytes past the end of a short buffer read as zero.
pub fn parse_hdp_status(buf: &[u8]) -> (r: HDPStatus)
    ensures
        r.status == spec_byte_at(buf@, 0),
        r.next_packet_len == spec_le16_at(buf@, 1),
{
    HDPStatus { status: byte_at(buf, 0), next_packet_len: read_le16_at(buf, 1) }
}

/// The low status byte decodes by exact bit position: flipping bit `i`
/// of the input flips the decoded flag at position `i` and no other.
pub proof fn lemma_status_low_single_bit_flip(b: u8, i: u8)
    requires
        i < 8,
    ensures
        forall|j: u8|
            j < 8 ==> ((status_low_flag(spec_status_low(b ^ (1u8 << i)), j as int)
                != status_low_flag(spec_status_low(b), j as int)) <==> j == i),
{
    assert forall|j: u8| j < 8 implies ((status_low_flag(
        spec_status_low(b ^ (1u8 << i)),
        j as int,
    ) != status_low_flag(spec_status_low(b), j as int)) <==> j == i) by {
        lemma_status_low_flag_is_bit(b, j);
        lemma_status_low_flag_is_bit(b ^ (1u8 << i), j);
        assert(((b ^ (1u8 << i)) & (1u8 << j) != 0) == ((b & (1u8 << j) != 0) != (i == j)))
            by (bit_vector)
            requires
                i < 8,
                j < 8,
        ;
    }
}

/// The decoded flag at position `j` is the input bit at position `j`.
pub proof fn lemma_status_low_flag_is_bit(b: u8, j: u8)
    requires
        j < 8,
    ensures
        status_low_flag(spec_status_low(b), j as int) == (b & (1u8 << j) != 0),
{
    assert(1u8 << 0u8 == 0x01 && 1u8 << 1u8 == 0x02 && 1u8 << 2u8 == 0x04 && 1u8 << 3u8 == 0x08
        && 1u8 << 4u8 == 0x10 && 1u8 << 5u8 == 0x20 && 1u8 << 6u8 == 0x40 && 1u8 << 7u8 == 0x80)
        by (bit_vector);
}

} // verus!
