//! The touch-report data model and its decoders.
//!
//! A touch report is a byte buffer laid out as follows, every multi-byte
//! field little-endian:
//!
//! | offset      | field                                   |
//! |-------------|-----------------------------------------|
//! | 0           | reported touch count                    |
//! | 1           | gesture code                            |
//! | 2           | edge-event flags (bit 0 down, bit 1 up) |
//! | 3, 5, 7, 9  | down x/y and up x/y coordinates (16-bit)|
//! | 11 + 6*i    | point `i`: id, x (16-bit), y (16-bit), weight |
//!
//! At most [`MAX_TOUCH_POINTS`] points are stored; points reported
//! beyond that are dropped, while the reported count itself is kept
//! unclamped in `touch_count`.  Bytes past the end of a short buffer
//! read as zero, so decoding never fails on a malformed length.
//!
//! The firmware-identity buffer holds, in order: a 32-bit reserved
//! ("dummy") word at offset 0, the 16-bit firmware version at offset 4,
//! the 32-bit product id at offset 6, and the two 32-bit halves of the
//! IC name at offsets 10 (low) and 14 (high).

use vstd::prelude::*;

use crate::bytes::{
    byte_at, read_le16_at, read_le32_at, spec_byte_at, spec_le16_at, spec_le32_at,
};

verus! {

/// Hardware maximum of simultaneous touch points in one report.
pub const MAX_TOUCH_POINTS: usize = 10;

/// Identity snapshot of the controller, freshly read on each query.
#[derive(Clone, Copy, Debug, PartialEq, Eq, Structural)]
pub struct FirmwareInfo {
    /// Reserved word preceding the identity fields.
    pub dummy: u32,
    /// Firmware version.
    pub dver: u16,
    /// Product id.
    pub pid: u32,
    /// Low half of the IC name.
    pub ic_name_l: u32,
    /// High half of the IC name.
    pub ic_name_h: u32,
}

/// One finger contact within a report.
#[derive(Clone, Copy, Debug, PartialEq, Eq, Structural)]
pub struct TouchPoint {
    /// Identifier that distinguishes one finger across frames.
    pub id: u8,
    pub x: u16,
    pub y: u16,
    /// Pressure / contact-area proxy.
    pub weight: u8,
}

/// One polling snapshot: all touches and gesture info of a report.
///
/// `touch_count` keeps the count exactly as the controller reported it;
/// `points` stores at most [`MAX_TOUCH_POINTS`] entries, so its length
/// is the reported count capped at that maximum.
#[derive(Debug)]
pub struct TouchData {
    pub points: heapless::Vec<TouchPoint, 10>,
    pub touch_count: u8,
    pub gesture: u8,
    pub down: bool,
    pub up: bool,
    pub down_x: u16,
    pub down_y: u16,
    pub up_x: u16,
    pub up_y: u16,
}

#[verifier::external_type_specification]
#[verifier::external_body]
#[verifier::reject_recursive_types(T)]
pub struct ExHeaplessVec<T, const N: usize>(heapless::Vec<T, N>);

/// The points that a bounded point list holds, in order.
pub uninterp spec fn points_seq(v: heapless::Vec<TouchPoint, 10>) -> Seq<TouchPoint>;

/// Relies on `heapless::Vec::new`: a freshly constructed vector is empty.
#[verifier::external_body]
fn points_new() -> (r: heapless::Vec<TouchPoint, 10>)
    ensures
        points_seq(r) == Seq::<TouchPoint>::empty(),
{
    heapless::Vec::new()
}

/// Relies on `heapless::Vec::push`: below capacity, the item is appended
/// at the back and `Ok` is returned.
#[verifier::external_body]
fn points_push(v: &mut heapless::Vec<TouchPoint, 10>, p: TouchPoint)
    requires
        points_seq(*old(v)).len() < 10,
    ensures
        points_seq(*final(v)) == points_seq(*old(v)).push(p),
{
    let _ = v.push(p);
}

/// Relies on `heapless::Vec::as_slice`: the slice holds exactly the
/// vector's elements, so its length is the vector's length.
#[verifier::external_body]
fn points_len(v: &heapless::Vec<TouchPoint, 10>) -> (r: usize)
    ensures
        r == points_seq(*v).len(),
{
    v.as_slice().len()
}

/// Relies on `heapless::Vec::as_slice` and slice indexing: element `i`
/// of the slice is element `i` of the vector.
#[verifier::external_body]
fn points_get(v: &heapless::Vec<TouchPoint, 10>, i: usize) -> (r: TouchPoint)
    requires
        i < points_seq(*v).len(),
    ensures
        r == points_seq(*v)[i as int],
{
    v.as_slice()[i]
}

impl TouchData {
    /// The stored points of this snapshot.
    pub fn point_count(&self) -> (r: usize)
        ensures
            r == points_seq(self.points).len(),
    {
        points_len(&self.points)
    }

    /// The stored point at index `i`.
    pub fn point_at(&self, i: usize) -> (r: TouchPoint)
        requires
            i < points_seq(self.points).len(),
        ensures
            r == points_seq(self.points)[i as int],
    {
        points_get(&self.points, i)
    }
}

impl Default for TouchData {
    /// An empty snapshot: no points, all fields zero.
    fn default() -> (r: Self)
        ensures
            points_seq(r.points) == Seq::<TouchPoint>::empty(),
            r.touch_count == 0,
            r.gesture == 0,
            !r.down,
            !r.up,
            r.down_x == 0,
            r.down_y == 0,
            r.up_x == 0,
            r.up_y == 0,
    {
        TouchData {
            points: points_new(),
            touch_count: 0,
            gesture: 0,
            down: false,
            up: false,
            down_x: 0,
            down_y: 0,
            up_x: 0,
            up_y: 0,
        }
    }
}

impl Default for TouchPoint {
    /// The all-zero touch point.
    fn default() -> (r: Self)
        ensures
            r == (TouchPoint { id: 0, x: 0, y: 0, weight: 0 }),
    {
        TouchPoint { id: 0, x: 0, y: 0, weight: 0 }
    }
}

/// How many points of a report with reported count `c` are stored.
pub open spec fn spec_stored_count(c: u8) -> int {
    if c <= 10 {
        c as int
    } else {
        10
    }
}

/// The touch point encoded at index `i` of a report buffer.
pub open spec fn spec_point_at(s: Seq<u8>, i: int) -> TouchPoint {
    TouchPoint {
        id: spec_byte_at(s, 11 + 6 * i),
        x: spec_le16_at(s, 12 + 6 * i),
        y: spec_le16_at(s, 14 + 6 * i),
        weight: spec_byte_at(s, 16 + 6 * i),
    }
}

/// Parses a firmware-identity buffer at its fixed byte offsets.
pub fn parse_firmware_info(buf: &[u8]) -> (r: FirmwareInfo)
    ensures
        r.dummy == spec_le32_at(buf@, 0),
        r.dver == spec_le16_at(buf@, 4),
        r.pid == spec_le32_at(buf@, 6),
        r.ic_name_l == spec_le32_at(buf@, 10),
        r.ic_name_h == spec_le32_at(buf@, 14),
{
    FirmwareInfo {
        dummy: read_le32_at(buf, 0),
        dver: read_le16_at(buf, 4),
        pid: read_le32_at(buf, 6),
        ic_name_l: read_le32_at(buf, 10),
        ic_name_h: read_le32_at(buf, 14),
    }
}

/// Parses a touch-report buffer into a `TouchData` snapshot.
///
/// Exactly the first `min(reported count, MAX_TOUCH_POINTS)` points are
/// stored — a report of ten or more points yields exactly ten stored
/// points — while `touch_count` keeps the reported count unclamped.
/// Trailing or missing bytes never make parsing fail.
pub fn parse_touch_data(buf: &[u8]) -> (r: TouchData)
    ensures
        r.touch_count == spec_byte_at(buf@, 0),
        points_seq(r.points).len() == spec_stored_count(spec_byte_at(buf@, 0)),
        forall|i: int|
            0 <= i < points_seq(r.points).len() ==> points_seq(r.points)[i] == spec_point_at(
                buf@,
                i,
            ),
        r.gesture == spec_byte_at(buf@, 1),
        r.down == (spec_byte_at(buf@, 2) & 0x01 != 0),
        r.up == (spec_byte_at(buf@, 2) & 0x02 != 0),
        r.down_x == spec_le16_at(buf@, 3),
        r.down_y == spec_le16_at(buf@, 5),
        r.up_x == spec_le16_at(buf@, 7),
        r.up_y == spec_le16_at(buf@, 9),
{
    let count_raw = byte_at(buf, 0);
    let stored: usize = if count_raw as usize <= MAX_TOUCH_POINTS {
        count_raw as usize
    } else {
        MAX_TOUCH_POINTS
    };
    let mut points = points_new();
    let mut i: usize = 0;
    while i < stored
        invariant
            stored == spec_stored_count(spec_byte_at(buf@, 0)),
            stored <= 10,
            i <= stored,
            points_seq(points).len() == i,
            forall|j: int| 0 <= j < i ==> points_seq(points)[j] == spec_point_at(buf@, j),
        decreases stored - i,
    {
        let p = TouchPoint {
            id: byte_at(buf, 11 + 6 * i),
            x: read_le16_at(buf, 12 + 6 * i),
            y: read_le16_at(buf, 14 + 6 * i),
            weight: byte_at(buf, 16 + 6 * i),
        };
        points_push(&mut points, p);
        i += 1;
    }
    let flags = byte_at(buf, 2);
    TouchData {
        points,
        touch_count: count_raw,
        gesture: byte_at(buf, 1),
        down: flags & 0x01 != 0,
        up: flags & 0x02 != 0,
        down_x: read_le16_at(buf, 3),
        down_y: read_le16_at(buf, 5),
        up_x: read_le16_at(buf, 7),
        up_y: read_le16_at(buf, 9),
    }
}

} // verus!
