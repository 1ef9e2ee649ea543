//! Touch points and their eight-byte wire records.

use vstd::prelude::*;

verus! {

/// Number of bytes of one touch-point record.
pub const TOUCHPOINT_ENTRY_LEN: usize = 8;

/// One active contact on the panel.
#[derive(Debug, Clone, Copy, PartialEq, Eq)]
pub struct Point {
    /// Slot index that the controller gave the contact (zero based).
    pub track_id: u8,
    /// Horizontal coordinate in panel pixels.
    pub x: u16,
    /// Vertical coordinate in panel pixels.
    pub y: u16,
    /// Size of the contact as the controller reports it.
    pub area: u16,
}

/// The 16-bit value whose little-endian bytes are `lo`, `hi`.
pub open spec fn le16(lo: u8, hi: u8) -> u16 {
    (lo + 256 * hi) as u16
}

/// The point that a record holds. Byte 7 is reserved and plays no part.
pub open spec fn point_of(record: Seq<u8>) -> Point
    recommends
        record.len() >= TOUCHPOINT_ENTRY_LEN,
{
    Point {
        track_id: record[0],
        x: le16(record[1], record[2]),
        y: le16(record[3], record[4]),
        area: le16(record[5], record[6]),
    }
}

fn read_le16(lo: u8, hi: u8) -> (value: u16)
    ensures
        value == le16(lo, hi),
{
    (hi as u16) * 256 + (lo as u16)
}

/// Decodes the touch-point record at the start of `buf`.
pub fn decode_point(buf: &[u8]) -> (point: Point)
    requires
        buf@.len() >= TOUCHPOINT_ENTRY_LEN,
    ensures
        point == point_of(buf@),
{
    Point {
        track_id: buf[0],
        x: read_le16(buf[1], buf[2]),
        y: read_le16(buf[3], buf[4]),
        area: read_le16(buf[5], buf[6]),
    }
}

/// The record that holds a point, with 0 in the reserved byte.
pub open spec fn record_of(point: Point) -> Seq<u8> {
    seq![
        point.track_id,
        (point.x % 256) as u8,
        (point.x / 256) as u8,
        (point.y % 256) as u8,
        (point.y / 256) as u8,
        (point.area % 256) as u8,
        (point.area / 256) as u8,
        0u8,
    ]
}

/// Encodes a point as the device would report it.
pub fn encode_point(point: &Point) -> (record: [u8; 8])
    ensures
        record@ == record_of(*point),
{
    let record: [u8; 8] = [
        point.track_id,
        (point.x % 256) as u8,
        (point.x / 256) as u8,
        (point.y % 256) as u8,
        (point.y / 256) as u8,
        (point.area % 256) as u8,
        (point.area / 256) as u8,
        0,
    ];
    assert(record@ =~= record_of(*point));
    record
}

/// Decoding the record of a point gives the point back.
pub proof fn decode_inverts_encode(point: Point)
    ensures
        point_of(record_of(point)) == point,
{
}

/// Encoding the point of a record gives the record back, but for the
/// reserved byte, which comes back as 0.
pub proof fn encode_inverts_decode(record: Seq<u8>)
    requires
        record.len() == TOUCHPOINT_ENTRY_LEN,
    ensures
        record_of(point_of(record)) == record.update(7, 0u8),
{
    assert(record_of(point_of(record)) =~= record.update(7, 0u8));
}

/// The reserved byte of a record has no part in the point.
pub proof fn reserved_byte_is_ignored(record: Seq<u8>, reserved: u8)
    requires
        record.len() == TOUCHPOINT_ENTRY_LEN,
    ensures
        point_of(record.update(7, reserved)) == point_of(record),
{
}

} // verus!
