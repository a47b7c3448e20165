//! Decoding of the status frame that the cooler sends on its interrupt
//! endpoint, and the structural checks that surface protocol drift.

use vstd::prelude::*;
use crate::temperature::{Temperature, UNITS_PER_DEGREE, UNITS_PER_FRACTION};

verus! {

/// Length of a well-formed status frame.
pub const STATUS_LEN: usize = 17;

/// First byte of a well-formed status frame.
pub const STATUS_TAG: u8 = 0x04;

/// Offset of the bytes that a well-formed frame holds fixed.
pub const TEMPLATE_START: usize = 7;

/// A frame of at most this many bytes carries no reading.
pub const MIN_DATA_LEN: usize = 6;

/// The bytes that a well-formed frame holds from `TEMPLATE_START` on.
pub open spec fn template() -> Seq<u8> {
    seq![0x00u8, 0x00u8, 0x00u8, 0xffu8, 0x02u8, 0x00u8, 0x01u8, 0x08u8, 0x1eu8, 0x00u8]
}

/// A 16-bit value sent high byte first.
pub open spec fn be16(hi: u8, lo: u8) -> int {
    hi * 256 + lo
}

/// What the cooler reports: its liquid temperature and both speeds.
#[derive(Clone, Copy, Debug, PartialEq, Eq, Structural)]
pub struct Status {
    pub temp: Temperature,
    pub fan: u16,
    pub pump: u16,
}

/// A departure of a status frame from its usual shape.
#[derive(Clone, Copy, Debug, PartialEq, Eq, Structural)]
pub enum Anomaly {
    /// The frame is not `STATUS_LEN` bytes long.
    Length { len: usize },
    /// The frame does not start with `STATUS_TAG`.
    FirstByte { found: u8 },
    /// A byte differs from the template.
    Byte { index: usize, found: u8, expected: u8 },
}

/// The status that a frame decodes to.
pub open spec fn spec_decode(buf: Seq<u8>) -> Status {
    if buf.len() > MIN_DATA_LEN {
        Status {
            temp: Temperature {
                units: (buf[1] * UNITS_PER_DEGREE + buf[2] * UNITS_PER_FRACTION) as i64,
            },
            fan: be16(buf[3], buf[4]) as u16,
            pump: be16(buf[5], buf[6]) as u16,
        }
    } else {
        Status { temp: Temperature { units: 0 }, fan: 0, pump: 0 }
    }
}

/// The template mismatches among the bytes of `buf` before index `end`.
pub open spec fn byte_anomalies(buf: Seq<u8>, end: int) -> Seq<Anomaly>
    decreases end,
{
    if end <= TEMPLATE_START {
        Seq::empty()
    } else {
        let i = end - 1;
        let before = byte_anomalies(buf, i);
        let expected = template()[i - TEMPLATE_START];
        if buf[i] != expected {
            before.push(Anomaly::Byte { index: i as usize, found: buf[i], expected })
        } else {
            before
        }
    }
}

/// Where the template checks stop: at the frame's end or the template's.
pub open spec fn checked_end(len: int) -> int {
    if len < STATUS_LEN {
        len
    } else {
        STATUS_LEN as int
    }
}

/// Every anomaly of a frame, in order: its length, its first byte, then each
/// byte that differs from the template.
pub open spec fn spec_anomalies(buf: Seq<u8>) -> Seq<Anomaly> {
    let length: Seq<Anomaly> = if buf.len() != STATUS_LEN {
        seq![Anomaly::Length { len: buf.len() as usize }]
    } else {
        Seq::empty()
    };
    let first: Seq<Anomaly> = if buf.len() > 0 && buf[0] != STATUS_TAG {
        seq![Anomaly::FirstByte { found: buf[0] }]
    } else {
        Seq::empty()
    };
    length + first + byte_anomalies(buf, checked_end(buf.len() as int))
}

/// The byte that a well-formed frame holds at `index`.
fn template_byte(index: usize) -> (r: u8)
    requires
        TEMPLATE_START <= index < STATUS_LEN,
    ensures
        r == template()[index - TEMPLATE_START],
{
    let expected: [u8; 10] = [0x00, 0x00, 0x00, 0xff, 0x02, 0x00, 0x01, 0x08, 0x1e, 0x00];
    assert(expected@ =~= template());
    expected[index - TEMPLATE_START]
}

fn be16_exec(hi: u8, lo: u8) -> (r: u16)
    ensures
        r == be16(hi, lo),
{
    let r = lo as u16 | ((hi as u16) << 8u16);
    assert(r == hi * 256 + lo) by (bit_vector)
        requires
            r == lo as u16 | ((hi as u16) << 8u16),
    ;
    r
}

impl Status {
    /// Decodes a status frame. A frame of at most `MIN_DATA_LEN` bytes carries
    /// no reading yet and decodes to zero temperature and speeds; a longer one
    /// never fails, whatever it holds.
    pub fn decode_status(buf: &[u8]) -> (r: Status)
        ensures
            r == spec_decode(buf@),
            buf@.len() <= MIN_DATA_LEN ==> r.temp.units == 0 && r.fan == 0 && r.pump == 0,
    {
        if buf.len() > MIN_DATA_LEN {
            Status {
                temp: Temperature::from_status_bytes(buf[1], buf[2]),
                fan: be16_exec(buf[3], buf[4]),
                pump: be16_exec(buf[5], buf[6]),
            }
        } else {
            Status { temp: Temperature::zero(), fan: 0, pump: 0 }
        }
    }

    /// Lists how a status frame departs from its usual shape. This never
    /// changes what the frame decodes to.
    pub fn anomalies(buf: &[u8]) -> (r: Vec<Anomaly>)
        ensures
            r@ == spec_anomalies(buf@),
    {
        let mut r: Vec<Anomaly> = Vec::new();
        if buf.len() != STATUS_LEN {
            r.push(Anomaly::Length { len: buf.len() });
        }
        if buf.len() > 0 && buf[0] != STATUS_TAG {
            r.push(Anomaly::FirstByte { found: buf[0] });
        }
        let ghost head = r@;
        let end: usize = if buf.len() < STATUS_LEN { buf.len() } else { STATUS_LEN };
        let mut i: usize = TEMPLATE_START;
        while i < end
            invariant
                TEMPLATE_START <= i,
                end == checked_end(buf@.len() as int),
                end <= buf@.len(),
                i <= end || (end < TEMPLATE_START && i == TEMPLATE_START),
                r@ == head + byte_anomalies(buf@, i as int),
            decreases end - i,
        {
            let expected = template_byte(i);
            if buf[i] != expected {
                r.push(Anomaly::Byte { index: i, found: buf[i], expected });
            }
            i = i + 1;
            assert(r@ =~= head + byte_anomalies(buf@, i as int));
        }
        proof {
            if end >= TEMPLATE_START {
                assert(i == end);
            } else {
                assert(byte_anomalies(buf@, i as int) =~= Seq::<Anomaly>::empty());
                assert(byte_anomalies(buf@, end as int) =~= Seq::<Anomaly>::empty());
            }
        }
        assert(r@ =~= spec_anomalies(buf@));
        r
    }
}

} // verus!
