//! Readings of hwmon temperature files: a decimal count of millidegrees
//! usually followed by a newline.

use vstd::prelude::*;
use crate::temperature::{Temperature, UNITS_PER_MILLIDEGREE};

verus! {

/// Value above which an accumulated magnitude can no longer be an `i32`.
const MAGNITUDE_CAP: i64 = 2147483649;

/// Why a sensor file could not be read as a temperature.
#[derive(Clone, Copy, Debug, PartialEq, Eq, Structural)]
pub enum SensorError {
    /// The read returned no bytes.
    Empty,
    /// The text is not a decimal integer that fits an `i32`.
    NotAnInteger,
}

/// An ASCII decimal digit.
pub open spec fn is_digit(b: u8) -> bool {
    0x30 <= b <= 0x39
}

/// The value of a sequence of decimal digits, most significant first.
pub open spec fn digits_value(s: Seq<u8>) -> int
    decreases s.len(),
{
    if s.len() == 0 {
        0
    } else {
        digits_value(s.drop_last()) * 10 + (s.last() - 0x30)
    }
}

/// Whether `s` starts with a sign.
pub open spec fn has_sign(s: Seq<u8>) -> bool {
    s.len() > 0 && (s[0] == 0x2du8 || s[0] == 0x2bu8)
}

/// The digits of `s`, after its sign if it has one.
pub open spec fn unsigned_part(s: Seq<u8>) -> Seq<u8> {
    if has_sign(s) {
        s.skip(1)
    } else {
        s
    }
}

/// The integer that `s` spells: an optional `+` or `-` and at least one
/// digit, within the range of `i32`; `None` for any other text.
pub open spec fn spec_parse_i32(s: Seq<u8>) -> Option<i32> {
    let body = unsigned_part(s);
    let magnitude = digits_value(body);
    let value = if has_sign(s) && s[0] == 0x2du8 { -magnitude } else { magnitude };
    if body.len() > 0 && (forall|i: int| 0 <= i < body.len() ==> is_digit(body[i])) && i32::MIN
        <= value <= i32::MAX {
        Some(value as i32)
    } else {
        None
    }
}

/// Parses a decimal `i32`, as `str::parse` does: an optional sign, then
/// at least one digit.
pub fn parse_i32(text: &[u8]) -> (r: Option<i32>)
    ensures
        r == spec_parse_i32(text@),
{
    let negative = text.len() > 0 && text[0] == 0x2d;
    let start: usize = if text.len() > 0 && (text[0] == 0x2d || text[0] == 0x2b) { 1 } else { 0 };
    let ghost body = unsigned_part(text@);
    assert(body =~= text@.skip(start as int));
    if start >= text.len() {
        return None;
    }
    let mut magnitude: i64 = 0;
    let mut k: usize = start;
    while k < text.len()
        invariant
            start <= k <= text@.len(),
            body == text@.skip(start as int),
            body == unsigned_part(text@),
            forall|i: int| 0 <= i < k - start ==> is_digit(body[i]),
            digits_value(body.take(k - start)) >= 0,
            magnitude == if digits_value(body.take(k - start)) > MAGNITUDE_CAP {
                MAGNITUDE_CAP as int
            } else {
                digits_value(body.take(k - start))
            },
        decreases text@.len() - k,
    {
        let b = text[k];
        if b < 0x30 || b > 0x39 {
            assert(!is_digit(body[k - start]));
            assert(!(forall|i: int| 0 <= i < body.len() ==> is_digit(body[i])));
            return None;
        }
        let ghost before = digits_value(body.take(k - start));
        assert(body.take(k - start + 1).drop_last() =~= body.take(k - start));
        let next = magnitude * 10 + (b - 0x30) as i64;
        magnitude = if next > MAGNITUDE_CAP { MAGNITUDE_CAP } else { next };
        k = k + 1;
        assert(digits_value(body.take(k - start)) == before * 10 + (b - 0x30));
    }
    assert(body.take(k - start) =~= body);
    let value: i64 = if negative { -magnitude } else { magnitude };
    if value < i32::MIN as i64 || value > i32::MAX as i64 {
        None
    } else {
        Some(value as i32)
    }
}

/// The line feed that ends the text of a hwmon file.
pub const NEWLINE: u8 = 0x0a;

/// The text of one read: what was read, without its final newline if it
/// ends in one.
pub open spec fn reading_text(buf: Seq<u8>) -> Seq<u8> {
    if buf.len() > 0 && buf.last() == NEWLINE {
        buf.drop_last()
    } else {
        buf
    }
}

/// The result of one read of a hwmon file, given the bytes read: its text,
/// newline aside, as a count of millidegrees.
pub open spec fn spec_parse_reading(buf: Seq<u8>) -> Result<Temperature, SensorError> {
    if buf.len() == 0 {
        Err(SensorError::Empty)
    } else {
        match spec_parse_i32(reading_text(buf)) {
            Some(milli) => Ok(Temperature { units: (milli * UNITS_PER_MILLIDEGREE) as i64 }),
            None => Err(SensorError::NotAnInteger),
        }
    }
}

/// Turns the bytes of one read of a hwmon file into a temperature. A final
/// newline is not part of the number; any other byte is.
pub fn parse_reading(buf: &[u8]) -> (r: Result<Temperature, SensorError>)
    ensures
        r == spec_parse_reading(buf@),
{
    if buf.len() == 0 {
        return Err(SensorError::Empty);
    }
    let end: usize = if buf[buf.len() - 1] == NEWLINE { buf.len() - 1 } else { buf.len() };
    let mut text: Vec<u8> = Vec::new();
    let mut k: usize = 0;
    while k < end
        invariant
            end <= buf@.len(),
            k <= end,
            text@ == buf@.take(k as int),
        decreases end - k,
    {
        text.push(buf[k]);
        k = k + 1;
        assert(text@ =~= buf@.take(k as int));
    }
    assert(text@ =~= reading_text(buf@));
    match parse_i32(text.as_slice()) {
        Some(milli) => Ok(Temperature::from_millidegrees(milli)),
        None => Err(SensorError::NotAnInteger),
    }
}

} // verus!
