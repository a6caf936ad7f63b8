//! Display arithmetic: the exact integer parts behind every readout the host
//! renders -- segment labels, the center clock lines, and offset captions.
//! The host only turns these numbers into text.

use vstd::prelude::*;
use crate::DAY_MILLIS;
use crate::timezone::{
    convert_between_offsets, converted_hour, norm_hour, valid_offset,
};

verus! {

/// Split a normalized local hour into the parts of its segment label: the
/// whole hour on the 24-hour clock, the minutes its fraction stands for
/// (rounded to the nearest minute), and whether the minutes are worth
/// showing -- a fraction within a hundredth of a whole hour reads as a plain
/// hour.
pub fn hour_label_parts(hour_millis: i64) -> (r: (u32, u32, bool))
    requires
        0 <= hour_millis < DAY_MILLIS,
    ensures
        r.0 == hour_millis as int / 1000,
        r.1 == (hour_millis as int % 1000 * 60 + 500) / 1000,
        r.2 == !(hour_millis as int % 1000 < 10 || hour_millis as int % 1000 > 990),
{
    let frac: i64 = hour_millis % 1000;
    let hour_part: u32 = (hour_millis / 1000) as u32;
    let minutes: u32 = ((frac * 60 + 500) / 1000) as u32;
    let show_minutes: bool = !(frac < 10 || frac > 990);
    (hour_part, minutes, show_minutes)
}

/// The minute hand of a zone's local clock, from the UTC minute and the
/// zone's offset: the offset's fractional hour shifts the minutes, modulo
/// one hour.
pub fn local_minute(utc_minute: u32, offset_millis: i64) -> (r: u32)
    requires
        utc_minute < 60,
        valid_offset(offset_millis as int),
    ensures
        r == (utc_minute + (offset_millis as int % 1000) * 60 / 1000) % 60,
{
    let frac: i64 = ((offset_millis % 1000) + 1000) % 1000;
    let minute_shift: i64 = frac * 60 / 1000;
    (((utc_minute as i64 + minute_shift) % 60) as u32)
}

/// A zone offset taken apart for its caption: whether it lies west of UTC,
/// and the whole hours and minutes of its magnitude (minutes rounded to the
/// nearest minute).
pub fn offset_parts(offset_millis: i64) -> (r: (bool, u32, u32))
    requires
        valid_offset(offset_millis as int),
    ensures
        r.0 == (offset_millis < 0),
        ({
            let a = if offset_millis < 0 { -(offset_millis as int) } else { offset_millis as int };
            r.1 == a / 1000 && r.2 == (a % 1000 * 60 + 500) / 1000
        }),
{
    let magnitude: i64 = if offset_millis < 0 {
        -offset_millis
    } else {
        offset_millis
    };
    let hours: u32 = (magnitude / 1000) as u32;
    let minutes: u32 = ((magnitude % 1000 * 60 + 500) / 1000) as u32;
    (offset_millis < 0, hours, minutes)
}

/// The whole UTC hour a segment stands for, given the segment's hour mark on
/// the outermost ring and that ring's zone offset: back to UTC, rounded to
/// the nearest whole hour on the 24-hour clock. This is the key under which
/// meetings are looked up when a segment is clicked.
pub fn segment_utc_hour(hour: u32, ref_offset_millis: i64) -> (r: u32)
    requires
        hour < 24,
        valid_offset(ref_offset_millis as int),
    ensures
        r == (norm_hour(hour as int * 1000 - ref_offset_millis as int) + 500) / 1000 % 24,
        r < 24,
{
    let back_to_utc: i64 = convert_between_offsets((hour as i64) * 1000, ref_offset_millis, 0);
    assert(back_to_utc == converted_hour(hour as int * 1000, ref_offset_millis as int, 0));
    (((back_to_utc + 500) / 1000) % 24) as u32
}

} // verus!
