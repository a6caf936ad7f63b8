//! Time conversion engine: pure arithmetic between UTC and fixed-offset
//! zone-local hours, and the working-hour classification.
//!
//! Hours and offsets are in milli-hours (thousandths of an hour), so the
//! half-hour and quarter-hour zones are exact. Every result is normalized
//! into `[0, 24000)`.

use vstd::prelude::*;
use vstd::arithmetic::div_mod::{lemma_add_mod_noop_right, lemma_mod_multiples_vanish};
use crate::DAY_MILLIS;
use crate::types::Timezone;

verus! {

/// First milli-hour of the working day: 09:00 local.
pub const WORK_START_MILLIS: i64 = 9_000;

/// First milli-hour past the working day: 18:00 local (exclusive).
pub const WORK_END_MILLIS: i64 = 18_000;

/// Bias added before reduction so the usual sums stay non-negative: at least
/// a day more than the widest legal offset magnitude.
pub const HOUR_BIAS_MILLIS: i64 = 48_000;

/// Westernmost legal zone offset, UTC-12:00.
pub const MIN_OFFSET_MILLIS: i64 = -12_000;

/// Easternmost legal zone offset, UTC+14:00.
pub const MAX_OFFSET_MILLIS: i64 = 14_000;

/// Bound on hour arguments, far past any meaningful clock value but small
/// enough that sums with offsets and the bias never overflow an `i64`.
pub const HOUR_ARG_LIMIT_MILLIS: i64 = 1_000_000_000_000;

/// A clock value reduced to `[0, 24)` hours, in milli-hours: the mathematical
/// remainder, non-negative for every argument.
pub open spec fn norm_hour(x: int) -> int {
    x % (DAY_MILLIS as int)
}

/// A zone offset the registry may hand out: between UTC-12:00 and UTC+14:00.
pub open spec fn valid_offset(offset: int) -> bool {
    MIN_OFFSET_MILLIS <= offset <= MAX_OFFSET_MILLIS
}

/// An hour argument small enough for overflow-free conversion arithmetic.
pub open spec fn valid_hour_arg(h: int) -> bool {
    -HOUR_ARG_LIMIT_MILLIS <= h <= HOUR_ARG_LIMIT_MILLIS
}

/// The local wall-clock hour at a zone, given a UTC hour: `(utc + offset)`
/// reduced into `[0, 24000)`.
pub open spec fn local_hour(utc: int, offset: int) -> int {
    norm_hour(utc + offset)
}

/// The wall-clock hour at offset `to`, given the hour `h` read at offset
/// `from`: back through UTC, then out to the target zone.
pub open spec fn converted_hour(h: int, from: int, to: int) -> int {
    norm_hour(h - from + to)
}

/// A local hour within the working day `[09:00, 18:00)`.
pub open spec fn working_hour(h: int) -> bool {
    WORK_START_MILLIS <= h < WORK_END_MILLIS
}

/// Normalize an hour value (milli-hours) into `[0, 24000)` with wraparound.
pub fn norm_hour_millis(x: i64) -> (r: i64)
    ensures
        r == norm_hour(x as int),
        0 <= r < DAY_MILLIS,
{
    let m: i64 = x % DAY_MILLIS;
    if m < 0 {
        m + DAY_MILLIS
    } else {
        m
    }
}

/// Convert a UTC hour to the local hour of a zone with the given UTC offset,
/// both in milli-hours. Out-of-range hours, negative ones included, still
/// normalize into `[0, 24000)`.
pub fn utc_to_local(utc_hour: i64, offset_millis: i64) -> (r: i64)
    requires
        valid_hour_arg(utc_hour as int),
        valid_offset(offset_millis as int),
    ensures
        r == local_hour(utc_hour as int, offset_millis as int),
        0 <= r < DAY_MILLIS,
{
    let biased: i64 = utc_hour + offset_millis + HOUR_BIAS_MILLIS;
    let r = norm_hour_millis(biased);
    proof {
        lemma_mod_multiples_vanish(2, utc_hour + offset_millis, DAY_MILLIS as int);
    }
    r
}

/// Convert an hour read on the clock of one zone to the clock of another:
/// back to UTC with the first offset, then local with the second.
pub fn convert_between_offsets(hour: i64, from_millis: i64, to_millis: i64) -> (r: i64)
    requires
        valid_hour_arg(hour as int),
        valid_offset(from_millis as int),
        valid_offset(to_millis as int),
    ensures
        r == converted_hour(hour as int, from_millis as int, to_millis as int),
        0 <= r < DAY_MILLIS,
{
    let biased: i64 = hour - from_millis + to_millis + HOUR_BIAS_MILLIS;
    let r = norm_hour_millis(biased);
    proof {
        lemma_mod_multiples_vanish(2, hour - from_millis + to_millis, DAY_MILLIS as int);
    }
    r
}

/// Whether a local hour falls in the working day `[09:00, 18:00)`: 09:00
/// itself does, 18:00 sharp does not. The comparison is on the raw value;
/// the argument is not normalized first.
pub fn is_work_hour(hour_millis: i64) -> (r: bool)
    ensures
        r == working_hour(hour_millis as int),
{
    WORK_START_MILLIS <= hour_millis && hour_millis < WORK_END_MILLIS
}

/// A zero offset changes nothing: converting a UTC hour to UTC-local only
/// normalizes it into `[0, 24)`.
pub proof fn lemma_utc_is_identity_offset(h: int)
    ensures
        local_hour(h, 0) == norm_hour(h),
{
}

/// Round trip: converting an hour from offset `a` to offset `b` and back
/// lands on the original hour, normalized into `[0, 24)`.
pub proof fn lemma_convert_round_trip(h: int, a: int, b: int)
    ensures
        converted_hour(converted_hour(h, a, b), b, a) == norm_hour(h),
{
    let m = DAY_MILLIS as int;
    lemma_add_mod_noop_right(a - b, h - a + b, m);
    assert((a - b + (h - a + b) % m) % m == (a - b + (h - a + b)) % m);
    assert(a - b + (h - a + b) == h);
    assert(converted_hour(converted_hour(h, a, b), b, a) == ((h - a + b) % m - b + a) % m);
    assert(((h - a + b) % m - b + a) % m == (a - b + (h - a + b) % m) % m);
}

/// Three-city form of `utc_to_local`: the local hour of one of the three
/// fixed cities, offsets in whole hours.
pub fn get_timezone_hour(utc_hour: i64, tz: Timezone) -> (r: i64)
    requires
        valid_hour_arg(utc_hour as int),
    ensures
        r == local_hour(utc_hour as int, tz.spec_offset() * 1000),
        0 <= r < DAY_MILLIS,
{
    utc_to_local(utc_hour, (tz.offset() as i64) * 1000)
}

/// Three-city form of `convert_between_offsets`.
pub fn convert_timezone(hour: i64, from: Timezone, to: Timezone) -> (r: i64)
    requires
        valid_hour_arg(hour as int),
    ensures
        r == converted_hour(hour as int, from.spec_offset() * 1000, to.spec_offset() * 1000),
        0 <= r < DAY_MILLIS,
{
    convert_between_offsets(hour, (from.offset() as i64) * 1000, (to.offset() as i64) * 1000)
}

/// Whether the target city is inside working hours when the reference city's
/// clock reads `ref_hour`.
pub fn is_timezone_working(ref_hour: i64, ref_tz: Timezone, target_tz: Timezone) -> (r: bool)
    requires
        valid_hour_arg(ref_hour as int),
    ensures
        r == working_hour(
            converted_hour(ref_hour as int, ref_tz.spec_offset() * 1000, target_tz.spec_offset() * 1000),
        ),
{
    let target_hour = convert_timezone(ref_hour, ref_tz, target_tz);
    is_work_hour(target_hour)
}

/// Whether all three fixed cities are inside working hours at once, when the
/// reference city's clock reads `ref_hour`.
pub fn is_full_overlap(ref_hour: i64, ref_tz: Timezone) -> (r: bool)
    requires
        valid_hour_arg(ref_hour as int),
    ensures
        r == (working_hour(
            converted_hour(ref_hour as int, ref_tz.spec_offset() * 1000, Timezone::Dallas.spec_offset() * 1000),
        ) && working_hour(
            converted_hour(ref_hour as int, ref_tz.spec_offset() * 1000, Timezone::Connecticut.spec_offset() * 1000),
        ) && working_hour(
            converted_hour(ref_hour as int, ref_tz.spec_offset() * 1000, Timezone::London.spec_offset() * 1000),
        )),
{
    is_timezone_working(ref_hour, ref_tz, Timezone::Dallas)
        && is_timezone_working(ref_hour, ref_tz, Timezone::Connecticut)
        && is_timezone_working(ref_hour, ref_tz, Timezone::London)
}

} // verus!

