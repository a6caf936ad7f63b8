//! Core engine for a multi-ring world clock: exact time-zone arithmetic and
//! the geometry of a clock face that shows several zones at once, one
//! concentric ring of 24 hour segments per zone.
//!
//! All quantities are fixed-point integers so that every comparison and every
//! wraparound is exact: hours and UTC offsets are counted in thousandths of an
//! hour, angles in thousandths of a degree, and canvas lengths in thousandths
//! of a canvas unit. Projecting this geometry onto actual pixels is the host
//! renderer's business.

use vstd::prelude::*;

pub mod display;
pub mod geometry;
pub mod meetings;
pub mod timezone;
pub mod types;
pub mod zones;

verus! {

/// Thousandths of an hour in one day.
pub const DAY_MILLIS: i64 = 24_000;

} // verus!
