use tzclock::timezone::{
    convert_between_offsets, convert_timezone, get_timezone_hour, is_full_overlap, is_work_hour,
    is_timezone_working, norm_hour_millis, utc_to_local,
};
use tzclock::types::Timezone;

#[test]
fn test_timezone_hour() {
    // UTC 16:00 in Dallas (UTC-6) = 10:00
    assert_eq!(get_timezone_hour(16_000, Timezone::Dallas), 10_000);
    // UTC 16:00 in London (UTC+0) = 16:00
    assert_eq!(get_timezone_hour(16_000, Timezone::London), 16_000);
}

#[test]
fn test_convert_timezone() {
    // Dallas 10:00 = UTC 16:00 = London 16:00
    let london_hour = convert_timezone(10_000, Timezone::Dallas, Timezone::London);
    assert_eq!(london_hour, 16_000);
}

#[test]
fn test_work_hours() {
    assert!(is_work_hour(9_000));
    assert!(is_work_hour(17_000));
    assert!(is_work_hour(9_500));
    assert!(!is_work_hour(8_990));
    assert!(!is_work_hour(18_000));
}

#[test]
fn utc_offset_is_identity() {
    // A zero offset only normalizes the hour into [0, 24).
    assert_eq!(utc_to_local(16_000, 0), 16_000);
    assert_eq!(utc_to_local(0, 0), 0);
    assert_eq!(utc_to_local(25_000, 0), 1_000);
    assert_eq!(utc_to_local(-2_000, 0), 22_000);
    assert_eq!(utc_to_local(48_000, 0), 0);
}

#[test]
fn conversion_round_trips() {
    // Out to another zone and back lands on the original hour mod 24.
    let there = convert_between_offsets(7_250, -6_000, 5_500);
    let back = convert_between_offsets(there, 5_500, -6_000);
    assert_eq!(back, 7_250);

    let there = convert_between_offsets(23_750, 14_000, -12_000);
    let back = convert_between_offsets(there, -12_000, 14_000);
    assert_eq!(back, 23_750);
}

#[test]
fn work_hour_boundaries() {
    // Half-open interval: 09:00 is working, 18:00 sharp is not.
    assert!(is_work_hour(9_000));
    assert!(is_work_hour(17_999));
    assert!(!is_work_hour(18_000));
    assert!(!is_work_hour(8_999));
}

#[test]
fn utc_to_local_examples() {
    // UTC 16:00 is 10:00 in Dallas (UTC-6).
    assert_eq!(utc_to_local(16_000, -6_000), 10_000);
    // UTC 16:00 is 21:30 in a UTC+5:30 zone.
    assert_eq!(utc_to_local(16_000, 5_500), 21_500);
}

#[test]
fn normalization_wraps_any_hour() {
    assert_eq!(norm_hour_millis(-1), 23_999);
    assert_eq!(norm_hour_millis(24_000), 0);
    assert_eq!(norm_hour_millis(-24_000), 0);
    assert_eq!(norm_hour_millis(50_500), 2_500);
}

#[test]
fn three_city_overlap() {
    // London 16:00 means Dallas 10:00 and Connecticut 11:00 - all working.
    assert!(is_full_overlap(16_000, Timezone::London));
    // London 22:00 is past working hours in London itself.
    assert!(!is_full_overlap(22_000, Timezone::London));
    // Seen from Dallas: 10:00 local is the same instant as London 16:00.
    assert!(is_full_overlap(10_000, Timezone::Dallas));
}

#[test]
fn three_city_is_timezone_working() {
    // Dallas 10:00 = London 16:00, inside working hours.
    assert!(is_timezone_working(10_000, Timezone::Dallas, Timezone::London));
    // Dallas 17:00 = London 23:00, outside.
    assert!(!is_timezone_working(17_000, Timezone::Dallas, Timezone::London));
    // Connecticut 9:00 = Dallas 8:00, just before the working day.
    assert!(!is_timezone_working(9_000, Timezone::Connecticut, Timezone::Dallas));
}
