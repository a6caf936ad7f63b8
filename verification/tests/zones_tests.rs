use tzclock::zones::{
    is_full_overlap_utc, overlap_hours, selected_slot, timezone_database, ActiveTimezones,
    TimezoneEntry,
};

fn dallas_ct_london() -> Vec<TimezoneEntry> {
    let db = timezone_database();
    vec![db[0], db[1], db[2]]
}

#[test]
fn registry_contents() {
    let db = timezone_database();
    assert_eq!(db.len(), 8);
    for (i, entry) in db.iter().enumerate() {
        assert_eq!(entry.id as usize, i);
        assert!(entry.offset_millis >= -12_000 && entry.offset_millis <= 14_000);
    }
    assert_eq!(db[0].name, "Dallas");
    assert_eq!(db[0].short_name, "DAL");
    assert_eq!(db[0].offset_millis, -6_000);
    assert_eq!(db[2].name, "London");
    assert_eq!(db[2].offset_millis, 0);
    assert_eq!(db[4].offset_millis, 5_500);
}

#[test]
fn default_face_shows_the_three_cities() {
    let active = ActiveTimezones::default();
    assert_eq!(active.zones.len(), 3);
    assert_eq!(active.zones[0].name, "Dallas");
    assert_eq!(active.zones[1].name, "Connecticut");
    assert_eq!(active.zones[2].name, "London");
}

#[test]
fn full_overlap_at_utc_16_but_not_22() {
    let zones = dallas_ct_london();
    // UTC 16:00: local hours 10:00, 11:00, 16:00 - all inside [9, 18).
    assert!(is_full_overlap_utc(16_000, &zones));
    // UTC 22:00: local hours 16:00, 17:00, 22:00 - London fails.
    assert!(!is_full_overlap_utc(22_000, &zones));
}

#[test]
fn full_overlap_of_empty_list_is_vacuous() {
    let zones: Vec<TimezoneEntry> = Vec::new();
    assert!(is_full_overlap_utc(16_000, &zones));
}

#[test]
fn overlap_window_of_the_three_cities() {
    let zones = dallas_ct_london();
    // London needs 9..18, Connecticut 14..23, Dallas 15..24: hours 15..18.
    assert_eq!(overlap_hours(&zones), vec![15, 16, 17]);
}

#[test]
fn overlap_window_can_be_empty() {
    let db = timezone_database();
    // Honolulu (UTC-10) and Berlin (UTC+1) share no working hour:
    // Honolulu needs UTC 19..28, Berlin UTC 8..17.
    let zones = vec![db[7], db[3]];
    assert_eq!(overlap_hours(&zones), Vec::<u32>::new());
}

#[test]
fn selected_slot_carries_local_hours_in_ring_order() {
    let zones = dallas_ct_london();
    let slot = selected_slot(16, &zones);
    assert_eq!(slot.utc_hour, 16);
    assert_eq!(slot.local_hours, vec![10_000, 11_000, 16_000]);
}

#[test]
fn reassign_swaps_when_zone_already_shown() {
    let mut active = ActiveTimezones::default();
    let db = timezone_database();
    // London is already on ring 2; assigning it to ring 0 swaps the two.
    active.reassign(0, db[2]);
    assert_eq!(active.zones[0].name, "London");
    assert_eq!(active.zones[1].name, "Connecticut");
    assert_eq!(active.zones[2].name, "Dallas");
    // Each id still appears exactly once.
    let mut ids: Vec<u32> = active.zones.iter().map(|z| z.id).collect();
    ids.sort();
    assert_eq!(ids, vec![0, 1, 2]);
}

#[test]
fn reassign_replaces_when_zone_is_new() {
    let mut active = ActiveTimezones::default();
    let db = timezone_database();
    active.reassign(1, db[5]);
    assert_eq!(active.zones[0].name, "Dallas");
    assert_eq!(active.zones[1].name, "Tokyo");
    assert_eq!(active.zones[2].name, "London");
}

#[test]
fn reassign_to_own_ring_changes_nothing() {
    let mut active = ActiveTimezones::default();
    let db = timezone_database();
    active.reassign(0, db[0]);
    assert_eq!(active.zones[0].name, "Dallas");
    assert_eq!(active.zones[1].name, "Connecticut");
    assert_eq!(active.zones[2].name, "London");
}

#[test]
fn contains_and_find() {
    let active = ActiveTimezones::default();
    assert!(active.contains_id(0));
    assert!(!active.contains_id(5));
    assert_eq!(active.find_index(2), Some(2));
    assert_eq!(active.find_index(7), None);
}

#[test]
fn first_unused_is_the_next_catalog_zone() {
    let db = timezone_database();
    let active = ActiveTimezones::default();
    // Rings show zones 0, 1, 2; the first free catalog entry is Berlin.
    assert_eq!(active.first_unused(&db), Some(3));
}

#[test]
fn push_and_remove_rings() {
    let db = timezone_database();
    let mut active = ActiveTimezones::default();
    active.push_zone(db[4]);
    assert_eq!(active.zones.len(), 4);
    assert_eq!(active.zones[3].name, "Mumbai");
    active.remove_ring(0);
    assert_eq!(active.zones.len(), 3);
    assert_eq!(active.zones[0].name, "Connecticut");
}
