use tzclock::types::{Ring, RingAssignments, Timezone};

#[test]
fn catalog_city_offsets() {
    assert_eq!(Timezone::Dallas.offset(), -6);
    assert_eq!(Timezone::Connecticut.offset(), -5);
    assert_eq!(Timezone::London.offset(), 0);
}

#[test]
fn catalog_city_names() {
    assert_eq!(Timezone::Dallas.name(), "Dallas");
    assert_eq!(Timezone::Connecticut.name(), "Connecticut");
    assert_eq!(Timezone::London.name(), "London");
    assert_eq!(Timezone::Dallas.short_name(), "DAL");
    assert_eq!(Timezone::Connecticut.short_name(), "CT");
    assert_eq!(Timezone::London.short_name(), "LON");
}

#[test]
fn default_ring_assignments() {
    let rings = RingAssignments::default();
    assert_eq!(rings.outer, Timezone::Dallas);
    assert_eq!(rings.middle, Timezone::Connecticut);
    assert_eq!(rings.inner, Timezone::London);
}

#[test]
fn ring_identity() {
    assert_eq!(Ring::Outer, Ring::Outer);
    assert_ne!(Ring::Outer, Ring::Inner);
    assert_ne!(Ring::Middle, Ring::Inner);
}
