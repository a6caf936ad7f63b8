use tzclock::geometry::{
    compute_ring_radii, font_size_for_ring_count, get_hour_angle, label_anchor, segment_arc,
    RING_INNERMOST_MILLIS, RING_OUTERMOST_MILLIS,
};

#[test]
fn hour_angle_anchor_points() {
    // Hour 0 sits at the top of the face, a quarter turn before the
    // trigonometric zero.
    assert_eq!(get_hour_angle(0), -90_000);
    // Hour 6 sits at the 3 o'clock position.
    assert_eq!(get_hour_angle(6_000), 0);
    // Hour 12 at the bottom, hour 18 at 9 o'clock.
    assert_eq!(get_hour_angle(12_000), 90_000);
    assert_eq!(get_hour_angle(18_000), 180_000);
}

#[test]
fn hour_angle_periodicity() {
    // One day later is one full turn further on.
    assert_eq!(get_hour_angle(24_000), get_hour_angle(0) + 360_000);
    assert_eq!(get_hour_angle(30_000), get_hour_angle(6_000) + 360_000);
}

#[test]
fn ring_radii_never_collide() {
    for n in 1..=5usize {
        let rings = compute_ring_radii(n);
        assert_eq!(rings.len(), n);
        assert_eq!(rings[0].outer_millis, RING_OUTERMOST_MILLIS);
        for r in &rings {
            assert!(r.outer_millis > r.inner_millis);
            assert!(r.inner_millis >= RING_INNERMOST_MILLIS);
        }
        for w in rings.windows(2) {
            // Strictly decreasing and separated: the next ring starts
            // strictly inside the previous one's inner edge.
            assert!(w[1].outer_millis < w[0].inner_millis);
        }
    }
}

#[test]
fn ring_radii_exact_values() {
    let one = compute_ring_radii(1);
    assert_eq!(one[0].outer_millis, 192_000);
    assert_eq!(one[0].inner_millis, 60_000);

    let two = compute_ring_radii(2);
    assert_eq!(two[0].outer_millis, 192_000);
    assert_eq!(two[0].inner_millis, 128_000);
    assert_eq!(two[1].outer_millis, 124_000);
    assert_eq!(two[1].inner_millis, 60_000);

    let three = compute_ring_radii(3);
    assert_eq!(three[0].outer_millis, 192_000);
    assert_eq!(three[0].inner_millis, 150_667);
    assert_eq!(three[1].outer_millis, 146_667);
    assert_eq!(three[1].inner_millis, 105_334);
    assert_eq!(three[2].outer_millis, 101_334);
    assert_eq!(three[2].inner_millis, 60_001);
}

#[test]
fn segment_arc_descriptor() {
    // The wedge of hour 0 on a ring: outer arc sweeps clockwise, inner arc
    // counter-clockwise, angles at the hour marks.
    let arc = segment_arc(192_000, 156_000, 0, 1_000);
    assert_eq!(arc.outer_radius_millis, 192_000);
    assert_eq!(arc.inner_radius_millis, 156_000);
    assert_eq!(arc.start_angle_millideg, -90_000);
    assert_eq!(arc.end_angle_millideg, -75_000);
    assert_eq!(arc.outer_sweep_flag, 1);
    assert_eq!(arc.inner_sweep_flag, 0);
}

#[test]
fn label_anchor_midpoint() {
    // The label sits half an hour into the wedge, at the radial midpoint.
    let (radius, angle) = label_anchor(192_000, 156_000, 0);
    assert_eq!(radius, 174_000);
    assert_eq!(angle, -82_500);

    let (radius, angle) = label_anchor(101_334, 60_001, 13_000);
    assert_eq!(radius, (101_334 + 60_001) / 2);
    assert_eq!(angle, get_hour_angle(13_500));
}

#[test]
fn font_size_steps_with_ring_count() {
    assert_eq!(font_size_for_ring_count(1), 11);
    assert_eq!(font_size_for_ring_count(2), 11);
    assert_eq!(font_size_for_ring_count(3), 11);
    assert_eq!(font_size_for_ring_count(4), 9);
    assert_eq!(font_size_for_ring_count(5), 8);
}
