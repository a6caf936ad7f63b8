//! Ring geometry engine: angles, per-ring radii, and wedge descriptors for a
//! clock face of 24 hour-segments per ring, on a 400 by 400 logical canvas.
//!
//! Angles are in milli-degrees and radii in milli-units of the canvas, so
//! every formula here is exact integer arithmetic. Projecting a polar point
//! to Cartesian coordinates takes trigonometry and is left to the host
//! renderer.

use vstd::prelude::*;
use crate::DAY_MILLIS;

verus! {

/// Horizontal center of the canvas, milli-units.
pub const CENTER_X_MILLIS: i64 = 200_000;

/// Vertical center of the canvas, milli-units.
pub const CENTER_Y_MILLIS: i64 = 200_000;

/// Radius of the background disc, milli-units.
pub const BG_RADIUS_MILLIS: i64 = 196_000;

/// Radius of the central readout circle, milli-units.
pub const CENTER_RADIUS_MILLIS: i64 = 54_000;

/// Outer radius of the outermost ring, just inside the background disc.
pub const RING_OUTERMOST_MILLIS: i64 = 192_000;

/// Lower bound for every ring's inner radius, just outside the center circle.
pub const RING_INNERMOST_MILLIS: i64 = 60_000;

/// Radial gap between adjacent rings, milli-units.
pub const RING_GAP_MILLIS: i64 = 4_000;

/// Most rings the face can carry.
pub const MAX_RINGS: usize = 5;

/// The annular band that the rings share, outermost to innermost bound.
pub const RING_BAND_MILLIS: i64 = 132_000;

/// One ring of the face: a closed annulus `[inner, outer]`, milli-units.
#[derive(Debug, Clone, Copy, PartialEq, Eq, Structural)]
pub struct RingGeometry {
    pub outer_millis: i64,
    pub inner_millis: i64,
}

/// The angle of an hour mark, milli-degrees: a full day is one turn, hour 0
/// sits at the top of the face (a quarter-turn before the trigonometric
/// zero), and angles grow clockwise.
pub open spec fn hour_angle(h: int) -> int {
    15 * h - 90_000
}

/// Radial width of each ring when `n` rings share the band, with a gap
/// between neighbours; the division rounds down to whole milli-units.
pub open spec fn ring_width(n: int) -> int {
    (RING_BAND_MILLIS - (n - 1) * RING_GAP_MILLIS) / n
}

/// Outer radius of ring `i` of `n`, counted from the outside in.
pub open spec fn ring_outer(n: int, i: int) -> int {
    RING_OUTERMOST_MILLIS - i * (ring_width(n) + RING_GAP_MILLIS)
}

/// Inner radius of ring `i` of `n`.
pub open spec fn ring_inner(n: int, i: int) -> int {
    ring_outer(n, i) - ring_width(n)
}

/// The angle of an hour mark in milli-degrees. Hour 0 maps to the top of the
/// face, hour 6000 (06:00) to the right, and 24000 to a full turn past 0.
pub fn get_hour_angle(hour_millis: i64) -> (r: i64)
    requires
        crate::timezone::valid_hour_arg(hour_millis as int),
    ensures
        r == hour_angle(hour_millis as int),
{
    15 * hour_millis - 90_000
}

/// The fixed widths the band allows, one per legal ring count.
proof fn lemma_ring_width_values()
    ensures
        ring_width(1) == 132_000,
        ring_width(2) == 64_000,
        ring_width(3) == 41_333,
        ring_width(4) == 30_000,
        ring_width(5) == 23_200,
{
    assert(ring_width(1) == 132_000int / 1int);
    assert(ring_width(2) == 128_000int / 2int);
    assert(ring_width(3) == 124_000int / 3int);
    assert(ring_width(4) == 120_000int / 4int);
    assert(ring_width(5) == 116_000int / 5int);
    assert(132_000int / 1int == 132_000 && 128_000int / 2int == 64_000
        && 124_000int / 3int == 41_333 && 120_000int / 4int == 30_000
        && 116_000int / 5int == 23_200) by (nonlinear_arith);
}

/// Rings never collide: each ring is a proper annulus, every ring stays
/// inside the shared band, and of two distinct rings the inner one's whole
/// annulus lies strictly inside the outer one's inner edge -- so radii fall
/// strictly from the outside in and no two annuli overlap.
pub proof fn lemma_ring_radii_disjoint(n: int)
    requires
        1 <= n <= MAX_RINGS,
    ensures
        ring_outer(n, 0) == RING_OUTERMOST_MILLIS,
        forall|i: int| 0 <= i < n ==> ring_inner(n, i) < #[trigger] ring_outer(n, i),
        forall|i: int| 0 <= i < n ==> #[trigger] ring_inner(n, i) >= RING_INNERMOST_MILLIS,
        forall|i: int, j: int|
            0 <= i < j < n ==> #[trigger] ring_outer(n, j) < #[trigger] ring_inner(n, i),
{
    lemma_ring_width_values();
    let w = ring_width(n);
    assert(23_200 <= w <= 132_000);
    assert(n * w + (n - 1) * RING_GAP_MILLIS <= RING_BAND_MILLIS) by (nonlinear_arith)
        requires
            1 <= n <= 5,
            w == ring_width(n),
            ring_width(1) == 132_000,
            ring_width(2) == 64_000,
            ring_width(3) == 41_333,
            ring_width(4) == 30_000,
            ring_width(5) == 23_200,
    ;
    assert forall|i: int| 0 <= i < n implies ring_inner(n, i) >= RING_INNERMOST_MILLIS by {
        assert(i * (w + RING_GAP_MILLIS) + w <= n * w + (n - 1) * RING_GAP_MILLIS)
            by (nonlinear_arith)
            requires
                0 <= i < n,
                w >= 0,
        ;
    }
    assert forall|i: int, j: int| 0 <= i < j < n implies ring_outer(n, j) < ring_inner(n, i) by {
        assert((j - i) * (w + RING_GAP_MILLIS) >= w + RING_GAP_MILLIS) by (nonlinear_arith)
            requires
                j - i >= 1,
                w >= 0,
        ;
        assert(ring_outer(n, i) - ring_outer(n, j) == (j - i) * (w + RING_GAP_MILLIS))
            by (nonlinear_arith)
            requires
                ring_outer(n, i) == RING_OUTERMOST_MILLIS - i * (w + RING_GAP_MILLIS),
                ring_outer(n, j) == RING_OUTERMOST_MILLIS - j * (w + RING_GAP_MILLIS),
        ;
    }
}

/// Split the band into `n` equal-width rings, outermost first, with a gap
/// between neighbours. Every entry carries the exact closed-form radii.
pub fn compute_ring_radii(n: usize) -> (r: Vec<RingGeometry>)
    requires
        1 <= n <= MAX_RINGS,
    ensures
        r@.len() == n,
        forall|i: int|
            0 <= i < n ==> (#[trigger] r@[i]).outer_millis == ring_outer(n as int, i)
                && r@[i].inner_millis == ring_inner(n as int, i),
        r@[0].outer_millis == RING_OUTERMOST_MILLIS,
        forall|i: int| 0 <= i < n ==> (#[trigger] r@[i]).inner_millis < r@[i].outer_millis,
        forall|i: int| 0 <= i < n ==> (#[trigger] r@[i]).inner_millis >= RING_INNERMOST_MILLIS,
        forall|i: int, j: int|
            0 <= i < j < n ==> (#[trigger] r@[j]).outer_millis < (#[trigger] r@[i]).inner_millis,
{
    proof {
        lemma_ring_width_values();
        lemma_ring_radii_disjoint(n as int);
    }
    let band_less_gaps: i64 = RING_BAND_MILLIS - ((n as i64) - 1) * RING_GAP_MILLIS;
    let w: i64 = band_less_gaps / (n as i64);
    assert(w == ring_width(n as int));
    let mut rings: Vec<RingGeometry> = Vec::new();
    let mut outer: i64 = RING_OUTERMOST_MILLIS;
    let mut i: usize = 0;
    while i < n
        invariant
            i <= n,
            1 <= n <= MAX_RINGS,
            w == ring_width(n as int),
            23_200 <= w <= 132_000,
            outer == ring_outer(n as int, i as int),
            RING_OUTERMOST_MILLIS - 5 * 136_000 <= outer <= RING_OUTERMOST_MILLIS,
            rings@.len() == i,
            forall|k: int|
                0 <= k < i ==> (#[trigger] rings@[k]).outer_millis == ring_outer(n as int, k)
                    && rings@[k].inner_millis == ring_inner(n as int, k),
        decreases n - i,
    {
        rings.push(RingGeometry { outer_millis: outer, inner_millis: outer - w });
        proof {
            assert((i as int + 1) * (w + RING_GAP_MILLIS)
                == (i as int) * (w + RING_GAP_MILLIS) + (w + RING_GAP_MILLIS))
                by (nonlinear_arith);
            assert(0 <= (i as int + 1) * (w + RING_GAP_MILLIS) <= 5 * 136_000)
                by (nonlinear_arith)
                requires
                    0 <= i as int + 1 <= 5,
                    0 <= w + RING_GAP_MILLIS <= 136_000,
            ;
        }
        outer = outer - (w + RING_GAP_MILLIS);
        i = i + 1;
    }
    rings
}

/// One hour-wedge of a ring, ready for the renderer: the polar corners of the
/// annular wedge and the two SVG sweep flags. The outer arc sweeps clockwise
/// (flag 1) and the inner arc back counter-clockwise (flag 0), so the four
/// corners close into a wedge whichever hemisphere it lies in.
#[derive(Debug, Clone, Copy, PartialEq, Eq, Structural)]
pub struct SegmentArc {
    pub outer_radius_millis: i64,
    pub inner_radius_millis: i64,
    pub start_angle_millideg: i64,
    pub end_angle_millideg: i64,
    pub outer_sweep_flag: u8,
    pub inner_sweep_flag: u8,
}

/// The wedge of one ring between two hour marks, as polar geometry plus the
/// arc sweep flags; corners in path order are (outer, start), (outer, end),
/// (inner, end), (inner, start).
pub fn segment_arc(outer_r_millis: i64, inner_r_millis: i64, start_hour_millis: i64, end_hour_millis: i64)
    -> (r: SegmentArc)
    requires
        crate::timezone::valid_hour_arg(start_hour_millis as int),
        crate::timezone::valid_hour_arg(end_hour_millis as int),
    ensures
        r.outer_radius_millis == outer_r_millis,
        r.inner_radius_millis == inner_r_millis,
        r.start_angle_millideg == hour_angle(start_hour_millis as int),
        r.end_angle_millideg == hour_angle(end_hour_millis as int),
        r.outer_sweep_flag == 1,
        r.inner_sweep_flag == 0,
{
    SegmentArc {
        outer_radius_millis: outer_r_millis,
        inner_radius_millis: inner_r_millis,
        start_angle_millideg: get_hour_angle(start_hour_millis),
        end_angle_millideg: get_hour_angle(end_hour_millis),
        outer_sweep_flag: 1,
        inner_sweep_flag: 0,
    }
}

/// Where a segment's label sits, in polar form: the middle of the wedge's
/// hour (half an hour past its start) at the radial midpoint of the ring.
/// Returns `(radius_millis, angle_millideg)`.
pub fn label_anchor(outer_r_millis: i64, inner_r_millis: i64, hour_millis: i64) -> (r: (i64, i64))
    requires
        0 <= inner_r_millis <= outer_r_millis <= BG_RADIUS_MILLIS,
        crate::timezone::valid_hour_arg(hour_millis as int),
        crate::timezone::valid_hour_arg(hour_millis as int + 500),
    ensures
        r.0 == (outer_r_millis + inner_r_millis) / 2,
        r.1 == hour_angle(hour_millis + 500),
{
    ((outer_r_millis + inner_r_millis) / 2, get_hour_angle(hour_millis + 500))
}

/// The label size for a face of `n` rings: the fewer the rings, the roomier
/// each annulus, so three or fewer get the large size, four the middle one,
/// five or more the small one.
pub fn font_size_for_ring_count(n: usize) -> (r: u32)
    ensures
        n <= 3 ==> r == 11,
        n == 4 ==> r == 9,
        n >= 5 ==> r == 8,
{
    if n <= 3 {
        11
    } else if n == 4 {
        9
    } else {
        8
    }
}

/// A full day of hour marks turns the face exactly once: the angle one day
/// later is the same point, one whole turn (360 degrees) further on.
pub proof fn lemma_hour_angle_periodic(h: int)
    ensures
        hour_angle(h + DAY_MILLIS) == hour_angle(h) + 360_000,
{
}

} // verus!
