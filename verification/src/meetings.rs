//! Meeting lookups: which stored meetings sit at a clicked hour, and which
//! fall inside or outside the working-hour overlap of the active zones.
//! Meetings themselves are owned by the host; the engine only selects them
//! by their UTC hour, handing back indices into the host's list.

use vstd::prelude::*;
use crate::types::Meeting;
use crate::zones::{
    TimezoneEntry, full_overlap_at, is_full_overlap_utc, lemma_push_contains, offsets_valid,
};

verus! {

/// Every stored meeting sits on a legal whole UTC hour.
pub open spec fn meetings_wf(ms: Seq<Meeting>) -> bool {
    forall|i: int| 0 <= i < ms.len() ==> (#[trigger] ms[i]).utc_hour < 24
}

/// The indices of the meetings pinned to the given UTC hour, in order.
pub fn meetings_at_hour(meetings: &Vec<Meeting>, utc_hour: u32) -> (r: Vec<usize>)
    ensures
        forall|k1: int, k2: int| 0 <= k1 < k2 < r@.len() ==> r@[k1] < r@[k2],
        forall|k: int| 0 <= k < r@.len() ==> (#[trigger] r@[k]) < meetings@.len(),
        forall|j: usize|
            j < meetings@.len() ==> (r@.contains(j) <==> meetings@[j as int].utc_hour == utc_hour),
{
    let mut r: Vec<usize> = Vec::new();
    let mut i: usize = 0;
    while i < meetings.len()
        invariant
            i <= meetings@.len(),
            forall|k1: int, k2: int| 0 <= k1 < k2 < r@.len() ==> r@[k1] < r@[k2],
            forall|k: int| 0 <= k < r@.len() ==> (#[trigger] r@[k]) < i,
            forall|j: usize|
                j < i ==> (r@.contains(j) <==> meetings@[j as int].utc_hour == utc_hour),
        decreases meetings@.len() - i,
    {
        let ghost r_old = r@;
        if meetings[i].utc_hour == utc_hour {
            r.push(i);
        }
        proof {
            assert forall|j: usize| j < i + 1 implies (r@.contains(j) <==> meetings@[j as int].utc_hour
                == utc_hour) by {
                lemma_push_contains(r_old, i, j);
                if j < i {
                } else {
                    if r_old.contains(j) {
                        let k = choose|k: int| 0 <= k < r_old.len() && r_old[k] == j;
                        assert(r_old[k] < i);
                    }
                }
            }
        }
        i = i + 1;
    }
    r
}

/// The indices of the meetings whose hour falls inside the working-hour
/// overlap of every active zone, in order.
pub fn meetings_in_overlap(meetings: &Vec<Meeting>, zones: &Vec<TimezoneEntry>) -> (r: Vec<usize>)
    requires
        meetings_wf(meetings@),
        offsets_valid(zones@),
    ensures
        forall|k1: int, k2: int| 0 <= k1 < k2 < r@.len() ==> r@[k1] < r@[k2],
        forall|k: int| 0 <= k < r@.len() ==> (#[trigger] r@[k]) < meetings@.len(),
        forall|j: usize|
            j < meetings@.len() ==> (r@.contains(j) <==> full_overlap_at(
                meetings@[j as int].utc_hour as int * 1000,
                zones@,
            )),
{
    let mut r: Vec<usize> = Vec::new();
    let mut i: usize = 0;
    while i < meetings.len()
        invariant
            i <= meetings@.len(),
            meetings_wf(meetings@),
            offsets_valid(zones@),
            forall|k1: int, k2: int| 0 <= k1 < k2 < r@.len() ==> r@[k1] < r@[k2],
            forall|k: int| 0 <= k < r@.len() ==> (#[trigger] r@[k]) < i,
            forall|j: usize|
                j < i ==> (r@.contains(j) <==> full_overlap_at(
                    meetings@[j as int].utc_hour as int * 1000,
                    zones@,
                )),
        decreases meetings@.len() - i,
    {
        let ghost r_old = r@;
        let hour = meetings[i].utc_hour;
        if is_full_overlap_utc((hour as i64) * 1000, zones) {
            r.push(i);
        }
        proof {
            assert forall|j: usize| j < i + 1 implies (r@.contains(j) <==> full_overlap_at(
                meetings@[j as int].utc_hour as int * 1000,
                zones@,
            )) by {
                lemma_push_contains(r_old, i, j);
                if j < i {
                } else {
                    if r_old.contains(j) {
                        let k = choose|k: int| 0 <= k < r_old.len() && r_old[k] == j;
                        assert(r_old[k] < i);
                    }
                }
            }
        }
        i = i + 1;
    }
    r
}

/// The indices of the meetings whose hour falls outside the overlap: the
/// complement of `meetings_in_overlap`, in order.
pub fn meetings_outside_overlap(meetings: &Vec<Meeting>, zones: &Vec<TimezoneEntry>) -> (r: Vec<
    usize,
>)
    requires
        meetings_wf(meetings@),
        offsets_valid(zones@),
    ensures
        forall|k1: int, k2: int| 0 <= k1 < k2 < r@.len() ==> r@[k1] < r@[k2],
        forall|k: int| 0 <= k < r@.len() ==> (#[trigger] r@[k]) < meetings@.len(),
        forall|j: usize|
            j < meetings@.len() ==> (r@.contains(j) <==> !full_overlap_at(
                meetings@[j as int].utc_hour as int * 1000,
                zones@,
            )),
{
    let mut r: Vec<usize> = Vec::new();
    let mut i: usize = 0;
    while i < meetings.len()
        invariant
            i <= meetings@.len(),
            meetings_wf(meetings@),
            offsets_valid(zones@),
            forall|k1: int, k2: int| 0 <= k1 < k2 < r@.len() ==> r@[k1] < r@[k2],
            forall|k: int| 0 <= k < r@.len() ==> (#[trigger] r@[k]) < i,
            forall|j: usize|
                j < i ==> (r@.contains(j) <==> !full_overlap_at(
                    meetings@[j as int].utc_hour as int * 1000,
                    zones@,
                )),
        decreases meetings@.len() - i,
    {
        let ghost r_old = r@;
        let hour = meetings[i].utc_hour;
        if !is_full_overlap_utc((hour as i64) * 1000, zones) {
            r.push(i);
        }
        proof {
            assert forall|j: usize| j < i + 1 implies (r@.contains(j) <==> !full_overlap_at(
                meetings@[j as int].utc_hour as int * 1000,
                zones@,
            )) by {
                lemma_push_contains(r_old, i, j);
                if j < i {
                } else {
                    if r_old.contains(j) {
                        let k = choose|k: int| 0 <= k < r_old.len() && r_old[k] == j;
                        assert(r_old[k] < i);
                    }
                }
            }
        }
        i = i + 1;
    }
    r
}

/// The zones of the face that are outside working hours at the given UTC
/// hour: the ones a slot caption warns about, as indices into the list.
pub fn zones_outside_working(utc_hour: u32, zones: &Vec<TimezoneEntry>) -> (r: Vec<usize>)
    requires
        utc_hour < 24,
        offsets_valid(zones@),
    ensures
        forall|k1: int, k2: int| 0 <= k1 < k2 < r@.len() ==> r@[k1] < r@[k2],
        forall|k: int| 0 <= k < r@.len() ==> (#[trigger] r@[k]) < zones@.len(),
        forall|j: usize|
            j < zones@.len() ==> (r@.contains(j) <==> !crate::timezone::working_hour(
                crate::timezone::local_hour(
                    utc_hour as int * 1000,
                    zones@[j as int].offset_millis as int,
                ),
            )),
{
    let mut r: Vec<usize> = Vec::new();
    let mut i: usize = 0;
    while i < zones.len()
        invariant
            i <= zones@.len(),
            utc_hour < 24,
            offsets_valid(zones@),
            forall|k1: int, k2: int| 0 <= k1 < k2 < r@.len() ==> r@[k1] < r@[k2],
            forall|k: int| 0 <= k < r@.len() ==> (#[trigger] r@[k]) < i,
            forall|j: usize|
                j < i ==> (r@.contains(j) <==> !crate::timezone::working_hour(
                    crate::timezone::local_hour(
                        utc_hour as int * 1000,
                        zones@[j as int].offset_millis as int,
                    ),
                )),
        decreases zones@.len() - i,
    {
        let ghost r_old = r@;
        let local = crate::timezone::utc_to_local((utc_hour as i64) * 1000, zones[i].offset_millis);
        if !crate::timezone::is_work_hour(local) {
            r.push(i);
        }
        proof {
            assert forall|j: usize| j < i + 1 implies (r@.contains(j)
                <==> !crate::timezone::working_hour(
                crate::timezone::local_hour(
                    utc_hour as int * 1000,
                    zones@[j as int].offset_millis as int,
                ),
            )) by {
                lemma_push_contains(r_old, i, j);
                if j < i {
                } else {
                    if r_old.contains(j) {
                        let k = choose|k: int| 0 <= k < r_old.len() && r_old[k] == j;
                        assert(r_old[k] < i);
                    }
                }
            }
        }
        i = i + 1;
    }
    r
}

} // verus!
