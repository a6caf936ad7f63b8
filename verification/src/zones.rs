//! The zone registry and the active ring assignment: a catalog of selectable
//! zones, an ordered list of 1 to `MAX_RINGS` of them (outermost ring first,
//! no zone twice), the swap policy that keeps the list duplicate-free, and
//! the working-hour overlap across the whole list.

use vstd::prelude::*;
use crate::geometry::MAX_RINGS;
use crate::timezone::{
    local_hour, utc_to_local, valid_hour_arg, valid_offset, working_hour,
    is_work_hour,
};
use crate::types::SelectedSlot;

verus! {

/// One selectable zone of the registry: a stable key, display names, and the
/// UTC offset in milli-hours.
#[derive(Debug, Clone, Copy, PartialEq, Eq)]
pub struct TimezoneEntry {
    pub id: u32,
    pub name: &'static str,
    pub short_name: &'static str,
    pub offset_millis: i64,
}

/// The fixed registry contents: every selectable zone, keyed by its index.
pub open spec fn spec_timezone_database() -> Seq<TimezoneEntry> {
    seq![
        TimezoneEntry { id: 0, name: "Dallas", short_name: "DAL", offset_millis: -6_000i64 },
        TimezoneEntry { id: 1, name: "Connecticut", short_name: "CT", offset_millis: -5_000i64 },
        TimezoneEntry { id: 2, name: "London", short_name: "LON", offset_millis: 0 },
        TimezoneEntry { id: 3, name: "Berlin", short_name: "BER", offset_millis: 1_000 },
        TimezoneEntry { id: 4, name: "Mumbai", short_name: "IND", offset_millis: 5_500 },
        TimezoneEntry { id: 5, name: "Tokyo", short_name: "TYO", offset_millis: 9_000 },
        TimezoneEntry { id: 6, name: "Sydney", short_name: "SYD", offset_millis: 10_000 },
        TimezoneEntry { id: 7, name: "Honolulu", short_name: "HNL", offset_millis: -10_000i64 },
    ]
}

/// No zone id occurs twice in the list.
pub open spec fn distinct_ids(zs: Seq<TimezoneEntry>) -> bool {
    forall|i: int, j: int| 0 <= i < j < zs.len() ==> zs[i].id != zs[j].id
}

/// Every offset in the list is a legal zone offset.
pub open spec fn offsets_valid(zs: Seq<TimezoneEntry>) -> bool {
    forall|i: int| 0 <= i < zs.len() ==> valid_offset((#[trigger] zs[i]).offset_millis as int)
}

/// Every zone in the list is inside working hours at the given UTC hour;
/// vacuously true of an empty list.
pub open spec fn full_overlap_at(utc: int, zs: Seq<TimezoneEntry>) -> bool {
    forall|i: int| 0 <= i < zs.len()
        ==> working_hour(local_hour(utc, (#[trigger] zs[i]).offset_millis as int))
}

/// The static catalog of selectable zones.
pub fn timezone_database() -> (v: Vec<TimezoneEntry>)
    ensures
        v@ == spec_timezone_database(),
        v@.len() == 8,
        distinct_ids(v@),
        offsets_valid(v@),
        forall|i: int| 0 <= i < v@.len() ==> (#[trigger] v@[i]).id == i,
{
    let mut v: Vec<TimezoneEntry> = Vec::new();
    v.push(TimezoneEntry { id: 0, name: "Dallas", short_name: "DAL", offset_millis: -6_000 });
    v.push(TimezoneEntry { id: 1, name: "Connecticut", short_name: "CT", offset_millis: -5_000 });
    v.push(TimezoneEntry { id: 2, name: "London", short_name: "LON", offset_millis: 0 });
    v.push(TimezoneEntry { id: 3, name: "Berlin", short_name: "BER", offset_millis: 1_000 });
    v.push(TimezoneEntry { id: 4, name: "Mumbai", short_name: "IND", offset_millis: 5_500 });
    v.push(TimezoneEntry { id: 5, name: "Tokyo", short_name: "TYO", offset_millis: 9_000 });
    v.push(TimezoneEntry { id: 6, name: "Sydney", short_name: "SYD", offset_millis: 10_000 });
    v.push(TimezoneEntry { id: 7, name: "Honolulu", short_name: "HNL", offset_millis: -10_000 });
    proof {
        assert(v@ =~= spec_timezone_database());
    }
    v
}

/// The ordered list of zones on the face: entry 0 is the outermost ring.
#[derive(Debug, Clone, PartialEq)]
pub struct ActiveTimezones {
    pub zones: Vec<TimezoneEntry>,
}

impl ActiveTimezones {
    /// The list invariant: 1 to `MAX_RINGS` zones, no id twice, every offset
    /// legal.
    pub open spec fn wf(&self) -> bool {
        &&& 1 <= self.zones@.len() <= MAX_RINGS
        &&& distinct_ids(self.zones@)
        &&& offsets_valid(self.zones@)
    }

    /// Whether some ring already shows the zone with this id.
    pub fn contains_id(&self, id: u32) -> (r: bool)
        ensures
            r == exists|i: int| 0 <= i < self.zones@.len() && (#[trigger] self.zones@[i]).id == id,
    {
        let mut i: usize = 0;
        while i < self.zones.len()
            invariant
                i <= self.zones@.len(),
                forall|k: int| 0 <= k < i ==> (#[trigger] self.zones@[k]).id != id,
            decreases self.zones@.len() - i,
        {
            if self.zones[i].id == id {
                return true;
            }
            i = i + 1;
        }
        false
    }

    /// The ring index showing the zone with this id, if any.
    pub fn find_index(&self, id: u32) -> (r: Option<usize>)
        ensures
            match r {
                Some(j) => j < self.zones@.len() && self.zones@[j as int].id == id,
                None => forall|k: int|
                    0 <= k < self.zones@.len() ==> (#[trigger] self.zones@[k]).id != id,
            },
    {
        let mut i: usize = 0;
        while i < self.zones.len()
            invariant
                i <= self.zones@.len(),
                forall|k: int| 0 <= k < i ==> (#[trigger] self.zones@[k]).id != id,
            decreases self.zones@.len() - i,
        {
            if self.zones[i].id == id {
                return Some(i);
            }
            i = i + 1;
        }
        None
    }

    /// Assign the zone `new_zone` to ring `ring_index`. If the zone is
    /// already on some other ring, the two rings exchange their zones, so no
    /// id ever appears twice; if it is already on this very ring, nothing
    /// changes; otherwise it simply replaces the ring's zone.
    pub fn reassign(&mut self, ring_index: usize, new_zone: TimezoneEntry)
        requires
            old(self).wf(),
            ring_index < old(self).zones@.len(),
            valid_offset(new_zone.offset_millis as int),
        ensures
            final(self).wf(),
            final(self).zones@.len() == old(self).zones@.len(),
            forall|j: int|
                0 <= j < old(self).zones@.len() && (#[trigger] old(self).zones@[j]).id
                    == new_zone.id ==> final(self).zones@ == old(self).zones@.update(
                    ring_index as int,
                    old(self).zones@[j],
                ).update(j, old(self).zones@[ring_index as int]),
            (forall|k: int|
                0 <= k < old(self).zones@.len() ==> (#[trigger] old(self).zones@[k]).id
                    != new_zone.id) ==> final(self).zones@ == old(self).zones@.update(
                ring_index as int,
                new_zone,
            ),
    {
        let found = self.find_index(new_zone.id);
        match found {
            Some(j) => {
                if j != ring_index {
                    let a = self.zones[ring_index];
                    let b = self.zones[j];
                    self.zones[ring_index] = b;
                    self.zones[j] = a;
                }
                proof {
                    let zs = old(self).zones@;
                    assert forall|k: int|
                        0 <= k < zs.len() && (#[trigger] zs[k]).id == new_zone.id
                        implies self.zones@ == zs.update(ring_index as int, zs[k]).update(
                        k,
                        zs[ring_index as int],
                    ) by {
                        assert(k == j);
                        assert(self.zones@ =~= zs.update(ring_index as int, zs[k]).update(
                            k,
                            zs[ring_index as int],
                        ));
                    }
                }
            },
            None => {
                self.zones[ring_index] = new_zone;
            },
        }
    }
}

/// Whether every active zone is inside working hours at the given UTC hour.
pub fn is_full_overlap_utc(utc_hour: i64, zones: &Vec<TimezoneEntry>) -> (r: bool)
    requires
        valid_hour_arg(utc_hour as int),
        offsets_valid(zones@),
    ensures
        r == full_overlap_at(utc_hour as int, zones@),
{
    let mut i: usize = 0;
    while i < zones.len()
        invariant
            i <= zones@.len(),
            valid_hour_arg(utc_hour as int),
            offsets_valid(zones@),
            forall|k: int| 0 <= k < i
                ==> working_hour(local_hour(utc_hour as int, (#[trigger] zones@[k]).offset_millis as int)),
        decreases zones@.len() - i,
    {
        let local = utc_to_local(utc_hour, zones[i].offset_millis);
        if !is_work_hour(local) {
            return false;
        }
        i = i + 1;
    }
    true
}

/// The per-zone local times of one clicked UTC hour, in ring order.
pub fn selected_slot(utc_hour: u32, zones: &Vec<TimezoneEntry>) -> (r: SelectedSlot)
    requires
        utc_hour < 24,
        offsets_valid(zones@),
    ensures
        r.utc_hour == utc_hour,
        r.local_hours@.len() == zones@.len(),
        forall|i: int| 0 <= i < zones@.len()
            ==> r.local_hours@[i] == local_hour(utc_hour as int * 1000, (#[trigger] zones@[i]).offset_millis as int),
{
    let mut local_hours: Vec<i64> = Vec::new();
    let mut i: usize = 0;
    while i < zones.len()
        invariant
            i <= zones@.len(),
            utc_hour < 24,
            offsets_valid(zones@),
            local_hours@.len() == i,
            forall|k: int| 0 <= k < i
                ==> local_hours@[k] == local_hour(utc_hour as int * 1000, (#[trigger] zones@[k]).offset_millis as int),
        decreases zones@.len() - i,
    {
        local_hours.push(utc_to_local((utc_hour as i64) * 1000, zones[i].offset_millis));
        i = i + 1;
    }
    SelectedSlot { utc_hour, local_hours }
}

/// Some entry of the list carries this zone id.
pub open spec fn has_id(zs: Seq<TimezoneEntry>, id: u32) -> bool {
    exists|k: int| 0 <= k < zs.len() && (#[trigger] zs[k]).id == id
}

/// Appending an element makes a sequence contain it and keeps everything it
/// already contained, and nothing else.
pub(crate) proof fn lemma_push_contains<T>(s: Seq<T>, x: T, y: T)
    ensures
        s.push(x).contains(y) <==> (s.contains(y) || y == x),
{
    if s.contains(y) {
        let k = choose|k: int| 0 <= k < s.len() && s[k] == y;
        assert(s.push(x)[k] == y);
    }
    assert(s.push(x)[s.len() as int] == x);
    if s.push(x).contains(y) {
        let k = choose|k: int| 0 <= k < s.push(x).len() && s.push(x)[k] == y;
        if k < s.len() {
            assert(s[k] == y);
        }
    }
}

impl ActiveTimezones {
    /// Append a zone to a face that still has a free ring. The zone must not
    /// be on the face yet, so the no-duplicate invariant survives.
    pub fn push_zone(&mut self, new_zone: TimezoneEntry)
        requires
            old(self).wf(),
            old(self).zones@.len() < MAX_RINGS,
            valid_offset(new_zone.offset_millis as int),
            !has_id(old(self).zones@, new_zone.id),
        ensures
            final(self).wf(),
            final(self).zones@ == old(self).zones@.push(new_zone),
    {
        self.zones.push(new_zone);
        proof {
            let zs = old(self).zones@;
            assert forall|i: int, j: int| 0 <= i < j < self.zones@.len()
                implies self.zones@[i].id != self.zones@[j].id by {
                if j < zs.len() {
                } else {
                    assert(self.zones@[j] == new_zone);
                    assert(zs[i].id == new_zone.id ==> has_id(zs, new_zone.id));
                }
            }
        }
    }

    /// Take one ring off the face; at least one ring always stays.
    pub fn remove_ring(&mut self, ring_index: usize)
        requires
            old(self).wf(),
            old(self).zones@.len() > 1,
            ring_index < old(self).zones@.len(),
        ensures
            final(self).wf(),
            final(self).zones@ == old(self).zones@.remove(ring_index as int),
    {
        self.zones.remove(ring_index);
    }

    /// The first catalog entry whose zone is not yet on the face: what the
    /// host offers when the user adds a ring.
    pub fn first_unused(&self, catalog: &Vec<TimezoneEntry>) -> (r: Option<usize>)
        ensures
            match r {
                Some(k) => k < catalog@.len() && !has_id(self.zones@, catalog@[k as int].id)
                    && forall|m: int| 0 <= m < k ==> has_id(self.zones@, (#[trigger] catalog@[m]).id),
                None => forall|m: int|
                    0 <= m < catalog@.len() ==> has_id(self.zones@, (#[trigger] catalog@[m]).id),
            },
    {
        let mut m: usize = 0;
        while m < catalog.len()
            invariant
                m <= catalog@.len(),
                forall|k: int| 0 <= k < m ==> has_id(self.zones@, (#[trigger] catalog@[k]).id),
            decreases catalog@.len() - m,
        {
            if !self.contains_id(catalog[m].id) {
                return Some(m);
            }
            m = m + 1;
        }
        None
    }
}

impl Default for ActiveTimezones {
    /// The face as first shown: the first three catalog zones, outermost
    /// Dallas, then Connecticut, then London.
    fn default() -> (r: Self)
        ensures
            r.wf(),
            r.zones@ == spec_timezone_database().subrange(0, 3),
    {
        let mut zones = timezone_database();
        zones.truncate(3);
        proof {
            assert(zones@ =~= spec_timezone_database().subrange(0, 3));
        }
        ActiveTimezones { zones }
    }
}

/// Exchanging the zones of rings `i` and `j` is what assigning an
/// already-shown zone does: the two entries trade places, every other ring
/// keeps its zone, and the face still shows each of its zone ids exactly
/// once -- the same ids as before.
pub proof fn lemma_reassign_swap_exchanges(zs: Seq<TimezoneEntry>, i: int, j: int)
    requires
        distinct_ids(zs),
        0 <= i < zs.len(),
        0 <= j < zs.len(),
        i != j,
    ensures
        ({
            let r = zs.update(i, zs[j]).update(j, zs[i]);
            &&& r[i] == zs[j]
            &&& r[j] == zs[i]
            &&& forall|k: int| 0 <= k < zs.len() && k != i && k != j ==> r[k] == zs[k]
            &&& distinct_ids(r)
            &&& forall|id: u32| has_id(r, id) <==> has_id(zs, id)
        }),
{
    let r = zs.update(i, zs[j]).update(j, zs[i]);
    assert forall|a: int, b: int| 0 <= a < b < r.len() implies r[a].id != r[b].id by {
        let a0: int = if a == i { j } else if a == j { i } else { a };
        let b0: int = if b == i { j } else if b == j { i } else { b };
        assert(r[a] == zs[a0] && r[b] == zs[b0]);
        assert(a0 != b0);
    }
    assert forall|id: u32| has_id(r, id) implies has_id(zs, id) by {
        let k = choose|k: int| 0 <= k < r.len() && r[k].id == id;
        let k0: int = if k == i { j } else if k == j { i } else { k };
        assert(zs[k0].id == id);
    }
    assert forall|id: u32| has_id(zs, id) implies has_id(r, id) by {
        let k = choose|k: int| 0 <= k < zs.len() && zs[k].id == id;
        let k0: int = if k == i { j } else if k == j { i } else { k };
        assert(r[k0].id == id);
    }
}

/// The UTC hours (whole hours, `0..24`) at which every active zone is inside
/// working hours, in increasing order: the meeting window of the face.
pub fn overlap_hours(zones: &Vec<TimezoneEntry>) -> (r: Vec<u32>)
    requires
        offsets_valid(zones@),
    ensures
        forall|k1: int, k2: int| 0 <= k1 < k2 < r@.len() ==> r@[k1] < r@[k2],
        forall|h: u32| h < 24 ==> (r@.contains(h) <==> full_overlap_at(h as int * 1000, zones@)),
        forall|k: int| 0 <= k < r@.len() ==> (#[trigger] r@[k]) < 24,
{
    let mut r: Vec<u32> = Vec::new();
    let mut h: u32 = 0;
    while h < 24
        invariant
            h <= 24,
            offsets_valid(zones@),
            forall|k1: int, k2: int| 0 <= k1 < k2 < r@.len() ==> r@[k1] < r@[k2],
            forall|k: int| 0 <= k < r@.len() ==> (#[trigger] r@[k]) < h,
            forall|g: u32| g < h ==> (r@.contains(g) <==> full_overlap_at(g as int * 1000, zones@)),
        decreases 24 - h,
    {
        let ghost r_old = r@;
        if is_full_overlap_utc((h as i64) * 1000, zones) {
            r.push(h);
        }
        proof {
            assert forall|g: u32| g < h + 1 implies (r@.contains(g) <==> full_overlap_at(
                g as int * 1000,
                zones@,
            )) by {
                lemma_push_contains(r_old, h, g);
                if g < h {
                } else {
                    if r_old.contains(g) {
                        let k = choose|k: int| 0 <= k < r_old.len() && r_old[k] == g;
                        assert(r_old[k] < h);
                    }
                }
            }
        }
        h = h + 1;
    }
    r
}

} // verus!
