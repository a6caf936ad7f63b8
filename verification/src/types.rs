//! Shared primitive types: the fixed three-city zone catalog, meetings, the
//! selected time slot, and the fixed three-ring assignment.

use vstd::prelude::*;

verus! {

/// The fixed catalog of the three founding cities, kept as a compact way to
/// drive the engine with well-known offsets. The general registry in
/// `zones` supersedes it for arbitrary zone lists.
#[derive(Debug, Clone, Copy, PartialEq, Eq, Structural, Hash)]
pub enum Timezone {
    Dallas,
    Connecticut,
    London,
}

impl Timezone {
    /// Whole-hour UTC offset of the city.
    pub open spec fn spec_offset(&self) -> i32 {
        match self {
            Timezone::Dallas => -6i32,
            Timezone::Connecticut => -5i32,
            Timezone::London => 0i32,
        }
    }

    #[verifier::when_used_as_spec(spec_offset)]
    pub fn offset(&self) -> (r: i32)
        ensures
            r == self.spec_offset(),
    {
        match self {
            Timezone::Dallas => -6,
            Timezone::Connecticut => -5,
            Timezone::London => 0,
        }
    }

    pub open spec fn spec_name(&self) -> Seq<char> {
        match self {
            Timezone::Dallas => "Dallas"@,
            Timezone::Connecticut => "Connecticut"@,
            Timezone::London => "London"@,
        }
    }

    pub fn name(&self) -> (r: &'static str)
        ensures
            r@ == self.spec_name(),
    {
        match self {
            Timezone::Dallas => "Dallas",
            Timezone::Connecticut => "Connecticut",
            Timezone::London => "London",
        }
    }

    pub open spec fn spec_short_name(&self) -> Seq<char> {
        match self {
            Timezone::Dallas => "DAL"@,
            Timezone::Connecticut => "CT"@,
            Timezone::London => "LON"@,
        }
    }

    pub fn short_name(&self) -> (r: &'static str)
        ensures
            r@ == self.spec_short_name(),
    {
        match self {
            Timezone::Dallas => "DAL",
            Timezone::Connecticut => "CT",
            Timezone::London => "LON",
        }
    }
}

/// A meeting pinned to a whole UTC hour; only `utc_hour` matters to the
/// engine, the rest is carried for the host.
#[derive(Debug, Clone, PartialEq)]
pub struct Meeting {
    pub id: u32,
    pub utc_hour: u32,
    pub title: String,
    pub essential: bool,
}

/// The slot a user clicked: a whole UTC hour together with the local hour it
/// means in each active zone, in ring order, in milli-hours.
#[derive(Debug, Clone, PartialEq)]
pub struct SelectedSlot {
    pub utc_hour: u32,
    pub local_hours: Vec<i64>,
}

/// Fixed three-ring assignment of the catalog cities.
#[derive(Debug, Clone, Copy, PartialEq, Eq, Structural)]
pub struct RingAssignments {
    pub outer: Timezone,
    pub middle: Timezone,
    pub inner: Timezone,
}

impl Default for RingAssignments {
    fn default() -> (r: Self)
        ensures
            r == (RingAssignments {
                outer: Timezone::Dallas,
                middle: Timezone::Connecticut,
                inner: Timezone::London,
            }),
    {
        RingAssignments {
            outer: Timezone::Dallas,
            middle: Timezone::Connecticut,
            inner: Timezone::London,
        }
    }
}

/// Which of the three fixed rings is meant.
#[derive(Debug, Clone, Copy, PartialEq, Eq, Structural)]
pub enum Ring {
    Outer,
    Middle,
    Inner,
}

} // verus!
