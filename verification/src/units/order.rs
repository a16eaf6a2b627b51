//! The order of spans and of points in time: by their count of
//! microseconds.
use core::cmp::Ordering;
use vstd::prelude::*;
use vstd::std_specs::cmp::PartialOrdSpecImpl;
use super::duration::Duration;
use super::timestamp::Timestamp;

verus! {

/// How two counts compare.
pub open spec fn compared(a: nat, b: nat) -> Ordering {
    if a < b {
        Ordering::Less
    } else if a > b {
        Ordering::Greater
    } else {
        Ordering::Equal
    }
}

impl PartialOrd for Duration {
    fn partial_cmp(&self, other: &Duration) -> (r: Option<Ordering>) {
        if self.micros < other.micros {
            Some(Ordering::Less)
        } else if self.micros > other.micros {
            Some(Ordering::Greater)
        } else {
            Some(Ordering::Equal)
        }
    }
}

impl PartialOrdSpecImpl for Duration {
    open spec fn obeys_partial_cmp_spec() -> bool {
        true
    }

    open spec fn partial_cmp_spec(&self, other: &Duration) -> Option<Ordering> {
        Some(compared(self.micros(), other.micros()))
    }
}

impl PartialOrd for Timestamp {
    fn partial_cmp(&self, other: &Timestamp) -> (r: Option<Ordering>) {
        if self.0.micros < other.0.micros {
            Some(Ordering::Less)
        } else if self.0.micros > other.0.micros {
            Some(Ordering::Greater)
        } else {
            Some(Ordering::Equal)
        }
    }
}

impl PartialOrdSpecImpl for Timestamp {
    open spec fn obeys_partial_cmp_spec() -> bool {
        true
    }

    open spec fn partial_cmp_spec(&self, other: &Timestamp) -> Option<Ordering> {
        Some(compared(self.micros(), other.micros()))
    }
}

/// How two points in time compare, as `<`, `<=`, `>` and `>=` see it.
pub open spec fn order(a: Timestamp, b: Timestamp) -> Option<Ordering> {
    vstd::std_specs::cmp::PartialOrdSpec::partial_cmp_spec(&a, &b)
}

/// Points in time are totally ordered, by their distance from the origin:
/// any two compare, two that compare as equal are the same point, one is
/// before the other exactly when the other is after it, and what is before
/// an earlier point is before a later one.
pub proof fn lemma_timestamps_totally_ordered(a: Timestamp, b: Timestamp, c: Timestamp)
    ensures
        order(a, b) == Some(compared(a.micros(), b.micros())),
        order(a, b) == Some(Ordering::Equal) <==> a == b,
        order(a, b) == Some(Ordering::Less) <==> order(b, a) == Some(Ordering::Greater),
        order(a, b) == Some(Ordering::Less) && order(b, c) == Some(Ordering::Less) ==> order(a, c)
            == Some(Ordering::Less),
{
}

} // verus!
