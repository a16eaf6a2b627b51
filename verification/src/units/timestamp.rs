use vstd::prelude::*;
use vstd::std_specs::ops::{AddSpec, SubSpec};
use super::duration::{
    Duration, MICROS_PER_HOUR, MICROS_PER_MILLI, MICROS_PER_MINUTE, MICROS_PER_SECOND,
};

verus! {

/// A point on the media timeline: the span since its origin, so never
/// negative.
#[derive(Clone, Copy, Debug, PartialEq, Eq, Ord, Hash, Structural)]
pub struct Timestamp(pub Duration);

impl Timestamp {
    /// The distance of the point from the origin in microseconds.
    pub open spec fn micros(self) -> nat {
        self.0.micros()
    }

    pub fn from_micros(micros: u64) -> (t: Timestamp)
        ensures
            t.micros() == micros,
    {
        Timestamp(Duration::from_micros(micros))
    }

    pub fn from_millis(millis: u64) -> (t: Timestamp)
        requires
            millis * MICROS_PER_MILLI <= u64::MAX,
        ensures
            t.micros() == millis * MICROS_PER_MILLI,
    {
        Timestamp(Duration::from_millis(millis))
    }

    pub fn from_seconds(seconds: u64) -> (t: Timestamp)
        requires
            seconds * MICROS_PER_SECOND <= u64::MAX,
        ensures
            t.micros() == seconds * MICROS_PER_SECOND,
    {
        Timestamp(Duration::from_seconds(seconds))
    }

    pub fn from_minutes(minutes: u64) -> (t: Timestamp)
        requires
            minutes * MICROS_PER_MINUTE <= u64::MAX,
        ensures
            t.micros() == minutes * MICROS_PER_MINUTE,
    {
        Timestamp(Duration::from_minutes(minutes))
    }

    pub fn from_hours(hours: u64) -> (t: Timestamp)
        requires
            hours * MICROS_PER_HOUR <= u64::MAX,
        ensures
            t.micros() == hours * MICROS_PER_HOUR,
    {
        Timestamp(Duration::from_hours(hours))
    }

    /// The point `value` ticks after the origin, on a clock that ticks `base`
    /// times a second, rounded down to whole microseconds.
    pub fn from_units(value: u64, base: u64) -> (t: Timestamp)
        requires
            base > 0,
            (value * MICROS_PER_SECOND) / (base as int) <= u64::MAX,
        ensures
            t.micros() == (value * MICROS_PER_SECOND) / (base as int),
    {
        Timestamp(Duration::from_units(value, base))
    }

    pub fn as_micros(self) -> (micros: u64)
        ensures
            micros == self.micros(),
    {
        self.0.as_micros()
    }

    /// Whole milliseconds since the origin, rounded down.
    pub fn as_millis(self) -> (millis: u64)
        ensures
            millis == self.micros() / (MICROS_PER_MILLI as nat),
    {
        self.0.as_millis()
    }

    /// Whole seconds since the origin, rounded down.
    pub fn as_seconds(self) -> (seconds: u64)
        ensures
            seconds == self.micros() / (MICROS_PER_SECOND as nat),
    {
        self.0.as_seconds()
    }

    /// Whole minutes since the origin, rounded down.
    pub fn as_minutes(self) -> (minutes: u64)
        ensures
            minutes == self.micros() / (MICROS_PER_MINUTE as nat),
    {
        self.0.as_minutes()
    }

    /// Whole hours since the origin, rounded down.
    pub fn as_hours(self) -> (hours: u64)
        ensures
            hours == self.micros() / (MICROS_PER_HOUR as nat),
    {
        self.0.as_hours()
    }

    /// Ticks since the origin of a clock that ticks `base` times a second,
    /// rounded down to whole ticks.
    pub fn as_units(self, base: u64) -> (units: u64)
        requires
            (self.micros() * base) / (MICROS_PER_SECOND as int) <= u64::MAX,
        ensures
            units == (self.micros() * base) / (MICROS_PER_SECOND as int),
    {
        self.0.as_units(base)
    }

    /// The span from the origin to this point.
    pub fn since_origin(self) -> (d: Duration)
        ensures
            d.micros() == self.micros(),
    {
        self.0
    }

    /// The span from `earlier` to this point; empty where `earlier` is in
    /// fact the later of the two.
    pub fn elapsed_since(self, earlier: Timestamp) -> (d: Duration)
        ensures
            d.micros() == if self.micros() >= earlier.micros() {
                self.micros() - earlier.micros()
            } else {
                0
            },
    {
        self.0.saturating_sub(earlier.0)
    }

    /// Whether this point lies strictly after `other`.
    pub fn is_after(self, other: Timestamp) -> (after: bool)
        ensures
            after == (self.micros() > other.micros()),
    {
        self > other
    }
}

impl Default for Timestamp {
    /// The origin of the timeline.
    fn default() -> (t: Timestamp)
        ensures
            t.micros() == 0,
    {
        Timestamp(Duration::from_micros(0))
    }
}

impl core::ops::Deref for Timestamp {
    type Target = Duration;

    /// A point read as the span since the origin.
    fn deref(&self) -> (d: &Duration)
        ensures
            d.micros() == self.micros(),
    {
        &self.0
    }
}

impl core::ops::Add<Duration> for Timestamp {
    type Output = Timestamp;

    /// The point `rhs` after this one.
    fn add(self, rhs: Duration) -> (t: Timestamp) {
        Timestamp(Duration { micros: self.0.micros + rhs.micros })
    }
}

impl vstd::std_specs::ops::AddSpecImpl<Duration> for Timestamp {
    open spec fn obeys_add_spec() -> bool {
        true
    }

    open spec fn add_req(self, rhs: Duration) -> bool {
        self.micros() + rhs.micros() <= u64::MAX
    }

    open spec fn add_spec(self, rhs: Duration) -> Timestamp {
        Timestamp(Duration { micros: (self.micros() + rhs.micros()) as u64 })
    }
}

impl core::ops::Sub<Duration> for Timestamp {
    type Output = Timestamp;

    /// The point `rhs` before this one.
    fn sub(self, rhs: Duration) -> (t: Timestamp) {
        Timestamp(Duration { micros: self.0.micros - rhs.micros })
    }
}

impl vstd::std_specs::ops::SubSpecImpl<Duration> for Timestamp {
    open spec fn obeys_sub_spec() -> bool {
        true
    }

    open spec fn sub_req(self, rhs: Duration) -> bool {
        self.micros() >= rhs.micros()
    }

    open spec fn sub_spec(self, rhs: Duration) -> Timestamp {
        Timestamp(Duration { micros: (self.micros() - rhs.micros()) as u64 })
    }
}

impl core::ops::Sub<Timestamp> for Timestamp {
    type Output = Duration;

    /// The span from `rhs` to this point.
    fn sub(self, rhs: Timestamp) -> (d: Duration) {
        Duration { micros: self.0.micros - rhs.0.micros }
    }
}

impl vstd::std_specs::ops::SubSpecImpl<Timestamp> for Timestamp {
    open spec fn obeys_sub_spec() -> bool {
        true
    }

    open spec fn sub_req(self, rhs: Timestamp) -> bool {
        self.micros() >= rhs.micros()
    }

    open spec fn sub_spec(self, rhs: Timestamp) -> Duration {
        Duration { micros: (self.micros() - rhs.micros()) as u64 }
    }
}

/// Moving a point forward by a span and back by the same span returns to it.
pub proof fn lemma_add_then_sub(t: Timestamp, d: Duration)
    requires
        t.micros() + d.micros() <= u64::MAX,
    ensures
        t.add_spec(d).sub_req(d),
        t.add_spec(d).sub_spec(d) == t,
        t.add_spec(d).sub_spec(t) == d,
{
}

} // verus!
