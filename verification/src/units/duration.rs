use vstd::prelude::*;

verus! {

/// The number of microseconds in one millisecond.
pub const MICROS_PER_MILLI: u64 = 1_000;

/// The number of microseconds in one second.
pub const MICROS_PER_SECOND: u64 = 1_000_000;

/// The number of microseconds in one minute.
pub const MICROS_PER_MINUTE: u64 = 60_000_000;

/// The number of microseconds in one hour.
pub const MICROS_PER_HOUR: u64 = 3_600_000_000;

/// A span of time, counted in whole microseconds.
#[derive(Clone, Copy, Debug, PartialEq, Eq, Ord, Hash, Structural)]
pub struct Duration {
    /// The length of the span in microseconds.
    pub micros: u64,
}

impl Duration {
    /// The length of the span in microseconds, as a number.
    pub open spec fn micros(self) -> nat {
        self.micros as nat
    }

    pub fn from_micros(micros: u64) -> (d: Duration)
        ensures
            d.micros() == micros,
    {
        Duration { micros }
    }

    pub fn from_millis(millis: u64) -> (d: Duration)
        requires
            millis * MICROS_PER_MILLI <= u64::MAX,
        ensures
            d.micros() == millis * MICROS_PER_MILLI,
    {
        Duration { micros: millis * MICROS_PER_MILLI }
    }

    pub fn from_seconds(seconds: u64) -> (d: Duration)
        requires
            seconds * MICROS_PER_SECOND <= u64::MAX,
        ensures
            d.micros() == seconds * MICROS_PER_SECOND,
    {
        Duration { micros: seconds * MICROS_PER_SECOND }
    }

    pub fn from_minutes(minutes: u64) -> (d: Duration)
        requires
            minutes * MICROS_PER_MINUTE <= u64::MAX,
        ensures
            d.micros() == minutes * MICROS_PER_MINUTE,
    {
        Duration { micros: minutes * MICROS_PER_MINUTE }
    }

    pub fn from_hours(hours: u64) -> (d: Duration)
        requires
            hours * MICROS_PER_HOUR <= u64::MAX,
        ensures
            d.micros() == hours * MICROS_PER_HOUR,
    {
        Duration { micros: hours * MICROS_PER_HOUR }
    }

    /// The span of `value` ticks of a clock that ticks `base` times a second,
    /// rounded down to whole microseconds.
    pub fn from_units(value: u64, base: u64) -> (d: Duration)
        requires
            base > 0,
            (value * MICROS_PER_SECOND) / (base as int) <= u64::MAX,
        ensures
            d.micros() == (value * MICROS_PER_SECOND) / (base as int),
    {
        let scaled: u128 = (value as u128) * (MICROS_PER_SECOND as u128);
        let micros: u128 = scaled / (base as u128);
        Duration { micros: micros as u64 }
    }

    pub fn as_micros(self) -> (micros: u64)
        ensures
            micros == self.micros(),
    {
        self.micros
    }

    /// Whole milliseconds, rounded down.
    pub fn as_millis(self) -> (millis: u64)
        ensures
            millis == self.micros() / (MICROS_PER_MILLI as nat),
    {
        self.micros / MICROS_PER_MILLI
    }

    /// Whole seconds, rounded down.
    pub fn as_seconds(self) -> (seconds: u64)
        ensures
            seconds == self.micros() / (MICROS_PER_SECOND as nat),
    {
        self.micros / MICROS_PER_SECOND
    }

    /// Whole minutes, rounded down.
    pub fn as_minutes(self) -> (minutes: u64)
        ensures
            minutes == self.micros() / (MICROS_PER_MINUTE as nat),
    {
        self.micros / MICROS_PER_MINUTE
    }

    /// Whole hours, rounded down.
    pub fn as_hours(self) -> (hours: u64)
        ensures
            hours == self.micros() / (MICROS_PER_HOUR as nat),
    {
        self.micros / MICROS_PER_HOUR
    }

    /// The span in ticks of a clock that ticks `base` times a second, rounded
    /// down to whole ticks.
    pub fn as_units(self, base: u64) -> (units: u64)
        requires
            (self.micros() * base) / (MICROS_PER_SECOND as int) <= u64::MAX,
        ensures
            units == (self.micros() * base) / (MICROS_PER_SECOND as int),
    {
        let scaled: u128 = (self.micros as u128) * (base as u128);
        let units: u128 = scaled / (MICROS_PER_SECOND as u128);
        units as u64
    }

    /// Whether the span is empty.
    pub fn is_zero(self) -> (zero: bool)
        ensures
            zero == (self.micros() == 0),
    {
        self.micros == 0
    }

    /// The sum of two spans, or `None` where it does not fit in 64 bits.
    pub fn checked_add(self, rhs: Duration) -> (sum: Option<Duration>)
        ensures
            match sum {
                Some(d) => d.micros() == self.micros() + rhs.micros(),
                None => self.micros() + rhs.micros() > u64::MAX,
            },
    {
        if self.micros <= u64::MAX - rhs.micros {
            Some(Duration { micros: self.micros + rhs.micros })
        } else {
            None
        }
    }

    /// The difference of two spans, or `None` where `rhs` is the longer one.
    pub fn checked_sub(self, rhs: Duration) -> (diff: Option<Duration>)
        ensures
            match diff {
                Some(d) => d.micros() == self.micros() - rhs.micros(),
                None => self.micros() < rhs.micros(),
            },
    {
        if self.micros >= rhs.micros {
            Some(Duration { micros: self.micros - rhs.micros })
        } else {
            None
        }
    }

    /// The difference of two spans, or the empty span where `rhs` is the
    /// longer one.
    pub fn saturating_sub(self, rhs: Duration) -> (diff: Duration)
        ensures
            diff.micros() == if self.micros() >= rhs.micros() {
                self.micros() - rhs.micros()
            } else {
                0
            },
    {
        if self.micros >= rhs.micros {
            Duration { micros: self.micros - rhs.micros }
        } else {
            Duration { micros: 0 }
        }
    }

    /// Whether this span is at least as long as `other`.
    pub fn at_least(self, other: Duration) -> (longer: bool)
        ensures
            longer == (self.micros() >= other.micros()),
    {
        self.micros >= other.micros
    }
}

impl Default for Duration {
    /// The empty span.
    fn default() -> (d: Duration)
        ensures
            d.micros() == 0,
    {
        Duration { micros: 0 }
    }
}

} // verus!
