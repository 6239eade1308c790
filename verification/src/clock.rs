//! Times of day and signed spans of time, held as plain integers.
//!
//! A `TimeOfDay` is a clock reading within one day, to the nanosecond; a
//! `Duration` is a signed number of nanoseconds. Times are ordered by the
//! instant they name, and the difference of two times is the span between
//! them.
use vstd::prelude::*;

verus! {

/// Nanoseconds in a second.
pub open spec fn nanos_per_second() -> int {
    1_000_000_000
}

/// Nanoseconds in a minute.
pub open spec fn nanos_per_minute() -> int {
    60 * nanos_per_second()
}

/// Nanoseconds in an hour.
pub open spec fn nanos_per_hour() -> int {
    60 * nanos_per_minute()
}

/// Nanoseconds in a day.
pub open spec fn nanos_per_day() -> int {
    24 * nanos_per_hour()
}

/// Whether the four components name a valid clock reading.
pub open spec fn valid_hms_nano(hour: int, minute: int, second: int, nanosecond: int) -> bool {
    &&& 0 <= hour < 24
    &&& 0 <= minute < 60
    &&& 0 <= second < 60
    &&& 0 <= nanosecond < 1_000_000_000
}

/// Nanoseconds elapsed since midnight at the given clock reading.
pub open spec fn hms_nano_to_nanos(hour: int, minute: int, second: int, nanosecond: int) -> int {
    ((hour * 60 + minute) * 60 + second) * nanos_per_second() + nanosecond
}

/// A clock reading within one day.
#[derive(Clone, Copy, Debug)]
pub struct TimeOfDay {
    hour: u8,
    minute: u8,
    second: u8,
    nanosecond: u32,
}

impl TimeOfDay {
    /// The components are in range. Every value of the type satisfies this.
    #[verifier::type_invariant]
    pub closed spec fn is_valid(self) -> bool {
        valid_hms_nano(self.hour as int, self.minute as int, self.second as int, self.nanosecond as int)
    }

    /// Nanoseconds since midnight.
    pub closed spec fn nanos(self) -> int {
        hms_nano_to_nanos(self.hour as int, self.minute as int, self.second as int, self.nanosecond as int)
    }

    /// The hour component.
    pub closed spec fn spec_hour(self) -> u8 {
        self.hour
    }

    /// The minute component.
    pub closed spec fn spec_minute(self) -> u8 {
        self.minute
    }

    /// The second component.
    pub closed spec fn spec_second(self) -> u8 {
        self.second
    }

    /// The nanosecond component.
    pub closed spec fn spec_nanosecond(self) -> u32 {
        self.nanosecond
    }

    /// A valid time of day lies within the day.
    pub proof fn lemma_nanos_in_day(self)
        requires
            self.is_valid(),
        ensures
            0 <= self.nanos() < nanos_per_day(),
            self.nanos() == hms_nano_to_nanos(
                self.spec_hour() as int,
                self.spec_minute() as int,
                self.spec_second() as int,
                self.spec_nanosecond() as int,
            ),
            valid_hms_nano(
                self.spec_hour() as int,
                self.spec_minute() as int,
                self.spec_second() as int,
                self.spec_nanosecond() as int,
            ),
    {
        let h = self.hour as int;
        let m = self.minute as int;
        let s = self.second as int;
        assert(0 <= (h * 60 + m) * 60 + s <= 86399) by (nonlinear_arith)
            requires
                0 <= h < 24,
                0 <= m < 60,
                0 <= s < 60,
        ;
    }

    /// The reading with the given components, or `None` when they are out of range.
    pub fn from_hms_nano(hour: u8, minute: u8, second: u8, nanosecond: u32) -> (r: Option<TimeOfDay>)
        ensures
            r is Some <==> valid_hms_nano(hour as int, minute as int, second as int, nanosecond as int),
            r is Some ==> r->0.spec_hour() == hour && r->0.spec_minute() == minute
                && r->0.spec_second() == second && r->0.spec_nanosecond() == nanosecond,
            r is Some ==> r->0.is_valid()
                && r->0.nanos() == hms_nano_to_nanos(hour as int, minute as int, second as int, nanosecond as int),
    {
        if hour < 24 && minute < 60 && second < 60 && nanosecond < 1_000_000_000 {
            Some(TimeOfDay { hour, minute, second, nanosecond })
        } else {
            None
        }
    }

    /// The reading with the given hour, minute and second, or `None` when they are out of range.
    pub fn from_hms(hour: u8, minute: u8, second: u8) -> (r: Option<TimeOfDay>)
        ensures
            r is Some <==> valid_hms_nano(hour as int, minute as int, second as int, 0),
            r is Some ==> r->0.spec_hour() == hour && r->0.spec_minute() == minute
                && r->0.spec_second() == second && r->0.spec_nanosecond() == 0,
            r is Some ==> r->0.is_valid()
                && r->0.nanos() == hms_nano_to_nanos(hour as int, minute as int, second as int, 0),
    {
        Self::from_hms_nano(hour, minute, second, 0)
    }

    /// Midnight, the first instant of the day.
    pub fn midnight() -> (r: TimeOfDay)
        ensures
            r.nanos() == 0,
            r.is_valid(),
            r.spec_hour() == 0 && r.spec_minute() == 0 && r.spec_second() == 0
                && r.spec_nanosecond() == 0,
    {
        TimeOfDay { hour: 0, minute: 0, second: 0, nanosecond: 0 }
    }

    /// The hour, minute, second and nanosecond of the reading.
    pub fn as_hms_nano(&self) -> (r: (u8, u8, u8, u32))
        ensures
            r == (self.spec_hour(), self.spec_minute(), self.spec_second(), self.spec_nanosecond()),
    {
        (self.hour, self.minute, self.second, self.nanosecond)
    }

    /// Nanoseconds since midnight, as a machine integer.
    pub fn nanos_since_midnight(&self) -> (r: i64)
        ensures
            r == self.nanos(),
            0 <= r < nanos_per_day(),
            self.is_valid(),
    {
        proof {
            use_type_invariant(self);
            self.lemma_nanos_in_day();
        }
        let h = self.hour as i64;
        let m = self.minute as i64;
        let s = self.second as i64;
        let secs = (h * 60 + m) * 60 + s;
        assert(secs * 1_000_000_000 + self.nanosecond < 86_400_000_000_000) by (nonlinear_arith)
            requires
                0 <= secs <= 86399,
                self.nanosecond < 1_000_000_000,
        ;
        secs * 1_000_000_000 + self.nanosecond as i64
    }

    /// Whether this reading comes strictly before `other` in the day.
    pub fn is_before(&self, other: &TimeOfDay) -> (r: bool)
        ensures
            r == (self.nanos() < other.nanos()),
    {
        self.nanos_since_midnight() < other.nanos_since_midnight()
    }

    /// Whether this reading comes strictly after `other` in the day.
    pub fn is_after(&self, other: &TimeOfDay) -> (r: bool)
        ensures
            r == (self.nanos() > other.nanos()),
    {
        self.nanos_since_midnight() > other.nanos_since_midnight()
    }

    /// The signed span from `other` to `self` (`self - other`).
    pub fn since(&self, other: &TimeOfDay) -> (r: Duration)
        ensures
            r.nanos == self.nanos() - other.nanos(),
            -nanos_per_day() < r.nanos < nanos_per_day(),
    {
        Duration { nanos: self.nanos_since_midnight() - other.nanos_since_midnight() }
    }
}

/// A signed span of time, in nanoseconds.
#[derive(Clone, Copy, Debug, PartialEq, Eq, Structural)]
pub struct Duration {
    pub nanos: i64,
}

impl Duration {
    /// The span of `n` nanoseconds.
    pub fn nanoseconds(n: i64) -> (r: Duration)
        ensures
            r.nanos == n,
    {
        Duration { nanos: n }
    }

    /// The span of `m` minutes.
    pub fn minutes(m: i64) -> (r: Duration)
        requires
            i64::MIN <= m * nanos_per_minute() <= i64::MAX,
        ensures
            r.nanos == m * nanos_per_minute(),
    {
        Duration { nanos: m * 60_000_000_000 }
    }

    /// The span of `h` hours.
    pub fn hours(h: i64) -> (r: Duration)
        requires
            i64::MIN <= h * nanos_per_hour() <= i64::MAX,
        ensures
            r.nanos == h * nanos_per_hour(),
    {
        Duration { nanos: h * 3_600_000_000_000 }
    }

    /// The span of `d` days.
    pub fn days(d: i64) -> (r: Duration)
        requires
            i64::MIN <= d * nanos_per_day() <= i64::MAX,
        ensures
            r.nanos == d * nanos_per_day(),
    {
        Duration { nanos: d * 86_400_000_000_000 }
    }

    /// The sum of two spans.
    pub fn add(self, rhs: Duration) -> (r: Duration)
        requires
            i64::MIN <= self.nanos + rhs.nanos <= i64::MAX,
        ensures
            r.nanos == self.nanos + rhs.nanos,
    {
        Duration { nanos: self.nanos + rhs.nanos }
    }

    /// Whether the span is negative.
    pub fn is_negative(&self) -> (r: bool)
        ensures
            r == (self.nanos < 0),
    {
        self.nanos < 0
    }

    /// Whether this span is strictly shorter than `other`.
    pub fn is_shorter_than(&self, other: &Duration) -> (r: bool)
        ensures
            r == (self.nanos < other.nanos),
    {
        self.nanos < other.nanos
    }

    /// A non-negative span split into whole seconds and the remaining nanoseconds.
    pub fn as_secs_nanos(&self) -> (r: (u64, u32))
        requires
            self.nanos >= 0,
        ensures
            r.0 * nanos_per_second() + r.1 == self.nanos,
            r.1 < nanos_per_second(),
    {
        let secs = self.nanos / 1_000_000_000;
        let sub = self.nanos % 1_000_000_000;
        (secs as u64, sub as u32)
    }
}

} // verus!
