//! Where the sun stands and how long until it next rises or sets.
use vstd::prelude::*;
use crate::bal::client::Error as ClientError;
use crate::clock::{Duration, TimeOfDay, nanos_per_day};

verus! {

/// Why the sun's state could not be found out.
#[derive(Clone, Copy, Debug, PartialEq, Eq, Structural)]
pub enum Error {
    Client(ClientError),
    UrlParsing,
    ResponseParsing,
    TimeParsing,
    Undefined,
}

/// Whether the sun is above or below the horizon.
#[derive(Clone, Copy, Debug, PartialEq, Eq, Structural)]
pub enum SunPosition {
    Up,
    Down,
}

/// The position of the sun at `current`, given the day's sunrise and
/// sunset (all in nanoseconds since midnight).
///
/// On an ordinary day (sunrise before sunset) the sun is up strictly
/// between sunrise and sunset. When sunset comes before sunrise in the
/// clock day (the night spans the day's middle), the sun is down strictly
/// between sunset and sunrise. At the very instants of sunrise and sunset,
/// and when both fall at the same instant, the sun counts as down on an
/// ordinary day and as up otherwise.
pub open spec fn spec_sun_position(current: int, sunrise: int, sunset: int) -> SunPosition {
    if sunrise < sunset {
        if sunrise < current && current < sunset {
            SunPosition::Up
        } else {
            SunPosition::Down
        }
    } else if sunset < sunrise {
        if sunset < current && current < sunrise {
            SunPosition::Down
        } else {
            SunPosition::Up
        }
    } else {
        SunPosition::Down
    }
}

/// The instant of the next event: sunset while the sun is up, sunrise
/// while it is down.
pub open spec fn spec_next_event(current: int, sunrise: int, sunset: int) -> int {
    match spec_sun_position(current, sunrise, sunset) {
        SunPosition::Up => sunset,
        SunPosition::Down => sunrise,
    }
}

/// Nanoseconds from `current` until the next event, going forward on the
/// clock and wrapping past midnight: always in `[0, one day)`.
pub open spec fn spec_time_to_next_event(current: int, sunrise: int, sunset: int) -> int {
    (spec_next_event(current, sunrise, sunset) - current) % nanos_per_day()
}

/// The current time of day with the day's sunrise and sunset.
#[derive(Clone, Copy, Debug)]
pub struct SunState {
    pub current_time: TimeOfDay,
    pub sunset: TimeOfDay,
    pub sunrise: TimeOfDay,
}

impl SunState {
    /// The position of the sun, as `spec_sun_position` states it.
    pub open spec fn spec_position(self) -> SunPosition {
        spec_sun_position(self.current_time.nanos(), self.sunrise.nanos(), self.sunset.nanos())
    }

    /// The time until the next event, as `spec_time_to_next_event` states it.
    pub open spec fn spec_time_to_next(self) -> int {
        spec_time_to_next_event(self.current_time.nanos(), self.sunrise.nanos(), self.sunset.nanos())
    }

    /// Whether the sun is currently up or down.
    pub fn get_current_sun_pos(&self) -> (r: SunPosition)
        ensures
            r == self.spec_position(),
    {
        let cur = &self.current_time;
        if cur.is_before(&self.sunrise) && cur.is_after(&self.sunset) {
            SunPosition::Down
        } else if cur.is_after(&self.sunrise) && cur.is_before(&self.sunset) {
            SunPosition::Up
        } else {
            if self.sunset.is_before(&self.sunrise) {
                SunPosition::Up
            } else {
                SunPosition::Down
            }
        }
    }

    /// The time from now until the sun next sets (if it is up) or rises
    /// (if it is down), wrapping past midnight.
    pub fn get_time_to_next_event(&self) -> (r: Duration)
        ensures
            r.nanos == self.spec_time_to_next(),
            0 <= r.nanos < nanos_per_day(),
    {
        let diff = match self.get_current_sun_pos() {
            SunPosition::Up => self.sunset.since(&self.current_time),
            SunPosition::Down => self.sunrise.since(&self.current_time),
        };
        if diff.is_negative() {
            let r = Duration::days(1).add(diff);
            assert(r.nanos == (diff.nanos as int) % nanos_per_day()) by {
                vstd::arithmetic::div_mod::lemma_mod_add_multiples_vanish(diff.nanos as int, nanos_per_day());
                vstd::arithmetic::div_mod::lemma_small_mod((diff.nanos + nanos_per_day()) as nat, nanos_per_day() as nat);
            }
            r
        } else {
            assert(diff.nanos == (diff.nanos as int) % nanos_per_day()) by {
                vstd::arithmetic::div_mod::lemma_small_mod(diff.nanos as nat, nanos_per_day() as nat);
            }
            diff
        }
    }
}

} // verus!

verus! {

/// The time to the next event lands on it: it is less than a day, and
/// going that far forward from the current time (around the clock) reaches
/// sunset while the sun is up and sunrise while it is down.
pub proof fn law_time_to_next_event_reaches_event(state: SunState)
    requires
        state.current_time.is_valid(),
        state.sunrise.is_valid(),
        state.sunset.is_valid(),
    ensures
        0 <= state.spec_time_to_next() < nanos_per_day(),
        (state.current_time.nanos() + state.spec_time_to_next()) % nanos_per_day() == match state.spec_position() {
            SunPosition::Up => state.sunset.nanos(),
            SunPosition::Down => state.sunrise.nanos(),
        },
{
    state.current_time.lemma_nanos_in_day();
    state.sunrise.lemma_nanos_in_day();
    state.sunset.lemma_nanos_in_day();
    let cur = state.current_time.nanos();
    let target = spec_next_event(cur, state.sunrise.nanos(), state.sunset.nanos());
    let d = nanos_per_day();
    vstd::arithmetic::div_mod::lemma_small_mod(target as nat, d as nat);
    if target >= cur {
        vstd::arithmetic::div_mod::lemma_small_mod((target - cur) as nat, d as nat);
    } else {
        vstd::arithmetic::div_mod::lemma_mod_add_multiples_vanish(target - cur, d);
        vstd::arithmetic::div_mod::lemma_small_mod((target - cur + d) as nat, d as nat);
        vstd::arithmetic::div_mod::lemma_mod_add_multiples_vanish(target, d);
    }
}

/// On an ordinary day (sunrise before sunset) the sun is up exactly
/// strictly between sunrise and sunset; when sunset comes first on the
/// clock, it is down exactly strictly between sunset and sunrise.
pub proof fn law_sun_up_between_sunrise_and_sunset(state: SunState)
    ensures
        state.sunrise.nanos() < state.sunset.nanos() ==> (state.spec_position() == SunPosition::Up
            <==> state.sunrise.nanos() < state.current_time.nanos() < state.sunset.nanos()),
        state.sunset.nanos() < state.sunrise.nanos() ==> (state.spec_position() == SunPosition::Down
            <==> state.sunset.nanos() < state.current_time.nanos() < state.sunrise.nanos()),
{
}

} // verus!
