//! The start time: reading a time of day, carrying its overflow and writing
//! it into the mission document.

use crate::anchor::{field_patched, patch_field};
use crate::config::Preset;
use crate::error::{
    lifted, outcome, Failure, Field, FormatError, FormatFault, RepackError, TimeFault,
};
use crate::text::{int_text, parse_int, parsed_int, render_int, split_at_colons, split_colons, texts};
use vstd::prelude::*;

verus! {

/// A time of day as hours, minutes and seconds, each of any size or sign.
#[derive(Clone, Copy, Debug, PartialEq, Eq, Structural)]
pub struct TimeOfDay {
    pub hours: i32,
    pub minutes: i32,
    pub seconds: i32,
}

/// The quotient of `a` by a positive `b`, rounded toward zero as the
/// division of the machine integers is.
pub open spec fn quotient(a: int, b: int) -> int {
    if a >= 0 {
        a / b
    } else {
        -((-a) / b)
    }
}

/// The remainder that `quotient` leaves: it has the sign of `a`.
pub open spec fn remainder(a: int, b: int) -> int {
    a - quotient(a, b) * b
}

/// The minutes once the seconds' overflow is carried into them.
pub open spec fn carried_minutes(minutes: int, seconds: int) -> int {
    minutes + quotient(seconds, 60)
}

/// The hours once the overflow of minutes and seconds is carried into them.
pub open spec fn carried_hours(hours: int, minutes: int, seconds: int) -> int {
    hours + quotient(carried_minutes(minutes, seconds), 60)
}

/// The hours of the normalized time: what the carried hours leave of a day.
pub open spec fn clock_hours(hours: int, minutes: int, seconds: int) -> int {
    remainder(carried_hours(hours, minutes, seconds), 24)
}

/// The minutes of the normalized time.
pub open spec fn clock_minutes(minutes: int, seconds: int) -> int {
    remainder(carried_minutes(minutes, seconds), 60)
}

/// The seconds of the normalized time.
pub open spec fn clock_seconds(seconds: int) -> int {
    remainder(seconds, 60)
}

/// The normalized time counted in seconds.
pub open spec fn seconds_of_day(hours: int, minutes: int, seconds: int) -> int {
    clock_hours(hours, minutes, seconds) * 3600 + clock_minutes(minutes, seconds) * 60
        + clock_seconds(seconds)
}

/// The component at `index` of a time, as a number: zero where the time has
/// no such component, nothing where the component is no integer.
pub open spec fn component(parts: Seq<Seq<char>>, index: int) -> Option<int> {
    if index < parts.len() {
        parsed_int(parts[index])
    } else {
        Some(0)
    }
}

/// What a time of day reads as: hours, minutes and seconds, or the first
/// fault met.
pub open spec fn read_time(time: Seq<char>) -> Result<(int, int, int), TimeFault> {
    let parts = split_colons(time);
    if parts.len() > 3 {
        Err(TimeFault::Components)
    } else if component(parts, 0) is None {
        Err(TimeFault::Hours)
    } else if component(parts, 1) is None {
        Err(TimeFault::Minutes)
    } else if component(parts, 2) is None {
        Err(TimeFault::Seconds)
    } else {
        Ok((component(parts, 0).unwrap(), component(parts, 1).unwrap(), component(parts, 2).unwrap()))
    }
}

/// What reading a time of day gives, as `parse_time` returns it.
pub open spec fn time_read(result: Result<TimeOfDay, FormatError>) -> Result<(int, int, int), TimeFault> {
    match result {
        Ok(t) => Ok((t.hours as int, t.minutes as int, t.seconds as int)),
        Err(e) => Err(e.fault),
    }
}

/// The mission with its start time set to `time`: the fault of a time that
/// cannot be read, else the mission with the normalized time, in seconds,
/// as its start time.
pub open spec fn time_applied(mission: Seq<char>, time: Seq<char>, dry_run: bool) -> Result<
    Seq<char>,
    Failure,
> {
    match read_time(time) {
        Ok((h, m, s)) => lifted(
            field_patched(mission, Field::StartTime, int_text(seconds_of_day(h, m, s)), dry_run),
        ),
        Err(fault) => Err(Failure::Format(FormatFault { fault, time })),
    }
}

/// Reads the component at `index` of a time.
fn read_component(parts: &Vec<String>, index: usize) -> (value: Option<i32>)
    ensures
        match value {
            Some(v) => component(texts(parts@), index as int) == Some(v as int),
            None => component(texts(parts@), index as int) is None,
        },
{
    if index < parts.len() {
        parse_int(parts[index].as_str())
    } else {
        Some(0)
    }
}

/// Reads a time of day written as `H`, `H:M` or `H:M:S`. A component left
/// out is zero.
pub fn parse_time(time: &str) -> (result: Result<TimeOfDay, FormatError>)
    ensures
        time_read(result) == read_time(time@),
        result matches Err(e) ==> e.time@ == time@,
{
    let parts = split_at_colons(time);
    if parts.len() > 3 {
        return Err(FormatError { fault: TimeFault::Components, time: time.to_owned() });
    }
    let hours = match read_component(&parts, 0) {
        Some(v) => v,
        None => {
            return Err(FormatError { fault: TimeFault::Hours, time: time.to_owned() });
        },
    };
    let minutes = match read_component(&parts, 1) {
        Some(v) => v,
        None => {
            return Err(FormatError { fault: TimeFault::Minutes, time: time.to_owned() });
        },
    };
    let seconds = match read_component(&parts, 2) {
        Some(v) => v,
        None => {
            return Err(FormatError { fault: TimeFault::Seconds, time: time.to_owned() });
        },
    };
    Ok(TimeOfDay { hours, minutes, seconds })
}

impl TimeOfDay {
    /// Carries the overflow of the seconds into the minutes and that of the
    /// minutes into the hours, and drops whole days.
    pub fn normalize(&self) -> (clock: TimeOfDay)
        ensures
            clock.hours == clock_hours(self.hours as int, self.minutes as int, self.seconds as int),
            clock.minutes == clock_minutes(self.minutes as int, self.seconds as int),
            clock.seconds == clock_seconds(self.seconds as int),
            -24 < clock.hours < 24,
            -60 < clock.minutes < 60,
            -60 < clock.seconds < 60,
    {
        let minutes: i64 = self.minutes as i64 + self.seconds as i64 / 60;
        let seconds: i64 = self.seconds as i64 % 60;
        let hours: i64 = self.hours as i64 + minutes / 60;
        TimeOfDay {
            hours: (hours % 24) as i32,
            minutes: (minutes % 60) as i32,
            seconds: seconds as i32,
        }
    }

    /// The normalized time counted in seconds.
    pub fn total_seconds(&self) -> (total: i32)
        ensures
            total == seconds_of_day(self.hours as int, self.minutes as int, self.seconds as int),
            -86400 < total < 86400,
            self.hours >= 0 && self.minutes >= 0 && self.seconds >= 0 ==> total >= 0,
    {
        let clock = self.normalize();
        clock.hours * 3600 + clock.minutes * 60 + clock.seconds
    }
}

/// Sets the start time of the mission to the preset's time of day.
pub fn modify_time(
    mission: &str,
    preset: &Preset,
    dry_run: bool,
) -> (result: Result<String, RepackError>)
    ensures
        outcome(result) == time_applied(mission@, preset.time@, dry_run),
{
    let time = match parse_time(preset.time.as_str()) {
        Ok(time) => time,
        Err(e) => {
            return Err(RepackError::Format(e));
        },
    };
    let value = render_int(time.total_seconds() as i64);
    match patch_field(mission, Field::StartTime, value.as_str(), dry_run) {
        Ok(out) => Ok(out),
        Err(e) => Err(RepackError::Patch(e)),
    }
}

} // verus!
