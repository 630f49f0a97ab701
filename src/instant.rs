use chrono::{Datelike, Timelike};
use vstd::prelude::*;

verus! {

/// Last millisecond of the year 9999, an instant well inside what the calendar backend holds.
pub const MAX_CALENDAR_MS: i64 = 253402300799999;

pub open spec fn is_leap(y: int) -> bool {
    (y % 4 == 0 && y % 100 != 0) || y % 400 == 0
}

pub open spec fn days_in_month(y: int, m: int) -> int {
    if m == 2 {
        if is_leap(y) { 29 } else { 28 }
    } else if m == 4 || m == 6 || m == 9 || m == 11 {
        30
    } else {
        31
    }
}

/// Days from 1970-01-01 to the given proleptic Gregorian date.
pub open spec fn days_from_civil(y: int, m: int, d: int) -> int {
    let yy = if m <= 2 { y - 1 } else { y };
    let era = yy / 400;
    let yoe = yy - era * 400;
    let mp = if m > 2 { m - 3 } else { m + 9 };
    let doy = (153 * mp + 2) / 5 + d - 1;
    let doe = yoe * 365 + yoe / 4 - yoe / 100 + doy;
    era * 146097 + doe - 719468
}

/// UTC calendar date and time of day, to the millisecond.
#[derive(Clone, Copy, Debug, PartialEq, Eq, Structural)]
pub struct CivilTime {
    pub year: i32,
    pub month: u32,
    pub day: u32,
    pub hour: u32,
    pub minute: u32,
    pub second: u32,
    pub millisecond: u32,
}

impl CivilTime {
    pub open spec fn valid(&self) -> bool {
        1 <= self.month <= 12 && 1 <= self.day <= days_in_month(self.year as int, self.month as int)
            && self.hour < 24 && self.minute < 60 && self.second < 60 && self.millisecond < 1000
    }

    /// Milliseconds since the Unix epoch of this date and time.
    pub open spec fn epoch_ms(&self) -> int {
        days_from_civil(self.year as int, self.month as int, self.day as int) * 86_400_000
            + self.hour * 3_600_000 + self.minute * 60_000 + self.second * 1000
            + self.millisecond
    }
}

/// Relies on chrono's `DateTime::<Utc>::from_timestamp_millis` and the `Datelike` /
/// `Timelike` accessors: the UTC calendar reading of an epoch-millisecond count,
/// present for every count up to the end of the year 9999.
#[verifier::external_body]
fn civil_from_epoch_ms(ms: i64) -> (r: Option<CivilTime>)
    ensures
        r matches Some(c) ==> c.valid() && c.epoch_ms() == ms,
        0 <= ms <= MAX_CALENDAR_MS ==> r is Some,
{
    match chrono::DateTime::<chrono::Utc>::from_timestamp_millis(ms) {
        Some(t) => Some(CivilTime {
            year: t.year(),
            month: t.month(),
            day: t.day(),
            hour: t.hour(),
            minute: t.minute(),
            second: t.second(),
            millisecond: t.timestamp_subsec_millis(),
        }),
        None => None,
    }
}

/// Relies on chrono's `Utc::now` and `DateTime::timestamp_millis`: the local clock
/// reading, of which nothing is known in advance.
#[verifier::external_body]
fn clock_epoch_ms() -> (r: i64) {
    chrono::Utc::now().timestamp_millis()
}

/// A UTC instant at millisecond resolution, held as milliseconds since the Unix epoch.
#[derive(Clone, Copy, Debug, PartialEq, Eq, Structural)]
pub struct UtcInstant {
    pub epoch_ms: i64,
}

impl UtcInstant {
    /// The instant `ms` milliseconds after the Unix epoch; nothing is rounded.
    pub fn from_epoch_ms(ms: i64) -> (r: UtcInstant)
        ensures
            r.epoch_ms == ms,
    {
        UtcInstant { epoch_ms: ms }
    }

    /// The local clock's current reading.
    pub fn now() -> (r: UtcInstant) {
        UtcInstant { epoch_ms: clock_epoch_ms() }
    }

    /// Calendar reading of this instant in UTC; present for every instant from the
    /// epoch up to the end of the year 9999.
    pub fn civil(&self) -> (r: Option<CivilTime>)
        ensures
            r matches Some(c) ==> c.valid() && c.epoch_ms() == self.epoch_ms,
            0 <= self.epoch_ms <= MAX_CALENDAR_MS ==> r is Some,
    {
        civil_from_epoch_ms(self.epoch_ms)
    }
}

} // verus!
