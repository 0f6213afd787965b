//! Calendar dates and times of day, as plain values valid by construction,
//! with the calls into `chrono` that shift them and read the clock.
use chrono::{Datelike, Local, NaiveDate, NaiveDateTime, NaiveTime, TimeDelta, Timelike, Utc};
use vstd::prelude::*;

verus! {

/// The earliest year that a calendar date may carry.
pub const MIN_YEAR: i32 = -262143;

/// The latest year that a calendar date may carry.
pub const MAX_YEAR: i32 = 262142;

/// The largest number of whole seconds that a signed time span may hold
/// (`i64::MAX` milliseconds, rounded down to seconds).
pub const MAX_SPAN_SECONDS: i64 = 9223372036854775;

/// Gregorian leap years, extended to years before the common era.
pub open spec fn is_leap_year(year: int) -> bool {
    year % 4 == 0 && (year % 100 != 0 || year % 400 == 0)
}

/// The number of days in the given month of the given year.
pub open spec fn days_in_month(year: int, month: int) -> int {
    if month == 2 {
        if is_leap_year(year) {
            29
        } else {
            28
        }
    } else if month == 4 || month == 6 || month == 9 || month == 11 {
        30
    } else {
        31
    }
}

/// A day of the proleptic Gregorian calendar within the supported years.
pub open spec fn is_valid_ymd(year: int, month: int, day: int) -> bool {
    &&& MIN_YEAR <= year <= MAX_YEAR
    &&& 1 <= month <= 12
    &&& 1 <= day <= days_in_month(year, month)
}

/// A time of day; a nanosecond count of a billion or more stands for a
/// leap second and is only allowed in the last second of a minute.
pub open spec fn is_valid_hms_nano(hour: int, minute: int, second: int, nano: int) -> bool {
    &&& 0 <= hour < 24
    &&& 0 <= minute < 60
    &&& 0 <= second < 60
    &&& 0 <= nano < 2_000_000_000
    &&& (nano >= 1_000_000_000 ==> second == 59)
}

/// Days from 1970-01-01 to the given day of the proleptic Gregorian
/// calendar (negative before it).
#[verifier::opaque]
pub open spec fn days_from_civil(year: int, month: int, day: int) -> int {
    let y = if month <= 2 { year - 1 } else { year };
    let era = y / 400;
    let yoe = y - era * 400;
    let mp = if month > 2 { month - 3 } else { month + 9 };
    let doy = (153 * mp + 2) / 5 + day - 1;
    let doe = yoe * 365 + yoe / 4 - yoe / 100 + doy;
    era * 146097 + doe - 719468
}

/// The number of `date` counted in days from 1970-01-01.
pub open spec fn day_number(date: CalendarDate) -> int {
    days_from_civil(date.spec_year() as int, date.spec_month() as int, date.spec_day() as int)
}

/// The day number of the first supported date, 1 January of `MIN_YEAR`.
pub open spec fn first_day_number() -> int {
    days_from_civil(MIN_YEAR as int, 1, 1)
}

/// The day number of the last supported date, 31 December of `MAX_YEAR`.
pub open spec fn last_day_number() -> int {
    days_from_civil(MAX_YEAR as int, 12, 31)
}

/// Seconds since midnight of a time of day (a leap second counts as the
/// second before it).
pub open spec fn second_of_day(t: TimeOfDay) -> int {
    t.spec_hour() * 3600 + t.spec_minute() * 60 + t.spec_second()
}

/// Whole seconds from 1970-01-01 00:00:00 to `dt`.
pub open spec fn total_seconds(dt: DateTime) -> int {
    day_number(dt.date) * 86400 + second_of_day(dt.time)
}

/// A count of whole seconds from 1970-01-01 falls on a supported date.
pub open spec fn in_supported_seconds(n: int) -> bool {
    first_day_number() * 86400 <= n < (last_day_number() + 1) * 86400
}

/// The time falls inside a leap second.
pub open spec fn in_leap_second(dt: DateTime) -> bool {
    dt.time.spec_nanosecond() >= 1_000_000_000
}

/// The whole seconds from 1970-01-01 00:00:00 that a move of `dt` by
/// `seconds` seconds lands on: a leap second is left from its end when
/// moving forward and from the second after it when moving back.
pub open spec fn moved_total_seconds(dt: DateTime, seconds: int) -> int {
    if in_leap_second(dt) && seconds < 0 {
        total_seconds(dt) + 1 + seconds
    } else {
        total_seconds(dt) + seconds
    }
}

/// The nanoseconds after a move of `dt` by a nonzero number of whole
/// seconds: those of `dt`, out of the leap second.
pub open spec fn moved_nanosecond(dt: DateTime) -> int {
    if in_leap_second(dt) {
        dt.time.spec_nanosecond() - 1_000_000_000
    } else {
        dt.time.spec_nanosecond() as int
    }
}

/// `new` is `old` moved by `seconds` seconds when that stays on supported
/// dates, and is `old` itself otherwise.
pub open spec fn moved_by_seconds(old: DateTime, new: DateTime, seconds: int) -> bool {
    if seconds == 0 {
        new == old
    } else if in_supported_seconds(moved_total_seconds(old, seconds)) {
        &&& total_seconds(new) == moved_total_seconds(old, seconds)
        &&& new.time.spec_nanosecond() == moved_nanosecond(old)
    } else {
        new == old
    }
}

/// A calendar date. Every value names a day that exists.
#[derive(Clone, Copy, Debug, PartialEq, Eq, Structural)]
pub struct CalendarDate {
    pub(crate) year: i32,
    pub(crate) month: u32,
    pub(crate) day: u32,
}

/// A time of day with nanosecond precision.
#[derive(Clone, Copy, Debug, PartialEq, Eq, Structural)]
pub struct TimeOfDay {
    pub(crate) hour: u32,
    pub(crate) minute: u32,
    pub(crate) second: u32,
    pub(crate) nano: u32,
}

/// A date and a time of day, without a time zone.
#[derive(Clone, Copy, Debug, PartialEq, Eq, Structural)]
pub struct DateTime {
    pub date: CalendarDate,
    pub time: TimeOfDay,
}

impl CalendarDate {
    #[verifier::type_invariant]
    pub open(crate) spec fn is_valid(self) -> bool {
        is_valid_ymd(self.year as int, self.month as int, self.day as int)
    }

    /// The date with the given fields.
    pub open(crate) spec fn spec_new(year: i32, month: u32, day: u32) -> CalendarDate {
        CalendarDate { year, month, day }
    }

    pub open(crate) spec fn spec_year(self) -> i32 {
        self.year
    }

    pub open(crate) spec fn spec_month(self) -> u32 {
        self.month
    }

    pub open(crate) spec fn spec_day(self) -> u32 {
        self.day
    }

    /// The date with the given year, month and day, if that day exists:
    /// the days that `chrono::NaiveDate::from_ymd_opt` accepts.
    pub fn from_ymd(year: i32, month: u32, day: u32) -> (r: Option<CalendarDate>)
        ensures
            r == (if is_valid_ymd(year as int, month as int, day as int) {
                Some(CalendarDate::spec_new(year, month, day))
            } else {
                None
            }),
    {
        if year < MIN_YEAR || year > MAX_YEAR || month < 1 || month > 12 || day < 1 {
            return None;
        }
        let shifted = (year as i64 + 400000) as u64;
        proof {
            assert((year + 400000) % 4 == year % 4) by (nonlinear_arith);
            assert((year + 400000) % 100 == year % 100) by (nonlinear_arith);
            assert((year + 400000) % 400 == year % 400) by (nonlinear_arith);
        }
        let leap = shifted % 4 == 0 && (shifted % 100 != 0 || shifted % 400 == 0);
        let days: u32 = if month == 2 {
            if leap {
                29
            } else {
                28
            }
        } else if month == 4 || month == 6 || month == 9 || month == 11 {
            30
        } else {
            31
        };
        if day > days {
            None
        } else {
            Some(CalendarDate { year, month, day })
        }
    }

    pub fn year(&self) -> (r: i32)
        ensures
            r == self.spec_year(),
    {
        self.year
    }

    pub fn month(&self) -> (r: u32)
        ensures
            r == self.spec_month(),
    {
        self.month
    }

    pub fn day(&self) -> (r: u32)
        ensures
            r == self.spec_day(),
    {
        self.day
    }
}

impl TimeOfDay {
    #[verifier::type_invariant]
    pub open(crate) spec fn is_valid(self) -> bool {
        is_valid_hms_nano(self.hour as int, self.minute as int, self.second as int, self.nano as int)
    }

    /// The time of day with the given fields.
    pub open(crate) spec fn spec_new(hour: u32, minute: u32, second: u32, nano: u32) -> TimeOfDay {
        TimeOfDay { hour, minute, second, nano }
    }

    pub open(crate) spec fn spec_hour(self) -> u32 {
        self.hour
    }

    pub open(crate) spec fn spec_minute(self) -> u32 {
        self.minute
    }

    pub open(crate) spec fn spec_second(self) -> u32 {
        self.second
    }

    pub open(crate) spec fn spec_nanosecond(self) -> u32 {
        self.nano
    }

    /// The time of day with the given fields, if they form one: the times
    /// that `chrono::NaiveTime::from_hms_nano_opt` accepts.
    pub fn from_hms_nano(hour: u32, minute: u32, second: u32, nano: u32) -> (r: Option<TimeOfDay>)
        ensures
            r == (if is_valid_hms_nano(hour as int, minute as int, second as int, nano as int) {
                Some(TimeOfDay::spec_new(hour, minute, second, nano))
            } else {
                None
            }),
    {
        if hour >= 24 || minute >= 60 || second >= 60 || (nano >= 1_000_000_000 && second != 59)
            || nano >= 2_000_000_000 {
            None
        } else {
            Some(TimeOfDay { hour, minute, second, nano })
        }
    }

    pub fn hour(&self) -> (r: u32)
        ensures
            r == self.spec_hour(),
    {
        self.hour
    }

    pub fn minute(&self) -> (r: u32)
        ensures
            r == self.spec_minute(),
    {
        self.minute
    }

    pub fn second(&self) -> (r: u32)
        ensures
            r == self.spec_second(),
    {
        self.second
    }

    pub fn nanosecond(&self) -> (r: u32)
        ensures
            r == self.spec_nanosecond(),
    {
        self.nano
    }
}

impl DateTime {
    pub fn new(date: CalendarDate, time: TimeOfDay) -> (r: DateTime)
        ensures
            r == (DateTime { date, time }),
    {
        DateTime { date, time }
    }
}

/// What `chrono::NaiveDateTime::checked_add_signed` returns for the date and
/// time `dt` and a span of `seconds` whole seconds.
pub uninterp spec fn naive_checked_add_signed(dt: DateTime, seconds: i64) -> Option<DateTime>;

/// `chrono::NaiveDateTime::checked_add_signed` with a span of
/// `TimeDelta::seconds(seconds)`. The time of day moves by whole seconds,
/// carrying whole days into the date, and the result is `None` exactly when
/// the date leaves the supported range. The nanoseconds stay; a leap second
/// is first left (`NaiveTime::overflowing_add_signed`), forward from its
/// end or back from the second after it, unless the span is zero, which
/// gives the date and time back.
/// `TimeDelta::seconds` panics beyond `MAX_SPAN_SECONDS`, hence the
/// precondition; the date and time handed over are valid by their
/// invariants.
#[verifier::external_body]
pub(crate) fn chrono_checked_add_seconds(dt: DateTime, seconds: i64) -> (r: Option<DateTime>)
    requires
        -MAX_SPAN_SECONDS <= seconds <= MAX_SPAN_SECONDS,
    ensures
        r == naive_checked_add_signed(dt, seconds),
        seconds == 0 ==> r == Some(dt),
        seconds != 0 ==> (r is Some <==> in_supported_seconds(moved_total_seconds(dt, seconds as int))),
        seconds != 0 && r is Some ==> total_seconds(r.unwrap()) == moved_total_seconds(dt, seconds as int)
            && r.unwrap().time.spec_nanosecond() == moved_nanosecond(dt),
{
    let d = NaiveDate::from_ymd_opt(dt.date.year, dt.date.month, dt.date.day).unwrap();
    let t = NaiveTime::from_hms_nano_opt(dt.time.hour, dt.time.minute, dt.time.second, dt.time.nano).unwrap();
    match NaiveDateTime::new(d, t).checked_add_signed(TimeDelta::seconds(seconds)) {
        Some(n) => Some(DateTime {
            date: CalendarDate { year: n.year(), month: n.month(), day: n.day() },
            time: TimeOfDay { hour: n.hour(), minute: n.minute(), second: n.second(), nano: n.nanosecond() },
        }),
        None => None,
    }
}

/// `chrono::Local::now().naive_local()`: the local wall-clock date and time.
/// Nothing is stated of the value beyond its being a valid date and time,
/// which its type carries: it depends on the clock and the time zone.
#[verifier::external_body]
pub(crate) fn clock_local_now() -> DateTime {
    let n = Local::now().naive_local();
    DateTime {
        date: CalendarDate { year: n.year(), month: n.month(), day: n.day() },
        time: TimeOfDay { hour: n.hour(), minute: n.minute(), second: n.second(), nano: n.nanosecond() },
    }
}

/// `chrono::Utc::now().naive_utc()`: the current date and time in UTC.
/// Nothing is stated of the value beyond its being a valid date and time,
/// which its type carries: it depends on the clock.
#[verifier::external_body]
pub(crate) fn clock_utc_now() -> DateTime {
    let n = Utc::now().naive_utc();
    DateTime {
        date: CalendarDate { year: n.year(), month: n.month(), day: n.day() },
        time: TimeOfDay { hour: n.hour(), minute: n.minute(), second: n.second(), nano: n.nanosecond() },
    }
}

} // verus!
