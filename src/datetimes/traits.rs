//! The capabilities shared by the datetime types of the calendars.

use crate::calendars::Calendar;
use crate::civil::{civil_of, civil_seconds, in_reform_gap, leap_year, valid_time, Ymdhms};
use crate::errors::{Error, ErrorKind};
use crate::timezone::Tz;
use vstd::prelude::*;

verus! {

/// A leap-year rule.
pub trait IsLeap {
    /// The calendar whose leap rule the type follows.
    spec fn leap_calendar() -> Calendar;

    /// Whether `year` is a leap year.
    fn is_leap(year: i64) -> (r: bool)
        ensures
            r == leap_year(Self::leap_calendar(), year as int),
    ;
}

/// What a datetime of any calendar holds: seconds since 1970-01-01T00:00:00,
/// the nanoseconds past that second, an offset from UTC and a calendar.
pub struct DatetimeView {
    pub timestamp: i64,
    pub nanoseconds: u32,
    pub tz: Tz,
    pub calendar: Calendar,
}

/// What building a datetime of `cal` from its fields gives: its timestamp,
/// or the kind of error that stops it.
pub open spec fn creation_outcome(
    cal: Calendar,
    y: int,
    m: int,
    d: int,
    h: int,
    mi: int,
    s: int,
    ns: int,
) -> Result<int, ErrorKind> {
    if !(valid_time(h, mi, s) && 0 <= ns < 1_000_000_000) {
        Err(ErrorKind::InvalidTime)
    } else if !(1 <= m <= 12 && 1 <= d <= 31) || in_reform_gap(cal, y, m, d) {
        Err(ErrorKind::InvalidDate)
    } else if !(i64::MIN <= civil_seconds(cal, y, m, d, h, mi, s) <= i64::MAX) {
        Err(ErrorKind::OutOfBoundsCalendar)
    } else {
        Ok(civil_seconds(cal, y, m, d, h, mi, s))
    }
}

/// A datetime of one calendar.
pub trait CalendarDatetime {
    /// The calendar whose rules the type follows.
    spec fn rules() -> Calendar;

    /// The fields of the datetime.
    spec fn fields(&self) -> DatetimeView;

    /// Date and time of the timestamp under the calendar's rules.
    fn ymd_hms(&self) -> (r: Result<Ymdhms, Error>)
        ensures
            r matches Ok(c) && c == civil_of(Self::rules(), self.fields().timestamp as int),
    ;

    /// Seconds since 1970-01-01T00:00:00.
    fn timestamp(&self) -> (r: i64)
        ensures
            r == self.fields().timestamp,
    ;

    /// Nanoseconds past the second.
    fn nanoseconds(&self) -> (r: u32)
        ensures
            r == self.fields().nanoseconds,
    ;

    /// Offset from UTC.
    fn timezone(&self) -> (r: Tz)
        ensures
            r == self.fields().tz,
    ;

    /// The calendar tag.
    fn calendar(&self) -> (r: Calendar)
        ensures
            r == self.fields().calendar,
    ;
}

/// The constructors of a datetime of one calendar.
pub trait CalendarDatetimeCreator: CalendarDatetime + Sized {
    /// The datetime at a civil date and time, in UTC.
    fn from_ymd_hms(
        year: i64,
        month: u8,
        day: u8,
        hour: u8,
        minute: u8,
        second: u8,
        nanosecond: u32,
    ) -> (r: Result<Self, Error>)
        ensures
            match r {
                Ok(v) => creation_outcome(
                    Self::rules(),
                    year as int,
                    month as int,
                    day as int,
                    hour as int,
                    minute as int,
                    second as int,
                    nanosecond as int,
                ) == Ok::<int, ErrorKind>(v.fields().timestamp as int) && v.fields().nanoseconds
                    == nanosecond && v.fields().tz == (Tz { hour: 0, minute: 0 })
                    && v.fields().calendar == Self::rules(),
                Err(e) => creation_outcome(
                    Self::rules(),
                    year as int,
                    month as int,
                    day as int,
                    hour as int,
                    minute as int,
                    second as int,
                    nanosecond as int,
                ) == Err::<int, ErrorKind>(e.spec_kind()),
            },
    ;

    /// The datetime `timestamp` seconds and `nanoseconds` after the epoch, in UTC.
    fn from_timestamp(timestamp: i64, nanoseconds: u32) -> (r: Self)
        ensures
            r.fields() == (DatetimeView {
                timestamp,
                nanoseconds,
                tz: Tz { hour: 0, minute: 0 },
                calendar: Self::rules(),
            }),
    ;
}

} // verus!
