//! Proleptic Gregorian calendar: the Gregorian rules in both directions.

use crate::calendars::Calendar;
use crate::civil::Ymdhms;
use crate::datetimes::traits::{CalendarDatetime, CalendarDatetimeCreator, DatetimeView, IsLeap};
use crate::errors::Error;
use crate::timezone::Tz;
use crate::utils::{is_leap_gregorian, leap_timestamp, leap_ymd_hms};
use vstd::prelude::*;

verus! {

/// A datetime of the ProlepticGregorian calendar.
pub struct ProlepticGregorianDatetime {
    pub timestamp: i64,
    pub nanoseconds: u32,
    pub tz: Tz,
    pub calendar: Calendar,
}

impl ProlepticGregorianDatetime {
    /// The datetime `timestamp` seconds and `nanoseconds` after the epoch,
    /// at offset `tz`.
    pub fn new(timestamp: i64, nanoseconds: u32, tz: Tz) -> (r: Self)
        ensures
            r.fields() == (DatetimeView { timestamp, nanoseconds, tz, calendar: Calendar::ProlepticGregorian }),
    {
        Self { timestamp, nanoseconds, tz, calendar: Calendar::ProlepticGregorian }
    }
}

impl IsLeap for ProlepticGregorianDatetime {
    open spec fn leap_calendar() -> Calendar {
        Calendar::ProlepticGregorian
    }

    fn is_leap(year: i64) -> (r: bool) {
        is_leap_gregorian(year)
    }
}

impl CalendarDatetime for ProlepticGregorianDatetime {
    open spec fn rules() -> Calendar {
        Calendar::ProlepticGregorian
    }

    open spec fn fields(&self) -> DatetimeView {
        DatetimeView {
            timestamp: self.timestamp,
            nanoseconds: self.nanoseconds,
            tz: self.tz,
            calendar: self.calendar,
        }
    }

    fn ymd_hms(&self) -> (r: Result<Ymdhms, Error>) {
        Ok(leap_ymd_hms::<ProlepticGregorianDatetime>(self.timestamp, false))
    }

    fn timestamp(&self) -> (r: i64) {
        self.timestamp
    }

    fn nanoseconds(&self) -> (r: u32) {
        self.nanoseconds
    }

    fn timezone(&self) -> (r: Tz) {
        self.tz
    }

    fn calendar(&self) -> (r: Calendar) {
        self.calendar
    }
}

impl CalendarDatetimeCreator for ProlepticGregorianDatetime {
    fn from_ymd_hms(
        year: i64,
        month: u8,
        day: u8,
        hour: u8,
        minute: u8,
        second: u8,
        nanosecond: u32,
    ) -> (r: Result<Self, Error>) {
        let timestamp = leap_timestamp::<ProlepticGregorianDatetime>(
            year,
            month,
            day,
            hour,
            minute,
            second,
            nanosecond,
            false,
        )?;
        Ok(Self::new(timestamp, nanosecond, Tz::utc()))
    }

    fn from_timestamp(timestamp: i64, nanoseconds: u32) -> (r: Self) {
        Self::new(timestamp, nanoseconds, Tz::utc())
    }
}

} // verus!
