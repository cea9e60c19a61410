//! 360 Day calendar: twelve months of 30 days in every year.

use crate::calendars::Calendar;
use crate::civil::{civil_day, lemma_civil_of_unique, valid_ymdhms, Ymdhms};
use crate::datetimes::traits::{CalendarDatetime, CalendarDatetimeCreator, DatetimeView};
use crate::errors::{message_with_value, Error};
use crate::timezone::Tz;
use crate::utils::{get_hms_from_timestamp, get_timestamp_from_hms, out_of_bounds, SECS_PER_DAY};
use vstd::prelude::*;

verus! {

/// A datetime of the 360 Day calendar.
pub struct Day360Datetime {
    pub timestamp: i64,
    pub nanoseconds: u32,
    pub tz: Tz,
    pub calendar: Calendar,
}

impl Day360Datetime {
    /// The datetime `timestamp` seconds and `nanoseconds` after the epoch,
    /// at offset `tz`.
    pub fn new(timestamp: i64, nanoseconds: u32, tz: Tz) -> (r: Self)
        ensures
            r.fields() == (DatetimeView { timestamp, nanoseconds, tz, calendar: Calendar::Day360 }),
    {
        Self { timestamp, nanoseconds, tz, calendar: Calendar::Day360 }
    }
}

impl CalendarDatetime for Day360Datetime {
    open spec fn rules() -> Calendar {
        Calendar::Day360
    }

    open spec fn fields(&self) -> DatetimeView {
        DatetimeView {
            timestamp: self.timestamp,
            nanoseconds: self.nanoseconds,
            tz: self.tz,
            calendar: self.calendar,
        }
    }

    fn ymd_hms(&self) -> (r: Result<Ymdhms, Error>) {
        let days: i64 = match self.timestamp.checked_div_euclid(SECS_PER_DAY) {
            Some(d) => d,
            None => 0,
        };
        let years: i64 = match days.checked_div_euclid(360) {
            Some(y) => y,
            None => 0,
        };
        let day_of_year: i64 = match days.checked_rem_euclid(360) {
            Some(d) => d,
            None => 0,
        };
        let year = 1970 + years;
        let month = (day_of_year / 30 + 1) as u8;
        let day = (day_of_year % 30 + 1) as u8;
        let (hour, minute, second) = get_hms_from_timestamp(self.timestamp);
        let c = (year, month, day, hour, minute, second);
        proof {
            assert(civil_day(Calendar::Day360, year as int, month as int, day as int) == days);
            assert(valid_ymdhms(Calendar::Day360, c));
            lemma_civil_of_unique(Calendar::Day360, c, self.timestamp as int);
        }
        Ok(c)
    }

    fn timestamp(&self) -> (r: i64) {
        self.timestamp
    }

    fn nanoseconds(&self) -> (r: u32) {
        self.nanoseconds
    }

    fn timezone(&self) -> (r: Tz) {
        self.tz
    }

    fn calendar(&self) -> (r: Calendar) {
        self.calendar
    }
}

impl CalendarDatetimeCreator for Day360Datetime {
    fn from_ymd_hms(
        year: i64,
        month: u8,
        day: u8,
        hour: u8,
        minute: u8,
        second: u8,
        nanosecond: u32,
    ) -> (r: Result<Self, Error>) {
        let (tod, _) = get_timestamp_from_hms(hour, minute, second, nanosecond)?;
        if month < 1 || month > 12 {
            return Err(Error::InvalidDate(message_with_value("month is out of bounds", month as i128)));
        }
        if day < 1 || day > 31 {
            return Err(Error::InvalidDate(message_with_value("day is out of bounds", day as i128)));
        }
        let days: i128 = 360 * (year as i128 - 1970) + 30 * (month as i128 - 1) + day as i128 - 1;
        let secs: i128 = days * 86400 + tod as i128;
        if secs < i64::MIN as i128 || secs > i64::MAX as i128 {
            return Err(out_of_bounds());
        }
        Ok(Self::new(secs as i64, nanosecond, Tz::utc()))
    }

    fn from_timestamp(timestamp: i64, nanoseconds: u32) -> (r: Self) {
        Self::new(timestamp, nanoseconds, Tz::utc())
    }
}

} // verus!
