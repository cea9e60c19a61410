//! Signed spans of time, tagged with the calendar whose year and month
//! lengths they were measured in.

use crate::calendars::Calendar;
use crate::errors::Error;
use crate::utils::out_of_bounds;
use vstd::prelude::*;

verus! {

/// Nanoseconds in a second.
pub open spec fn ns_per_sec() -> int {
    1_000_000_000
}

/// Whether a span of `total` nanoseconds has a whole-second part, rounded
/// down, that fits in an `i64`.
pub open spec fn fits_seconds(total: int) -> bool {
    i64::MIN <= total / ns_per_sec() <= i64::MAX
}

/// Seconds in a year, as durations count them in `cal`.
pub open spec fn seconds_per_year(cal: Calendar) -> int {
    match cal {
        Calendar::Standard | Calendar::ProlepticGregorian => 31556925,
        Calendar::NoLeap => 31536000,
        Calendar::AllLeap => 31622400,
        Calendar::Julian => 31557600,
        Calendar::Day360 => 31104000,
    }
}

/// Seconds in a month, as durations count them in `cal`: a twelfth of a
/// year, rounded down.
pub open spec fn seconds_per_month(cal: Calendar) -> int {
    seconds_per_year(cal) / 12
}

/// A signed span of time: whole seconds, rounded down, and the nanoseconds
/// past them.
#[derive(Debug, Clone, Copy)]
pub struct CFDuration {
    pub seconds: i64,
    pub nanoseconds: u32,
    pub calendar: Calendar,
}

impl CFDuration {
    /// The span in nanoseconds.
    pub open spec fn total_ns(&self) -> int {
        self.seconds * ns_per_sec() + self.nanoseconds
    }

    /// The nanoseconds lie in 0 to 999_999_999.
    pub open spec fn wf(&self) -> bool {
        self.nanoseconds < ns_per_sec()
    }

    /// The duration of `total` nanoseconds in `calendar`, or
    /// `OutOfBoundsCalendar` when its seconds do not fit in an `i64`.
    pub fn from_total_nanoseconds(total: i128, calendar: Calendar) -> (r: Result<CFDuration, Error>)
        ensures
            fits_seconds(total as int) <==> r is Ok,
            r matches Ok(d) ==> d.wf() && d.total_ns() == total && d.calendar == calendar,
            r matches Err(e) ==> e is OutOfBoundsCalendar,
    {
        let secs: i128 = match total.checked_div_euclid(1_000_000_000) {
            Some(s) => s,
            None => 0,
        };
        let ns: i128 = match total.checked_rem_euclid(1_000_000_000) {
            Some(n) => n,
            None => 0,
        };
        if secs < i64::MIN as i128 || secs > i64::MAX as i128 {
            return Err(out_of_bounds());
        }
        Ok(CFDuration { seconds: secs as i64, nanoseconds: ns as u32, calendar })
    }

    /// The duration of `seconds` seconds and `nanoseconds` nanoseconds, the
    /// nanoseconds of either sign and of any size.
    pub fn new(seconds: i64, nanoseconds: i64, calendar: Calendar) -> (r: Self)
        requires
            fits_seconds(seconds * ns_per_sec() + nanoseconds),
        ensures
            r.wf(),
            r.total_ns() == seconds * ns_per_sec() + nanoseconds,
            r.calendar == calendar,
    {
        let total: i128 = seconds as i128 * 1_000_000_000 + nanoseconds as i128;
        match Self::from_total_nanoseconds(total, calendar) {
            Ok(d) => d,
            Err(_) => CFDuration { seconds: 0, nanoseconds: 0, calendar },
        }
    }

    /// The calendar of the duration.
    pub fn calendar(&self) -> (r: Calendar)
        ensures
            r == self.calendar,
    {
        self.calendar
    }

    /// `years` years of `calendar`.
    pub fn from_years(years: i64, calendar: Calendar) -> (r: CFDuration)
        requires
            i64::MIN <= years * seconds_per_year(calendar) <= i64::MAX,
        ensures
            r.wf(),
            r.total_ns() == years * seconds_per_year(calendar) * ns_per_sec(),
            r.calendar == calendar,
    {
        let secs_per_year = year_seconds(calendar);
        Self::new(secs_per_year * years, 0, calendar)
    }

    /// `months` months of `calendar`, each a twelfth of its year.
    pub fn from_months(months: i64, calendar: Calendar) -> (r: CFDuration)
        requires
            i64::MIN <= months * seconds_per_month(calendar) <= i64::MAX,
        ensures
            r.wf(),
            r.total_ns() == months * seconds_per_month(calendar) * ns_per_sec(),
            r.calendar == calendar,
    {
        let per_month: i64 = year_seconds(calendar) / 12;
        assert(per_month == seconds_per_month(calendar));
        Self::new(months * per_month, 0, calendar)
    }

    /// `weeks` weeks.
    pub fn from_weeks(weeks: i64, calendar: Calendar) -> (r: CFDuration)
        requires
            i64::MIN <= weeks * 604800 <= i64::MAX,
        ensures
            r.wf(),
            r.total_ns() == weeks * 604800 * ns_per_sec(),
            r.calendar == calendar,
    {
        Self::new(weeks * 604800, 0, calendar)
    }

    /// `days` days.
    pub fn from_days(days: i64, calendar: Calendar) -> (r: CFDuration)
        requires
            i64::MIN <= days * 86400 <= i64::MAX,
        ensures
            r.wf(),
            r.total_ns() == days * 86400 * ns_per_sec(),
            r.calendar == calendar,
    {
        Self::new(days * 86400, 0, calendar)
    }

    /// `hours` hours.
    pub fn from_hours(hours: i64, calendar: Calendar) -> (r: CFDuration)
        requires
            i64::MIN <= hours * 3600 <= i64::MAX,
        ensures
            r.wf(),
            r.total_ns() == hours * 3600 * ns_per_sec(),
            r.calendar == calendar,
    {
        Self::new(hours * 3600, 0, calendar)
    }

    /// `minutes` minutes.
    pub fn from_minutes(minutes: i64, calendar: Calendar) -> (r: CFDuration)
        requires
            i64::MIN <= minutes * 60 <= i64::MAX,
        ensures
            r.wf(),
            r.total_ns() == minutes * 60 * ns_per_sec(),
            r.calendar == calendar,
    {
        Self::new(minutes * 60, 0, calendar)
    }

    /// `seconds` seconds.
    pub fn from_seconds(seconds: i64, calendar: Calendar) -> (r: CFDuration)
        ensures
            r.wf(),
            r.total_ns() == seconds * ns_per_sec(),
            r.calendar == calendar,
    {
        Self::new(seconds, 0, calendar)
    }

    /// `milliseconds` milliseconds.
    pub fn from_milliseconds(milliseconds: i64, calendar: Calendar) -> (r: CFDuration)
        ensures
            r.wf(),
            r.total_ns() == milliseconds * 1_000_000,
            r.calendar == calendar,
    {
        let secs: i64 = match milliseconds.checked_div_euclid(1000) {
            Some(s) => s,
            None => 0,
        };
        let rest: i64 = match milliseconds.checked_rem_euclid(1000) {
            Some(n) => n,
            None => 0,
        };
        Self::new(secs, rest * 1_000_000, calendar)
    }

    /// `microseconds` microseconds.
    pub fn from_microseconds(microseconds: i64, calendar: Calendar) -> (r: CFDuration)
        ensures
            r.wf(),
            r.total_ns() == microseconds * 1000,
            r.calendar == calendar,
    {
        let secs: i64 = match microseconds.checked_div_euclid(1_000_000) {
            Some(s) => s,
            None => 0,
        };
        let rest: i64 = match microseconds.checked_rem_euclid(1_000_000) {
            Some(n) => n,
            None => 0,
        };
        Self::new(secs, rest * 1000, calendar)
    }

    /// `nanoseconds` nanoseconds.
    pub fn from_nanoseconds(nanoseconds: i64, calendar: Calendar) -> (r: CFDuration)
        ensures
            r.wf(),
            r.total_ns() == nanoseconds,
            r.calendar == calendar,
    {
        Self::new(0, nanoseconds, calendar)
    }

    /// The sum of two durations of one calendar.
    ///
    /// Fails with `DifferentCalendars` when the calendars differ, and with
    /// `OutOfBoundsCalendar` when the sum's seconds do not fit in an `i64`.
    pub fn add_duration(&self, rhs: &CFDuration) -> (r: Result<CFDuration, Error>)
        ensures
            self.calendar != rhs.calendar <==> r matches Err(Error::DifferentCalendars(..)),
            self.calendar == rhs.calendar ==> {
                &&& fits_seconds(self.total_ns() + rhs.total_ns()) <==> r is Ok
                &&& r matches Ok(d) ==> d.wf() && d.total_ns() == self.total_ns() + rhs.total_ns()
                    && d.calendar == self.calendar
                &&& r matches Err(e) ==> e is OutOfBoundsCalendar
            },
    {
        if self.calendar != rhs.calendar {
            return Err(different_calendars(self.calendar, rhs.calendar));
        }
        let total: i128 = self.seconds as i128 * 1_000_000_000 + self.nanoseconds as i128
            + rhs.seconds as i128 * 1_000_000_000 + rhs.nanoseconds as i128;
        Self::from_total_nanoseconds(total, self.calendar)
    }

    /// The difference `self - rhs` of two durations of one calendar.
    ///
    /// Fails with `DifferentCalendars` when the calendars differ, and with
    /// `OutOfBoundsCalendar` when the difference's seconds do not fit in an
    /// `i64`.
    pub fn subtract_duration(&self, rhs: &CFDuration) -> (r: Result<CFDuration, Error>)
        ensures
            self.calendar != rhs.calendar <==> r matches Err(Error::DifferentCalendars(..)),
            self.calendar == rhs.calendar ==> {
                &&& fits_seconds(self.total_ns() - rhs.total_ns()) <==> r is Ok
                &&& r matches Ok(d) ==> d.wf() && d.total_ns() == self.total_ns() - rhs.total_ns()
                    && d.calendar == self.calendar
                &&& r matches Err(e) ==> e is OutOfBoundsCalendar
            },
    {
        if self.calendar != rhs.calendar {
            return Err(different_calendars(self.calendar, rhs.calendar));
        }
        let total: i128 = self.seconds as i128 * 1_000_000_000 + self.nanoseconds as i128 - (
        rhs.seconds as i128 * 1_000_000_000 + rhs.nanoseconds as i128);
        Self::from_total_nanoseconds(total, self.calendar)
    }

    /// The opposite span.
    pub fn neg(&self) -> (r: CFDuration)
        requires
            fits_seconds(-self.total_ns()),
        ensures
            r.wf(),
            r.total_ns() == -self.total_ns(),
            r.calendar == self.calendar,
    {
        let total: i128 = -(self.seconds as i128 * 1_000_000_000 + self.nanoseconds as i128);
        match Self::from_total_nanoseconds(total, self.calendar) {
            Ok(d) => d,
            Err(_) => CFDuration { seconds: 0, nanoseconds: 0, calendar: self.calendar },
        }
    }

    /// The span `factor` times as long, or `OutOfBoundsCalendar` when its
    /// seconds do not fit in an `i64`.
    pub fn scale(&self, factor: i64) -> (r: Result<CFDuration, Error>)
        ensures
            fits_seconds(self.total_ns() * factor) <==> r is Ok,
            r matches Ok(d) ==> d.wf() && d.total_ns() == self.total_ns() * factor && d.calendar
                == self.calendar,
            r matches Err(e) ==> e is OutOfBoundsCalendar,
    {
        let total: i128 = self.seconds as i128 * 1_000_000_000 + self.nanoseconds as i128;
        match total.checked_mul(factor as i128) {
            Some(product) => Self::from_total_nanoseconds(product, self.calendar),
            None => Err(out_of_bounds()),
        }
    }
}

/// Seconds in a year, as durations count them in `calendar`.
fn year_seconds(calendar: Calendar) -> (r: i64)
    ensures
        r == seconds_per_year(calendar),
{
    match calendar {
        Calendar::Standard | Calendar::ProlepticGregorian => 31556925,
        Calendar::NoLeap => 31536000,
        Calendar::AllLeap => 31622400,
        Calendar::Julian => 31557600,
        Calendar::Day360 => 31104000,
    }
}

/// The error for arithmetic between the calendars `a` and `b`.
pub fn different_calendars(a: Calendar, b: Calendar) -> (r: Error)
    ensures
        r is DifferentCalendars,
{
    Error::DifferentCalendars(a.to_string(), b.to_string())
}

} // verus!
