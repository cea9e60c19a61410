//! Datetimes of any of the calendars.

use crate::calendars::Calendar;
use crate::civil::{civil_of, civil_seconds, lemma_civil_round_trip, valid_date, Ymdhms};
use crate::datetimes::all_leap::AllLeapDatetime;
use crate::datetimes::day_360::Day360Datetime;
use crate::datetimes::julian::JulianDatetime;
use crate::datetimes::no_leap::NoLeapDatetime;
use crate::datetimes::proleptic_gregorian::ProlepticGregorianDatetime;
use crate::datetimes::standard::StandardDatetime;
use crate::datetimes::traits::{
    creation_outcome, CalendarDatetime, CalendarDatetimeCreator, DatetimeView,
};
use crate::duration::{different_calendars, fits_seconds, ns_per_sec, CFDuration};
use crate::errors::{message_with_value, Error, ErrorKind};
use crate::timezone::{utc, Tz};
use crate::utils::out_of_bounds;
use vstd::prelude::*;

verus! {

/// The datetime of one calendar that a [`CFDatetime`] holds.
enum DatetimeVariant {
    Standard(StandardDatetime),
    ProlepticGregorian(ProlepticGregorianDatetime),
    NoLeap(NoLeapDatetime),
    AllLeap(AllLeapDatetime),
    Julian(JulianDatetime),
    Day360(Day360Datetime),
}

/// A datetime of one of the calendars: seconds since 1970-01-01T00:00:00 in
/// that calendar, the nanoseconds past that second, and an offset from UTC.
pub struct CFDatetime {
    inner: DatetimeVariant,
}

impl View for CFDatetime {
    type V = DatetimeView;

    closed spec fn view(&self) -> DatetimeView {
        match self.inner {
            DatetimeVariant::Standard(d) => DatetimeView { timestamp: d.timestamp, nanoseconds: d.nanoseconds, tz: d.tz, calendar: Calendar::Standard },
            DatetimeVariant::ProlepticGregorian(d) => DatetimeView { timestamp: d.timestamp, nanoseconds: d.nanoseconds, tz: d.tz, calendar: Calendar::ProlepticGregorian },
            DatetimeVariant::NoLeap(d) => DatetimeView { timestamp: d.timestamp, nanoseconds: d.nanoseconds, tz: d.tz, calendar: Calendar::NoLeap },
            DatetimeVariant::AllLeap(d) => DatetimeView { timestamp: d.timestamp, nanoseconds: d.nanoseconds, tz: d.tz, calendar: Calendar::AllLeap },
            DatetimeVariant::Julian(d) => DatetimeView { timestamp: d.timestamp, nanoseconds: d.nanoseconds, tz: d.tz, calendar: Calendar::Julian },
            DatetimeVariant::Day360(d) => DatetimeView { timestamp: d.timestamp, nanoseconds: d.nanoseconds, tz: d.tz, calendar: Calendar::Day360 },
        }
    }
}

/// Nanoseconds since 1970-01-01T00:00:00 of a datetime.
pub open spec fn instant(v: DatetimeView) -> int {
    v.timestamp * ns_per_sec() + v.nanoseconds
}

/// The datetime of `calendar` at `total` nanoseconds since the epoch, at
/// offset `tz`, when its seconds fit in an `i64`.
pub open spec fn view_at(calendar: Calendar, total: int, tz: Tz) -> DatetimeView {
    DatetimeView {
        timestamp: (total / ns_per_sec()) as i64,
        nanoseconds: (total % ns_per_sec()) as u32,
        tz,
        calendar,
    }
}

impl CFDatetime {
    #[verifier::type_invariant]
    spec fn nanoseconds_in_range(&self) -> bool {
        self@.nanoseconds < ns_per_sec()
    }

    /// Builds the datetime from its fields.
    fn from_fields(calendar: Calendar, timestamp: i64, nanoseconds: u32, tz: Tz) -> (r: Self)
        requires
            nanoseconds < ns_per_sec(),
        ensures
            r@ == (DatetimeView { timestamp, nanoseconds, tz, calendar }),
    {
        let inner = match calendar {
            Calendar::Standard => DatetimeVariant::Standard(StandardDatetime::new(timestamp, nanoseconds, tz)),
            Calendar::ProlepticGregorian => DatetimeVariant::ProlepticGregorian(ProlepticGregorianDatetime::new(timestamp, nanoseconds, tz)),
            Calendar::NoLeap => DatetimeVariant::NoLeap(NoLeapDatetime::new(timestamp, nanoseconds, tz)),
            Calendar::AllLeap => DatetimeVariant::AllLeap(AllLeapDatetime::new(timestamp, nanoseconds, tz)),
            Calendar::Julian => DatetimeVariant::Julian(JulianDatetime::new(timestamp, nanoseconds, tz)),
            Calendar::Day360 => DatetimeVariant::Day360(Day360Datetime::new(timestamp, nanoseconds, tz)),
        };
        CFDatetime { inner }
    }

    /// The datetime of `calendar` at `timestamp` seconds plus `nanoseconds`
    /// nanoseconds, of either sign, after the epoch, in UTC; or
    /// `OutOfBoundsCalendar` when its seconds do not fit in an `i64`.
    pub fn new(calendar: Calendar, timestamp: i64, nanoseconds: i64) -> (r: Result<Self, Error>)
        ensures
            fits_seconds(timestamp * ns_per_sec() + nanoseconds) <==> r is Ok,
            r matches Ok(v) ==> v@ == view_at(calendar, timestamp * ns_per_sec() + nanoseconds, utc()),
            r matches Err(e) ==> e is OutOfBoundsCalendar,
    {
        let total: i128 = timestamp as i128 * 1_000_000_000 + nanoseconds as i128;
        Self::at_total_nanoseconds(calendar, total, Tz::utc())
    }

    /// The datetime of `calendar` at `total` nanoseconds since the epoch, at
    /// offset `tz`.
    fn at_total_nanoseconds(calendar: Calendar, total: i128, tz: Tz) -> (r: Result<Self, Error>)
        ensures
            fits_seconds(total as int) <==> r is Ok,
            r matches Ok(v) ==> v@ == view_at(calendar, total as int, tz),
            r matches Err(e) ==> e is OutOfBoundsCalendar,
    {
        let secs: i128 = match total.checked_div_euclid(1_000_000_000) {
            Some(s) => s,
            None => 0,
        };
        let ns: i128 = match total.checked_rem_euclid(1_000_000_000) {
            Some(n) => n,
            None => 0,
        };
        if secs < i64::MIN as i128 || secs > i64::MAX as i128 {
            return Err(out_of_bounds());
        }
        Ok(Self::from_fields(calendar, secs as i64, ns as u32, tz))
    }

    /// The calendar.
    pub fn calendar(&self) -> (r: Calendar)
        ensures
            r == self@.calendar,
    {
        match &self.inner {
            DatetimeVariant::Standard(_) => Calendar::Standard,
            DatetimeVariant::ProlepticGregorian(_) => Calendar::ProlepticGregorian,
            DatetimeVariant::NoLeap(_) => Calendar::NoLeap,
            DatetimeVariant::AllLeap(_) => Calendar::AllLeap,
            DatetimeVariant::Julian(_) => Calendar::Julian,
            DatetimeVariant::Day360(_) => Calendar::Day360,
        }
    }

    /// Seconds since 1970-01-01T00:00:00.
    pub fn timestamp(&self) -> (r: i64)
        ensures
            r == self@.timestamp,
    {
        match &self.inner {
            DatetimeVariant::Standard(d) => d.timestamp(),
            DatetimeVariant::ProlepticGregorian(d) => d.timestamp(),
            DatetimeVariant::NoLeap(d) => d.timestamp(),
            DatetimeVariant::AllLeap(d) => d.timestamp(),
            DatetimeVariant::Julian(d) => d.timestamp(),
            DatetimeVariant::Day360(d) => d.timestamp(),
        }
    }

    /// Nanoseconds past the second.
    pub fn nanoseconds(&self) -> (r: u32)
        ensures
            r == self@.nanoseconds,
            r < ns_per_sec(),
    {
        proof {
            use_type_invariant(self);
        }
        match &self.inner {
            DatetimeVariant::Standard(d) => d.nanoseconds(),
            DatetimeVariant::ProlepticGregorian(d) => d.nanoseconds(),
            DatetimeVariant::NoLeap(d) => d.nanoseconds(),
            DatetimeVariant::AllLeap(d) => d.nanoseconds(),
            DatetimeVariant::Julian(d) => d.nanoseconds(),
            DatetimeVariant::Day360(d) => d.nanoseconds(),
        }
    }

    /// Offset from UTC.
    pub fn timezone(&self) -> (r: Tz)
        ensures
            r == self@.tz,
    {
        match &self.inner {
            DatetimeVariant::Standard(d) => d.timezone(),
            DatetimeVariant::ProlepticGregorian(d) => d.timezone(),
            DatetimeVariant::NoLeap(d) => d.timezone(),
            DatetimeVariant::AllLeap(d) => d.timezone(),
            DatetimeVariant::Julian(d) => d.timezone(),
            DatetimeVariant::Day360(d) => d.timezone(),
        }
    }

    /// The same instant at offset `tz`.
    pub fn with_timezone(&self, tz: Tz) -> (r: Self)
        ensures
            r@ == (DatetimeView { tz, ..self@ }),
    {
        proof {
            use_type_invariant(self);
        }
        Self::from_fields(self.calendar(), self.timestamp(), self.nanoseconds(), tz)
    }

    /// Year, month, day, hour, minute and second of the datetime in its
    /// calendar.
    pub fn ymd_hms(&self) -> (r: Result<Ymdhms, Error>)
        ensures
            r matches Ok(c) && c == civil_of(self@.calendar, self@.timestamp as int),
    {
        match &self.inner {
            DatetimeVariant::Standard(d) => d.ymd_hms(),
            DatetimeVariant::ProlepticGregorian(d) => d.ymd_hms(),
            DatetimeVariant::NoLeap(d) => d.ymd_hms(),
            DatetimeVariant::AllLeap(d) => d.ymd_hms(),
            DatetimeVariant::Julian(d) => d.ymd_hms(),
            DatetimeVariant::Day360(d) => d.ymd_hms(),
        }
    }

    /// Year, month and day of the datetime in its calendar.
    pub fn ymd(&self) -> (r: Result<(i64, u8, u8), Error>)
        ensures
            r matches Ok(c) && {
                let f = civil_of(self@.calendar, self@.timestamp as int);
                c == (f.0, f.1, f.2)
            },
    {
        let (year, month, day, _, _, _) = self.ymd_hms()?;
        Ok((year, month, day))
    }

    /// Hour, minute and second of the datetime.
    pub fn hms(&self) -> (r: Result<(u8, u8, u8), Error>)
        ensures
            r matches Ok(c) && {
                let f = civil_of(self@.calendar, self@.timestamp as int);
                c == (f.3, f.4, f.5)
            },
    {
        let (_, _, _, hour, min, sec) = self.ymd_hms()?;
        Ok((hour, min, sec))
    }

    /// Hour of the datetime.
    pub fn hours(&self) -> (r: Result<u8, Error>)
        ensures
            r matches Ok(h) && h == civil_of(self@.calendar, self@.timestamp as int).3,
    {
        let (hour, _, _) = self.hms()?;
        Ok(hour)
    }

    /// Minute of the datetime.
    pub fn minutes(&self) -> (r: Result<u8, Error>)
        ensures
            r matches Ok(m) && m == civil_of(self@.calendar, self@.timestamp as int).4,
    {
        let (_, min, _) = self.hms()?;
        Ok(min)
    }

    /// Second of the datetime.
    pub fn seconds(&self) -> (r: Result<u8, Error>)
        ensures
            r matches Ok(s) && s == civil_of(self@.calendar, self@.timestamp as int).5,
    {
        let (_, _, sec) = self.hms()?;
        Ok(sec)
    }

    /// The datetime of `calendar` at a civil date and time with nanoseconds,
    /// in UTC.
    ///
    /// Fails with `InvalidTime` when the hour, minute, second or nanosecond
    /// is out of range; then with `InvalidDate` when the month is outside 1
    /// to 12, the day outside 1 to 31, or the date within 1582-10-05 to
    /// 1582-10-14 of the Standard calendar; then with `OutOfBoundsCalendar`
    /// when the timestamp does not fit in an `i64`. A day past the end of its
    /// month runs on into the next.
    pub fn from_ymd_hms_ns(
        year: i64,
        month: u8,
        day: u8,
        hour: u8,
        minute: u8,
        second: u8,
        nanosecond: u32,
        calendar: Calendar,
    ) -> (r: Result<Self, Error>)
        ensures
            match r {
                Ok(v) => creation_outcome(
                    calendar,
                    year as int,
                    month as int,
                    day as int,
                    hour as int,
                    minute as int,
                    second as int,
                    nanosecond as int,
                ) == Ok::<int, ErrorKind>(v@.timestamp as int) && v@.nanoseconds == nanosecond
                    && v@.tz == utc() && v@.calendar == calendar,
                Err(e) => creation_outcome(
                    calendar,
                    year as int,
                    month as int,
                    day as int,
                    hour as int,
                    minute as int,
                    second as int,
                    nanosecond as int,
                ) == Err::<int, ErrorKind>(e.spec_kind()),
            },
    {
        let inner = match calendar {
            Calendar::Standard => DatetimeVariant::Standard(StandardDatetime::from_ymd_hms(year, month, day, hour, minute, second, nanosecond)?),
            Calendar::ProlepticGregorian => DatetimeVariant::ProlepticGregorian(ProlepticGregorianDatetime::from_ymd_hms(year, month, day, hour, minute, second, nanosecond)?),
            Calendar::NoLeap => DatetimeVariant::NoLeap(NoLeapDatetime::from_ymd_hms(year, month, day, hour, minute, second, nanosecond)?),
            Calendar::AllLeap => DatetimeVariant::AllLeap(AllLeapDatetime::from_ymd_hms(year, month, day, hour, minute, second, nanosecond)?),
            Calendar::Julian => DatetimeVariant::Julian(JulianDatetime::from_ymd_hms(year, month, day, hour, minute, second, nanosecond)?),
            Calendar::Day360 => DatetimeVariant::Day360(Day360Datetime::from_ymd_hms(year, month, day, hour, minute, second, nanosecond)?),
        };
        Ok(CFDatetime { inner })
    }

    /// The datetime of `calendar` at a civil date and time, in UTC; fails as
    /// [`CFDatetime::from_ymd_hms_ns`] does.
    pub fn from_ymd_hms(
        year: i64,
        month: u8,
        day: u8,
        hour: u8,
        minute: u8,
        second: u8,
        calendar: Calendar,
    ) -> (r: Result<Self, Error>)
        ensures
            match r {
                Ok(v) => creation_outcome(
                    calendar,
                    year as int,
                    month as int,
                    day as int,
                    hour as int,
                    minute as int,
                    second as int,
                    0,
                ) == Ok::<int, ErrorKind>(v@.timestamp as int) && v@.nanoseconds == 0 && v@.tz
                    == utc() && v@.calendar == calendar,
                Err(e) => creation_outcome(
                    calendar,
                    year as int,
                    month as int,
                    day as int,
                    hour as int,
                    minute as int,
                    second as int,
                    0,
                ) == Err::<int, ErrorKind>(e.spec_kind()),
            },
    {
        Self::from_ymd_hms_ns(year, month, day, hour, minute, second, 0, calendar)
    }

    /// The datetime of `calendar` at a time of day on 1970-01-01, in UTC.
    pub fn from_hms(hour: u8, minute: u8, second: u8, calendar: Calendar) -> (r: Result<Self, Error>)
        ensures
            match r {
                Ok(v) => creation_outcome(calendar, 1970, 1, 1, hour as int, minute as int, second as int, 0)
                    == Ok::<int, ErrorKind>(v@.timestamp as int) && v@.nanoseconds == 0 && v@.tz
                    == utc() && v@.calendar == calendar,
                Err(e) => creation_outcome(calendar, 1970, 1, 1, hour as int, minute as int, second as int, 0)
                    == Err::<int, ErrorKind>(e.spec_kind()),
            },
    {
        Self::from_ymd_hms(1970, 1, 1, hour, minute, second, calendar)
    }

    /// The datetime of `calendar` at midnight of a date, in UTC.
    pub fn from_ymd(year: i64, month: u8, day: u8, calendar: Calendar) -> (r: Result<Self, Error>)
        ensures
            match r {
                Ok(v) => creation_outcome(calendar, year as int, month as int, day as int, 0, 0, 0, 0)
                    == Ok::<int, ErrorKind>(v@.timestamp as int) && v@.nanoseconds == 0 && v@.tz
                    == utc() && v@.calendar == calendar,
                Err(e) => creation_outcome(calendar, year as int, month as int, day as int, 0, 0, 0, 0)
                    == Err::<int, ErrorKind>(e.spec_kind()),
            },
    {
        Self::from_ymd_hms(year, month, day, 0, 0, 0, calendar)
    }

    /// The datetime of `calendar` at `timestamp` seconds and `nanoseconds`
    /// after the epoch, in UTC; `InvalidTime` when the nanoseconds reach a
    /// whole second.
    pub fn from_timestamp(timestamp: i64, nanoseconds: u32, calendar: Calendar) -> (r: Result<Self, Error>)
        ensures
            nanoseconds < ns_per_sec() <==> r is Ok,
            r matches Ok(v) ==> v@ == (DatetimeView { timestamp, nanoseconds, tz: utc(), calendar }),
            r matches Err(e) ==> e is InvalidTime,
    {
        if nanoseconds >= 1_000_000_000 {
            return Err(Error::InvalidTime(message_with_value("nanoseconds reach a whole second", nanoseconds as i128)));
        }
        let inner = match calendar {
            Calendar::Standard => DatetimeVariant::Standard(StandardDatetime::from_timestamp(timestamp, nanoseconds)),
            Calendar::ProlepticGregorian => DatetimeVariant::ProlepticGregorian(ProlepticGregorianDatetime::from_timestamp(timestamp, nanoseconds)),
            Calendar::NoLeap => DatetimeVariant::NoLeap(NoLeapDatetime::from_timestamp(timestamp, nanoseconds)),
            Calendar::AllLeap => DatetimeVariant::AllLeap(AllLeapDatetime::from_timestamp(timestamp, nanoseconds)),
            Calendar::Julian => DatetimeVariant::Julian(JulianDatetime::from_timestamp(timestamp, nanoseconds)),
            Calendar::Day360 => DatetimeVariant::Day360(Day360Datetime::from_timestamp(timestamp, nanoseconds)),
        };
        Ok(CFDatetime { inner })
    }

    /// The same civil date and time in another calendar, in UTC; fails as
    /// [`CFDatetime::from_ymd_hms_ns`] does when that calendar lacks it.
    pub fn change_calendar(&self, calendar: Calendar) -> (r: Result<Self, Error>)
        ensures
            ({
                let c = civil_of(self@.calendar, self@.timestamp as int);
                let outcome = creation_outcome(
                    calendar,
                    c.0 as int,
                    c.1 as int,
                    c.2 as int,
                    c.3 as int,
                    c.4 as int,
                    c.5 as int,
                    self@.nanoseconds as int,
                );
                match r {
                    Ok(v) => outcome == Ok::<int, ErrorKind>(v@.timestamp as int) && v@.nanoseconds
                        == self@.nanoseconds && v@.tz == utc() && v@.calendar == calendar,
                    Err(e) => outcome == Err::<int, ErrorKind>(e.spec_kind()),
                }
            }),
    {
        let (year, month, day, hour, minute, second) = self.ymd_hms()?;
        let ns = self.nanoseconds();
        Self::from_ymd_hms_ns(year, month, day, hour, minute, second, ns, calendar)
    }

    /// The same timestamp read in another calendar, in UTC: the civil dates
    /// may differ, the distance from the epoch does not.
    pub fn change_calendar_from_timestamp(&self, calendar: Calendar) -> (r: Result<Self, Error>)
        ensures
            r matches Ok(v) && v@ == (DatetimeView { tz: utc(), calendar, ..self@ }),
    {
        let timestamp = self.timestamp();
        let nanoseconds = self.nanoseconds();
        Self::from_timestamp(timestamp, nanoseconds, calendar)
    }

    /// The datetime `duration` later.
    ///
    /// Fails with `DifferentCalendars` when the calendars differ, and with
    /// `OutOfBoundsCalendar` when the result's timestamp does not fit in an
    /// `i64`.
    pub fn add_duration(&self, duration: &CFDuration) -> (r: Result<Self, Error>)
        ensures
            self@.calendar != duration.calendar <==> r matches Err(Error::DifferentCalendars(..)),
            self@.calendar == duration.calendar ==> {
                let total = instant(self@) + duration.total_ns();
                &&& fits_seconds(total) <==> r is Ok
                &&& r matches Ok(v) ==> v@ == view_at(self@.calendar, total, self@.tz)
                &&& r matches Err(e) ==> e is OutOfBoundsCalendar
            },
    {
        let calendar = self.calendar();
        if calendar != duration.calendar {
            return Err(different_calendars(calendar, duration.calendar));
        }
        let total: i128 = self.timestamp() as i128 * 1_000_000_000 + self.nanoseconds() as i128
            + duration.seconds as i128 * 1_000_000_000 + duration.nanoseconds as i128;
        Self::at_total_nanoseconds(calendar, total, self.timezone())
    }

    /// The datetime `duration` earlier.
    ///
    /// Fails with `DifferentCalendars` when the calendars differ, and with
    /// `OutOfBoundsCalendar` when the result's timestamp does not fit in an
    /// `i64`.
    pub fn subtract_duration(&self, duration: &CFDuration) -> (r: Result<Self, Error>)
        ensures
            self@.calendar != duration.calendar <==> r matches Err(Error::DifferentCalendars(..)),
            self@.calendar == duration.calendar ==> {
                let total = instant(self@) - duration.total_ns();
                &&& fits_seconds(total) <==> r is Ok
                &&& r matches Ok(v) ==> v@ == view_at(self@.calendar, total, self@.tz)
                &&& r matches Err(e) ==> e is OutOfBoundsCalendar
            },
    {
        let calendar = self.calendar();
        if calendar != duration.calendar {
            return Err(different_calendars(calendar, duration.calendar));
        }
        let total: i128 = self.timestamp() as i128 * 1_000_000_000 + self.nanoseconds() as i128 - (
        duration.seconds as i128 * 1_000_000_000 + duration.nanoseconds as i128);
        Self::at_total_nanoseconds(calendar, total, self.timezone())
    }

    /// The duration from `other` to `self`.
    ///
    /// Fails with `DifferentCalendars` when the calendars differ, and with
    /// `OutOfBoundsCalendar` when the duration's seconds do not fit in an
    /// `i64`.
    pub fn difference(&self, other: &CFDatetime) -> (r: Result<CFDuration, Error>)
        ensures
            self@.calendar != other@.calendar <==> r matches Err(Error::DifferentCalendars(..)),
            self@.calendar == other@.calendar ==> {
                let total = instant(self@) - instant(other@);
                &&& fits_seconds(total) <==> r is Ok
                &&& r matches Ok(d) ==> d.wf() && d.total_ns() == total && d.calendar
                    == self@.calendar
                &&& r matches Err(e) ==> e is OutOfBoundsCalendar
            },
    {
        let calendar = self.calendar();
        let other_calendar = other.calendar();
        if calendar != other_calendar {
            return Err(different_calendars(calendar, other_calendar));
        }
        let total: i128 = self.timestamp() as i128 * 1_000_000_000 + self.nanoseconds() as i128 - (
        other.timestamp() as i128 * 1_000_000_000 + other.nanoseconds() as i128);
        CFDuration::from_total_nanoseconds(total, calendar)
    }
}

/// Round trip: a date of `calendar` whose timestamp fits in an `i64` is
/// built by [`CFDatetime::from_ymd`], and [`CFDatetime::ymd`] reads the
/// same date back from that timestamp.
pub proof fn lemma_from_ymd_round_trip(calendar: Calendar, year: i64, month: u8, day: u8)
    requires
        valid_date(calendar, year as int, month as int, day as int),
        i64::MIN <= civil_seconds(calendar, year as int, month as int, day as int, 0, 0, 0)
            <= i64::MAX,
    ensures
        creation_outcome(calendar, year as int, month as int, day as int, 0, 0, 0, 0) == Ok::<
            int,
            ErrorKind,
        >(civil_seconds(calendar, year as int, month as int, day as int, 0, 0, 0)),
        civil_of(calendar, civil_seconds(calendar, year as int, month as int, day as int, 0, 0, 0))
            == (year, month, day, 0u8, 0u8, 0u8),
{
    lemma_civil_round_trip(calendar, (year, month, day, 0u8, 0u8, 0u8));
}

} // verus!
