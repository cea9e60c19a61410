//! Leap-year tests and the conversions between civil dates and timestamps.

use crate::calendars::Calendar;
use crate::constants::{cumsum_cal, lemma_cumsum_days_before_month, month_lengths};
use crate::civil::{
    before_reform, civil_day, civil_of, date_lt, day_number, days_before_month, days_to_year,
    gregorian_leap, julian_leap, leap_month_days, leap_valid_date, leap_year,
    lemma_civil_of_unique, lemma_day_number_order, lemma_days_to_year_bound,
    lemma_days_to_year_mono, lemma_days_to_year_step, time_of_day, valid_date, valid_time,
    valid_ymdhms, year_days,
};
use crate::datetime::CFDatetime;
use crate::datetimes::traits::{creation_outcome, DatetimeView, IsLeap};
use crate::duration::CFDuration;
use crate::errors::{message_with_value, Error, ErrorKind};
use crate::parser::{parse_cf_time, parse_spec, Unit};
use crate::timezone::{valid_tz, Tz};
use vstd::prelude::*;
use vstd::string::StringExecFns;

verus! {

/// Seconds in a day.
pub const SECS_PER_DAY: i64 = 86400;

/// Nanoseconds in a second.
pub const NS_PER_SEC: i64 = 1_000_000_000;

/// Day numbers beyond this bound, either way, lie outside what an `i64`
/// count of seconds can reach.
pub const DAY_LIMIT: i128 = 140737488355328;

/// Whether `year` is a leap year under the Gregorian rules.
pub fn is_leap_gregorian(year: i64) -> (r: bool)
    ensures
        r == gregorian_leap(year as int),
{
    let f_year: i64 = if year < 0 {
        -(year + 1)
    } else {
        year
    };
    (f_year % 400 == 0) || ((f_year % 4 == 0) && (f_year % 100 != 0))
}

/// Whether `year` is a leap year under the Julian rules.
pub fn is_leap_julian(year: i64) -> (r: bool)
    ensures
        r == julian_leap(year as int),
{
    let f_year: i64 = if year < 0 {
        -(year + 1)
    } else {
        year
    };
    f_year % 4 == 0
}

/// Length of month `month` in a year of 366 days (`leap`) or 365 days.
pub fn month_length(leap: bool, month: u8) -> (r: u8)
    requires
        1 <= month <= 12,
    ensures
        r == leap_month_days(leap, month as int),
{
    month_lengths(leap)[(month - 1) as usize]
}

/// Length of `year` under the leap rule of `T`.
fn year_length<T: IsLeap>(year: i64) -> (r: i64)
    ensures
        r == year_days(T::leap_calendar(), year as int),
{
    if T::is_leap(year) {
        366
    } else {
        365
    }
}

/// Day number of (`year`, `month`, `day`) under the leap rule of `T`, or
/// `None` when it lies beyond `DAY_LIMIT` either way.
fn day_number_checked<T: IsLeap>(year: i64, month: u8, day: u8) -> (r: Option<i128>)
    requires
        1 <= month <= 12,
        1 <= day <= 31,
    ensures
        match r {
            Some(n) => n == day_number(T::leap_calendar(), year as int, month as int, day as int)
                && -2 * DAY_LIMIT <= n <= 2 * DAY_LIMIT,
            None => day_number(T::leap_calendar(), year as int, month as int, day as int)
                > DAY_LIMIT || day_number(
                T::leap_calendar(),
                year as int,
                month as int,
                day as int,
            ) < -DAY_LIMIT,
        },
{
    let ghost cal = T::leap_calendar();
    let mut y: i64 = 1970;
    let mut acc: i128 = 0;
    if year >= 1970 {
        while y < year
            invariant
                1970 <= y <= year,
                cal == T::leap_calendar(),
                acc == days_to_year(cal, y as int),
                0 <= acc <= DAY_LIMIT + 366,
            decreases year - y,
        {
            if acc > DAY_LIMIT {
                proof {
                    lemma_days_to_year_mono(cal, y as int, year as int);
                }
                return None;
            }
            let len = year_length::<T>(y);
            proof {
                lemma_days_to_year_step(cal, y as int);
            }
            acc = acc + len as i128;
            y = y + 1;
        }
    } else {
        while y > year
            invariant
                year <= y <= 1970,
                cal == T::leap_calendar(),
                acc == days_to_year(cal, y as int),
                -(DAY_LIMIT + 2 * 366) <= acc <= 0,
            decreases y - year,
        {
            if acc < -(DAY_LIMIT + 366) {
                proof {
                    lemma_days_to_year_mono(cal, year as int, y as int);
                }
                return None;
            }
            let len = year_length::<T>(y - 1);
            proof {
                lemma_days_to_year_step(cal, y - 1);
            }
            acc = acc - len as i128;
            y = y - 1;
        }
    }
    let lengths = month_lengths(T::is_leap(year));
    let table = cumsum_cal(lengths);
    proof {
        lemma_cumsum_days_before_month(*lengths, table, cal, year as int);
    }
    let before = table[(month - 1) as usize] as i128;
    Some(acc + before + day as i128 - 1)
}

/// Seconds from 1970-01-01 to the start of (`year`, `month`, `day`) under
/// the leap rule of `T`.
///
/// Fails with `InvalidDate` when the month is outside 1 to 12 or the day
/// outside 1 to 31, and with `OutOfBoundsCalendar` when the count does not
/// fit in an `i64`. A day past the end of its month runs on into the next.
pub fn get_timestamp_from_ymd<T: IsLeap>(year: i64, month: u8, day: u8) -> (r: Result<i64, Error>)
    ensures
        !(1 <= month <= 12 && 1 <= day <= 31) <==> r matches Err(Error::InvalidDate(_)),
        (1 <= month <= 12 && 1 <= day <= 31) ==> {
            let secs = 86400 * day_number(T::leap_calendar(), year as int, month as int, day as int);
            &&& (i64::MIN <= secs <= i64::MAX) <==> r is Ok
            &&& r matches Ok(t) ==> t == secs
            &&& r matches Err(e) ==> e is OutOfBoundsCalendar
        },
{
    if month < 1 || month > 12 {
        return Err(Error::InvalidDate(message_with_value("month is out of bounds", month as i128)));
    }
    if day < 1 || day > 31 {
        return Err(Error::InvalidDate(message_with_value("day is out of bounds", day as i128)));
    }
    match day_number_checked::<T>(year, month, day) {
        None => Err(out_of_bounds()),
        Some(n) => {
            let secs: i128 = n * 86400;
            if secs < i64::MIN as i128 || secs > i64::MAX as i128 {
                Err(out_of_bounds())
            } else {
                Ok(secs as i64)
            }
        },
    }
}

/// The error for a datetime that no `i64` timestamp can hold.
pub fn out_of_bounds() -> (r: Error)
    ensures
        r is OutOfBoundsCalendar,
{
    Error::OutOfBoundsCalendar(
        String::from_str("timestamp"),
        String::from_str("does not fit in 64 bits"),
    )
}

/// Hour, minute and second of the time of day at `timestamp`, counting days
/// from midnight down for negative timestamps.
pub fn get_hms_from_timestamp(timestamp: i64) -> (r: (u8, u8, u8))
    ensures
        valid_time(r.0 as int, r.1 as int, r.2 as int),
        time_of_day(r.0 as int, r.1 as int, r.2 as int) == timestamp as int % 86400,
{
    let seconds: i64 = match timestamp.checked_rem_euclid(SECS_PER_DAY) {
        Some(s) => s,
        None => 0,
    };
    let sec = (seconds % 60) as u8;
    let min = ((seconds / 60) % 60) as u8;
    let hour = (seconds / 3600) as u8;
    (hour, min, sec)
}

/// The date, under the leap rule of `T`, whose day number is `days`.
pub(crate) fn civil_from_days<T: IsLeap>(days: i64) -> (r: (i64, u8, u8))
    ensures
        leap_valid_date(T::leap_calendar(), r.0 as int, r.1 as int, r.2 as int),
        day_number(T::leap_calendar(), r.0 as int, r.1 as int, r.2 as int) == days,
{
    let ghost cal = T::leap_calendar();
    let mut y: i64 = 1970;
    let mut rem: i64 = days;
    if days >= 0 {
        loop
            invariant
                cal == T::leap_calendar(),
                1970 <= y,
                0 <= rem <= days,
                rem == days - days_to_year(cal, y as int),
                365 * (y - 1970) <= days - rem,
            ensures
                1970 <= y,
                0 <= rem < year_days(cal, y as int),
                rem == days - days_to_year(cal, y as int),
            decreases rem,
        {
            let len = year_length::<T>(y);
            if rem < len {
                break;
            }
            proof {
                lemma_days_to_year_step(cal, y as int);
            }
            rem = rem - len;
            y = y + 1;
        }
    } else {
        while rem < 0
            invariant
                cal == T::leap_calendar(),
                y <= 1970,
                days <= rem < 366,
                rem == days - days_to_year(cal, y as int),
                365 * (1970 - y) <= rem - days,
                rem >= 0 ==> rem < year_days(cal, y as int),
            decreases 366 - rem,
        {
            proof {
                lemma_days_to_year_step(cal, y - 1);
            }
            y = y - 1;
            let len = year_length::<T>(y);
            rem = rem + len;
        }
    }
    let leap = T::is_leap(y);
    let mut m: u8 = 1;
    loop
        invariant
            cal == T::leap_calendar(),
            leap == leap_year(cal, y as int),
            1 <= m <= 12,
            0 <= rem,
            rem == days - days_to_year(cal, y as int) - days_before_month(cal, y as int, m as int),
            rem < year_days(cal, y as int) - days_before_month(cal, y as int, m as int),
        ensures
            1 <= m <= 12,
            0 <= rem < leap_month_days(leap, m as int),
            rem == days - days_to_year(cal, y as int) - days_before_month(cal, y as int, m as int),
        decreases 12 - m,
    {
        let len = month_length(leap, m);
        if rem < len as i64 {
            break;
        }
        rem = rem - len as i64;
        m = m + 1;
    }
    (y, m, (rem + 1) as u8)
}

/// Date and time, under the leap rule of `T`, of `timestamp` seconds after
/// 1970-01-01T00:00:00.
pub fn get_ymd_hms_from_timestamp<T: IsLeap>(timestamp: i64) -> (r: (i64, u8, u8, u8, u8, u8))
    ensures
        leap_valid_date(T::leap_calendar(), r.0 as int, r.1 as int, r.2 as int),
        valid_time(r.3 as int, r.4 as int, r.5 as int),
        86400 * day_number(T::leap_calendar(), r.0 as int, r.1 as int, r.2 as int)
            + time_of_day(r.3 as int, r.4 as int, r.5 as int) == timestamp,
{
    let days: i64 = match timestamp.checked_div_euclid(SECS_PER_DAY) {
        Some(d) => d,
        None => 0,
    };
    let (year, month, day) = civil_from_days::<T>(days);
    let (hour, min, sec) = get_hms_from_timestamp(timestamp);
    (year, month, day, hour, min, sec)
}

/// Splits a count of nanoseconds into whole seconds, rounded down, and the
/// nanoseconds that remain, in 0 to 999_999_999.
pub fn normalize_nanoseconds(nanoseconds: i64) -> (r: (i64, u32))
    ensures
        r.0 == nanoseconds as int / 1_000_000_000,
        r.1 == nanoseconds as int % 1_000_000_000,
        r.0 * 1_000_000_000 + r.1 == nanoseconds,
        r.1 < 1_000_000_000,
{
    let secs: i64 = match nanoseconds.checked_div_euclid(NS_PER_SEC) {
        Some(s) => s,
        None => 0,
    };
    let rem: i64 = match nanoseconds.checked_rem_euclid(NS_PER_SEC) {
        Some(n) => n,
        None => 0,
    };
    (secs, rem as u32)
}

/// Seconds since midnight of `hour`:`min`:`sec`, with the nanoseconds past
/// that second; `InvalidTime` when any field is out of range.
pub fn get_timestamp_from_hms(hour: u8, min: u8, sec: u8, nanosecond: u32) -> (r: Result<(i64, u32), Error>)
    ensures
        (valid_time(hour as int, min as int, sec as int) && nanosecond < 1_000_000_000) <==> r is Ok,
        r matches Ok(v) ==> v.0 == time_of_day(hour as int, min as int, sec as int) && v.1 == nanosecond,
        r matches Err(e) ==> e is InvalidTime,
{
    if hour > 23 {
        return Err(Error::InvalidTime(message_with_value("hour is out of bounds", hour as i128)));
    }
    if min > 59 {
        return Err(Error::InvalidTime(message_with_value("minute is out of bounds", min as i128)));
    }
    if sec > 59 {
        return Err(Error::InvalidTime(message_with_value("second is out of bounds", sec as i128)));
    }
    if nanosecond >= 1_000_000_000 {
        return Err(Error::InvalidTime(message_with_value("nanosecond is out of bounds", nanosecond as i128)));
    }
    let total: i64 = hour as i64 * 3600 + min as i64 * 60 + sec as i64;
    Ok((total, nanosecond))
}

/// Timestamp of a civil date and time of `T`'s calendar, which counts years
/// by its leap rule; `reform` applies the Standard calendar's gap and its
/// ten-day shift of the dates before it.
pub(crate) fn leap_timestamp<T: IsLeap>(
    year: i64,
    month: u8,
    day: u8,
    hour: u8,
    minute: u8,
    second: u8,
    nanosecond: u32,
    reform: bool,
) -> (r: Result<i64, Error>)
    requires
        T::leap_calendar() != Calendar::Day360,
        reform == (T::leap_calendar() == Calendar::Standard),
    ensures
        match r {
            Ok(t) => creation_outcome(
                T::leap_calendar(),
                year as int,
                month as int,
                day as int,
                hour as int,
                minute as int,
                second as int,
                nanosecond as int,
            ) == Ok::<int, ErrorKind>(t as int),
            Err(e) => creation_outcome(
                T::leap_calendar(),
                year as int,
                month as int,
                day as int,
                hour as int,
                minute as int,
                second as int,
                nanosecond as int,
            ) == Err::<int, ErrorKind>(e.spec_kind()),
        },
{
    let tod: i64 = match get_timestamp_from_hms(hour, minute, second, nanosecond) {
        Ok(v) => v.0,
        Err(e) => return Err(e),
    };
    if month < 1 || month > 12 {
        return Err(Error::InvalidDate(message_with_value("month is out of bounds", month as i128)));
    }
    if day < 1 || day > 31 {
        return Err(Error::InvalidDate(message_with_value("day is out of bounds", day as i128)));
    }
    if reform && year == 1582 && month == 10 && day >= 5 && day <= 14 {
        return Err(
            Error::InvalidDate(
                String::from_str("dates from 1582-10-05 to 1582-10-14 do not exist in the standard calendar"),
            ),
        );
    }
    let n: i128 = match day_number_checked::<T>(year, month, day) {
        None => return Err(out_of_bounds()),
        Some(n) => n,
    };
    let shift: i128 = if reform && (year < 1582 || (year == 1582 && (month < 10 || (month == 10
        && day < 15)))) {
        10
    } else {
        0
    };
    let secs: i128 = (n + shift) * 86400 + tod as i128;
    if secs < i64::MIN as i128 || secs > i64::MAX as i128 {
        return Err(out_of_bounds());
    }
    Ok(secs as i64)
}

/// Date and time at `timestamp` in `T`'s calendar, which counts years by its
/// leap rule; `reform` applies the Standard calendar's ten-day shift of the
/// dates before 1582-10-15.
pub(crate) fn leap_ymd_hms<T: IsLeap>(timestamp: i64, reform: bool) -> (r: (i64, u8, u8, u8, u8, u8))
    requires
        T::leap_calendar() != Calendar::Day360,
        reform == (T::leap_calendar() == Calendar::Standard),
    ensures
        r == civil_of(T::leap_calendar(), timestamp as int),
{
    let ghost cal = T::leap_calendar();
    let days: i64 = match timestamp.checked_div_euclid(SECS_PER_DAY) {
        Some(d) => d,
        None => 0,
    };
    let mut shifted = days;
    if reform {
        proof {
            lemma_days_to_year_bound(cal, 1582);
        }
        let first_gregorian: i64 = match day_number_checked::<T>(1582, 10, 15) {
            Some(n) => n as i64,
            None => 0,
        };
        if days < first_gregorian {
            shifted = days - 10;
        }
    }
    let (year, month, day) = civil_from_days::<T>(shifted);
    let (hour, min, sec) = get_hms_from_timestamp(timestamp);
    let r = (year, month, day, hour, min, sec);
    proof {
        let (y, m, d) = (year as int, month as int, day as int);
        if reform {
            let g = day_number(cal, 1582, 10, 15);
            if days >= g {
                if before_reform(y, m, d) {
                    lemma_day_number_order(cal, y, m, d, 1582, 10, 15);
                }
            } else {
                assert(day_number(cal, 1582, 10, 5) == g - 10);
                if !date_lt(y, m, d, 1582, 10, 5) && !(y == 1582 && m == 10 && d == 5) {
                    lemma_day_number_order(cal, 1582, 10, 5, y, m, d);
                }
            }
        }
        assert(civil_day(cal, y, m, d) == days);
        assert(valid_date(cal, y, m, d));
        assert(valid_ymdhms(cal, r));
        lemma_civil_of_unique(cal, r, timestamp as int);
    }
    r
}

/// The reference datetime and unit of `units` in `calendar`, or the kind of
/// error that stops them: the reference date, time and nanoseconds of the
/// units string, at its offset from UTC (UTC when none is given).
pub open spec fn reference_outcome(units: Seq<char>, calendar: Calendar) -> Result<
    (DatetimeView, Unit),
    ErrorKind,
> {
    match parse_spec(units) {
        Err(k) => Err(k),
        Ok(p) => {
            let (y, m, d) = p.datetime.ymd;
            let (h, mi, s, ns) = match p.datetime.hms {
                Some(t) => t,
                None => (0u8, 0u8, 0u8, 0u32),
            };
            let (th, tm) = match p.datetime.tz {
                Some(t) => t,
                None => (0i8, 0u8),
            };
            match creation_outcome(
                calendar,
                y as int,
                m as int,
                d as int,
                h as int,
                mi as int,
                s as int,
                ns as int,
            ) {
                Err(k) => Err(k),
                Ok(ts) => if !valid_tz(th as int, tm as int) {
                    Err(ErrorKind::InvalidTz)
                } else {
                    Ok(
                        (
                            DatetimeView {
                                timestamp: ts as i64,
                                nanoseconds: ns,
                                tz: Tz { hour: th, minute: tm },
                                calendar,
                            },
                            p.unit,
                        ),
                    )
                },
            }
        },
    }
}

/// The reference datetime and unit of `units` in `calendar`.
pub fn get_datetime_and_unit_from_units(units: &str, calendar: Calendar) -> (r: Result<(CFDatetime, Unit), Error>)
    ensures
        match r {
            Ok((v, u)) => reference_outcome(units@, calendar) == Ok::<(DatetimeView, Unit), ErrorKind>(
                (v@, u),
            ),
            Err(e) => reference_outcome(units@, calendar) == Err::<(DatetimeView, Unit), ErrorKind>(
                e.spec_kind(),
            ),
        },
{
    let parsed_cf_time = parse_cf_time(units)?;
    let (year, month, day) = parsed_cf_time.datetime.ymd;
    let (hour, minute, second, nanosecond) = match parsed_cf_time.datetime.hms {
        Some(hms) => hms,
        None => (0, 0, 0, 0),
    };
    let (tz_hour, tz_minute) = match parsed_cf_time.datetime.tz {
        Some(tz) => tz,
        None => (0, 0),
    };
    let cf_datetime = CFDatetime::from_ymd_hms_ns(
        year,
        month,
        day,
        hour,
        minute,
        second,
        nanosecond,
        calendar,
    )?;
    let tz = Tz::new(tz_hour, tz_minute)?;
    Ok((cf_datetime.with_timezone(tz), parsed_cf_time.unit))
}

/// Nanoseconds in a year when a duration is read back in years: the mean
/// year of the calendar.
pub open spec fn year_readback_ns(calendar: Calendar) -> int {
    match calendar {
        Calendar::Standard | Calendar::ProlepticGregorian => 31556925974700000,
        Calendar::NoLeap => 31536000000000000,
        Calendar::AllLeap => 31622400000000000,
        Calendar::Julian => 31557600000000000,
        Calendar::Day360 => 31104000000000000,
    }
}

/// How many `unit`s of `calendar` a span of `total` nanoseconds makes, as
/// the fraction `total * numerator / denominator`.
pub open spec fn readback_fraction(unit: Unit, calendar: Calendar) -> (int, int) {
    match unit {
        Unit::Year => (1, year_readback_ns(calendar)),
        Unit::Month => (12, year_readback_ns(calendar)),
        Unit::Day => (1, 86_400_000_000_000),
        Unit::Hour => (1, 3_600_000_000_000),
        Unit::Minute => (1, 60_000_000_000),
        Unit::Second => (1, 1_000_000_000),
        Unit::Millisecond => (1, 1_000_000),
        Unit::Microsecond => (1, 1000),
        Unit::Nanosecond => (1, 1),
    }
}

/// `a / b` rounded toward zero, for `b` above zero.
pub open spec fn trunc_div(a: int, b: int) -> int {
    if a >= 0 {
        a / b
    } else {
        -((-a) / b)
    }
}

/// The whole number of `unit`s of `calendar` in `total` nanoseconds,
/// rounded toward zero.
pub open spec fn encoded_value(unit: Unit, calendar: Calendar, total: int) -> int {
    let (num, den) = readback_fraction(unit, calendar);
    trunc_div(total * num, den)
}

/// The whole number of `unit`s in `duration`, rounded toward zero, years
/// and months being the calendar's mean year and a twelfth of it.
pub fn unit_to_encode(unit: &Unit, duration: &CFDuration) -> (r: i128)
    ensures
        r == encoded_value(*unit, duration.calendar, duration.total_ns()),
{
    let year_ns: i128 = match duration.calendar {
        Calendar::Standard | Calendar::ProlepticGregorian => 31556925974700000,
        Calendar::NoLeap => 31536000000000000,
        Calendar::AllLeap => 31622400000000000,
        Calendar::Julian => 31557600000000000,
        Calendar::Day360 => 31104000000000000,
    };
    let (num, den): (i128, i128) = match unit {
        Unit::Year => (1, year_ns),
        Unit::Month => (12, year_ns),
        Unit::Day => (1, 86_400_000_000_000),
        Unit::Hour => (1, 3_600_000_000_000),
        Unit::Minute => (1, 60_000_000_000),
        Unit::Second => (1, 1_000_000_000),
        Unit::Millisecond => (1, 1_000_000),
        Unit::Microsecond => (1, 1000),
        Unit::Nanosecond => (1, 1),
    };
    let total: i128 = duration.seconds as i128 * 1_000_000_000 + duration.nanoseconds as i128;
    let scaled: i128 = total * num;
    if scaled >= 0 {
        match scaled.checked_div_euclid(den) {
            Some(q) => q,
            None => 0,
        }
    } else {
        match (-scaled).checked_div_euclid(den) {
            Some(q) => -q,
            None => 0,
        }
    }
}

/// A duration of one unit reads back as exactly one of that unit, for
/// every unit from days down to nanoseconds; one year or one month reads
/// back within a millionth of one.
pub proof fn lemma_unit_read_back(unit: Unit, calendar: Calendar)
    ensures
        unit != Unit::Year && unit != Unit::Month ==> encoded_value(
            unit,
            calendar,
            crate::parser::unit_nanoseconds(unit, calendar),
        ) == 1,
        ({
            let (num, den) = readback_fraction(unit, calendar);
            let ns = crate::parser::unit_nanoseconds(unit, calendar);
            1_000_000 * (if ns * num >= den {
                ns * num - den
            } else {
                den - ns * num
            }) < den
        }),
{
    match unit {
        Unit::Day => assert(86_400_000_000_000int / 86_400_000_000_000int == 1),
        Unit::Hour => assert(3_600_000_000_000int / 3_600_000_000_000int == 1),
        Unit::Minute => assert(60_000_000_000int / 60_000_000_000int == 1),
        Unit::Second => assert(1_000_000_000int / 1_000_000_000int == 1),
        Unit::Millisecond => assert(1_000_000int / 1_000_000int == 1),
        Unit::Microsecond => assert(1000int / 1000int == 1),
        Unit::Nanosecond => assert(1int / 1int == 1),
        _ => {},
    }
}

} // verus!
