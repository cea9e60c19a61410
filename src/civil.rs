//! The mathematical model of the calendars: leap years, month and year
//! lengths, and the day number of a civil date counted from 1970-01-01.

use crate::calendars::Calendar;
use vstd::prelude::*;

verus! {

/// Seconds in a day.
pub open spec fn day_secs() -> int {
    86400
}

/// The magnitude of the year as the leap rules see it: negative years are
/// first moved up by one.
pub open spec fn shifted_year(y: int) -> int {
    if y < 0 {
        -(y + 1)
    } else {
        y
    }
}

/// Julian rule: every fourth year.
pub open spec fn julian_leap(y: int) -> bool {
    shifted_year(y) % 4 == 0
}

/// Gregorian rule: every fourth year, but not centuries unless divisible by 400.
pub open spec fn gregorian_leap(y: int) -> bool {
    let f = shifted_year(y);
    f % 400 == 0 || (f % 4 == 0 && f % 100 != 0)
}

/// Whether year `y` has a 29th of February in `cal`.
pub open spec fn leap_year(cal: Calendar, y: int) -> bool {
    match cal {
        Calendar::Standard => if y < 1582 {
            julian_leap(y)
        } else {
            gregorian_leap(y)
        },
        Calendar::ProlepticGregorian => gregorian_leap(y),
        Calendar::Julian => julian_leap(y),
        Calendar::NoLeap => false,
        Calendar::AllLeap => true,
        Calendar::Day360 => false,
    }
}

} // verus!

verus! {

/// Length of year `y` under the leap rule of `cal` (years of 365 or 366 days).
pub open spec fn year_days(cal: Calendar, y: int) -> int {
    if leap_year(cal, y) {
        366
    } else {
        365
    }
}

/// Length of month `m` (1 to 12) in a year of 365 or 366 days.
pub open spec fn leap_month_days(leap: bool, m: int) -> int {
    if m == 2 {
        if leap {
            29
        } else {
            28
        }
    } else if m == 4 || m == 6 || m == 9 || m == 11 {
        30
    } else {
        31
    }
}

/// Days in the months of year `y` that precede month `m` (1 to 13).
pub open spec fn days_before_month(cal: Calendar, y: int, m: int) -> int {
    let l: int = if leap_year(cal, y) {
        1
    } else {
        0
    };
    if m <= 1 {
        0
    } else if m == 2 {
        31
    } else if m == 3 {
        59 + l
    } else if m == 4 {
        90 + l
    } else if m == 5 {
        120 + l
    } else if m == 6 {
        151 + l
    } else if m == 7 {
        181 + l
    } else if m == 8 {
        212 + l
    } else if m == 9 {
        243 + l
    } else if m == 10 {
        273 + l
    } else if m == 11 {
        304 + l
    } else if m == 12 {
        334 + l
    } else {
        365 + l
    }
}

/// Distance in years from `y` to 1970.
pub open spec fn years_from_epoch(y: int) -> nat {
    if y >= 1970 {
        (y - 1970) as nat
    } else {
        (1970 - y) as nat
    }
}

/// Signed number of days from 1970-01-01 to the first day of year `y`, with
/// the year lengths of `cal`'s leap rule.
pub open spec fn days_to_year(cal: Calendar, y: int) -> int
    decreases years_from_epoch(y),
{
    if y == 1970 {
        0
    } else if y > 1970 {
        days_to_year(cal, y - 1) + year_days(cal, y - 1)
    } else {
        days_to_year(cal, y + 1) - year_days(cal, y)
    }
}

/// Day number, counted from 1970-01-01, of a date under `cal`'s leap rule,
/// without any calendar reform.
pub open spec fn day_number(cal: Calendar, y: int, m: int, d: int) -> int {
    days_to_year(cal, y) + days_before_month(cal, y, m) + d - 1
}

/// A month and day that exist in year `y` under `cal`'s leap rule.
pub open spec fn leap_valid_date(cal: Calendar, y: int, m: int, d: int) -> bool {
    1 <= m <= 12 && 1 <= d <= leap_month_days(leap_year(cal, y), m)
}

/// Lexicographic order on (year, month, day).
pub open spec fn date_lt(y1: int, m1: int, d1: int, y2: int, m2: int, d2: int) -> bool {
    y1 < y2 || (y1 == y2 && (m1 < m2 || (m1 == m2 && d1 < d2)))
}

/// Dates of the Standard calendar that are counted under the Julian rules.
pub open spec fn before_reform(y: int, m: int, d: int) -> bool {
    date_lt(y, m, d, 1582, 10, 15)
}

/// The ten days that the Standard calendar skips: 1582-10-05 to 1582-10-14.
pub open spec fn in_reform_gap(cal: Calendar, y: int, m: int, d: int) -> bool {
    cal == Calendar::Standard && y == 1582 && m == 10 && 5 <= d <= 14
}

/// Length of month `m` of year `y` in `cal`.
pub open spec fn month_days(cal: Calendar, y: int, m: int) -> int {
    if cal == Calendar::Day360 {
        30
    } else {
        leap_month_days(leap_year(cal, y), m)
    }
}

/// A date that exists in `cal`.
pub open spec fn valid_date(cal: Calendar, y: int, m: int, d: int) -> bool {
    1 <= m <= 12 && 1 <= d <= month_days(cal, y, m) && !in_reform_gap(cal, y, m, d)
}

/// Day number, counted from 1970-01-01, of a date of `cal`. A day of the
/// month past the month's end runs on into the next month.
pub open spec fn civil_day(cal: Calendar, y: int, m: int, d: int) -> int {
    match cal {
        Calendar::Day360 => 360 * (y - 1970) + 30 * (m - 1) + d - 1,
        Calendar::Standard => day_number(cal, y, m, d) + if before_reform(y, m, d) {
            10int
        } else {
            0int
        },
        _ => day_number(cal, y, m, d),
    }
}

/// Seconds since midnight.
pub open spec fn time_of_day(h: int, mi: int, s: int) -> int {
    3600 * h + 60 * mi + s
}

/// A time of day: hour below 24, minute and second below 60.
pub open spec fn valid_time(h: int, mi: int, s: int) -> bool {
    0 <= h < 24 && 0 <= mi < 60 && 0 <= s < 60
}

/// Seconds since 1970-01-01T00:00:00 of a civil date and time of `cal`.
pub open spec fn civil_seconds(cal: Calendar, y: int, m: int, d: int, h: int, mi: int, s: int) -> int {
    day_secs() * civil_day(cal, y, m, d) + time_of_day(h, mi, s)
}

/// A date and time as (year, month, day, hour, minute, second).
pub type Ymdhms = (i64, u8, u8, u8, u8, u8);

/// A date and time that exists in `cal`.
pub open spec fn valid_ymdhms(cal: Calendar, c: Ymdhms) -> bool {
    valid_date(cal, c.0 as int, c.1 as int, c.2 as int) && valid_time(c.3 as int, c.4 as int, c.5 as int)
}

/// Seconds since the epoch of a date and time of `cal`.
pub open spec fn ymdhms_seconds(cal: Calendar, c: Ymdhms) -> int {
    civil_seconds(cal, c.0 as int, c.1 as int, c.2 as int, c.3 as int, c.4 as int, c.5 as int)
}

/// The date and time of `cal` that lies `ts` seconds after the epoch.
pub open spec fn civil_of(cal: Calendar, ts: int) -> Ymdhms {
    choose|c: Ymdhms| valid_ymdhms(cal, c) && ymdhms_seconds(cal, c) == ts
}

} // verus!

verus! {

/// Moving one year on adds the length of the year left behind.
pub proof fn lemma_days_to_year_step(cal: Calendar, y: int)
    ensures
        days_to_year(cal, y + 1) == days_to_year(cal, y) + year_days(cal, y),
{
}

/// The first day of a later year comes after the whole of an earlier year.
pub proof fn lemma_days_to_year_mono(cal: Calendar, y1: int, y2: int)
    requires
        y1 < y2,
    ensures
        days_to_year(cal, y1) + year_days(cal, y1) <= days_to_year(cal, y2),
    decreases y2 - y1,
{
    lemma_days_to_year_step(cal, y1);
    if y1 + 1 < y2 {
        lemma_days_to_year_mono(cal, y1 + 1, y2);
    }
}

/// A date lies within its year.
pub proof fn lemma_day_in_year(cal: Calendar, y: int, m: int, d: int)
    requires
        leap_valid_date(cal, y, m, d),
    ensures
        0 <= days_before_month(cal, y, m) + d - 1 < year_days(cal, y),
{
}

/// Within one year, a later month and day has a larger day of the year.
pub proof fn lemma_day_of_year_order(cal: Calendar, y: int, m1: int, d1: int, m2: int, d2: int)
    requires
        leap_valid_date(cal, y, m1, d1),
        leap_valid_date(cal, y, m2, d2),
        m1 < m2 || (m1 == m2 && d1 < d2),
    ensures
        days_before_month(cal, y, m1) + d1 < days_before_month(cal, y, m2) + d2,
{
}

/// Day numbers follow the order of dates.
pub proof fn lemma_day_number_order(
    cal: Calendar,
    y1: int,
    m1: int,
    d1: int,
    y2: int,
    m2: int,
    d2: int,
)
    requires
        leap_valid_date(cal, y1, m1, d1),
        leap_valid_date(cal, y2, m2, d2),
        date_lt(y1, m1, d1, y2, m2, d2),
    ensures
        day_number(cal, y1, m1, d1) < day_number(cal, y2, m2, d2),
{
    if y1 < y2 {
        lemma_days_to_year_mono(cal, y1, y2);
        lemma_day_in_year(cal, y1, m1, d1);
        lemma_day_in_year(cal, y2, m2, d2);
    } else {
        lemma_day_of_year_order(cal, y1, m1, d1, m2, d2);
    }
}

/// Day numbers of a calendar follow the order of its dates, across the
/// Standard calendar's reform too.
pub proof fn lemma_civil_day_order(
    cal: Calendar,
    y1: int,
    m1: int,
    d1: int,
    y2: int,
    m2: int,
    d2: int,
)
    requires
        valid_date(cal, y1, m1, d1),
        valid_date(cal, y2, m2, d2),
        date_lt(y1, m1, d1, y2, m2, d2),
    ensures
        civil_day(cal, y1, m1, d1) < civil_day(cal, y2, m2, d2),
{
    if cal != Calendar::Day360 {
        lemma_day_number_order(cal, y1, m1, d1, y2, m2, d2);
        if cal == Calendar::Standard && before_reform(y1, m1, d1) && !before_reform(y2, m2, d2) {
            // The first date is at most 1582-10-04, the second at least 1582-10-15.
            if date_lt(y1, m1, d1, 1582, 10, 4) {
                lemma_day_number_order(cal, y1, m1, d1, 1582, 10, 4);
            }
            if date_lt(1582, 10, 15, y2, m2, d2) {
                lemma_day_number_order(cal, 1582, 10, 15, y2, m2, d2);
            }
        }
    }
}

/// Distinct datetimes of a calendar lie at distinct seconds: a timestamp
/// names at most one date and time.
pub proof fn lemma_ymdhms_injective(cal: Calendar, a: Ymdhms, b: Ymdhms)
    requires
        valid_ymdhms(cal, a),
        valid_ymdhms(cal, b),
        ymdhms_seconds(cal, a) == ymdhms_seconds(cal, b),
    ensures
        a == b,
{
    let (ya, ma, da) = (a.0 as int, a.1 as int, a.2 as int);
    let (yb, mb, db) = (b.0 as int, b.1 as int, b.2 as int);
    if date_lt(ya, ma, da, yb, mb, db) {
        lemma_civil_day_order(cal, ya, ma, da, yb, mb, db);
    } else if date_lt(yb, mb, db, ya, ma, da) {
        lemma_civil_day_order(cal, yb, mb, db, ya, ma, da);
    }
}

/// Round trip: the date and time found at the seconds of a valid date and
/// time is that date and time.
pub proof fn lemma_civil_round_trip(cal: Calendar, c: Ymdhms)
    requires
        valid_ymdhms(cal, c),
    ensures
        civil_of(cal, ymdhms_seconds(cal, c)) == c,
{
    let ts = ymdhms_seconds(cal, c);
    assert(valid_ymdhms(cal, c) && ymdhms_seconds(cal, c) == ts);
    let found = civil_of(cal, ts);
    lemma_ymdhms_injective(cal, found, c);
}

/// A valid date and time found at `ts` is the one that `civil_of` names.
pub proof fn lemma_civil_of_unique(cal: Calendar, c: Ymdhms, ts: int)
    requires
        valid_ymdhms(cal, c),
        ymdhms_seconds(cal, c) == ts,
    ensures
        civil_of(cal, ts) == c,
{
    lemma_civil_round_trip(cal, c);
}

/// A year lies at most 366 days a year away from 1970, and at least 365.
pub proof fn lemma_days_to_year_bound(cal: Calendar, y: int)
    ensures
        y >= 1970 ==> 365 * (y - 1970) <= days_to_year(cal, y) <= 366 * (y - 1970),
        y < 1970 ==> 366 * (y - 1970) <= days_to_year(cal, y) <= 365 * (y - 1970),
    decreases years_from_epoch(y),
{
    if y > 1970 {
        lemma_days_to_year_bound(cal, y - 1);
    } else if y < 1970 {
        lemma_days_to_year_bound(cal, y + 1);
    }
}

/// One second before the epoch is 1969-12-31T23:59:59 in every calendar
/// whose months follow the leap rules.
pub proof fn lemma_second_before_epoch(cal: Calendar)
    requires
        cal != Calendar::Day360,
    ensures
        civil_of(cal, -1) == (1969i64, 12u8, 31u8, 23u8, 59u8, 59u8),
{
    let c: Ymdhms = (1969i64, 12u8, 31u8, 23u8, 59u8, 59u8);
    lemma_days_to_year_step(cal, 1969);
    assert(ymdhms_seconds(cal, c) == -1);
    lemma_civil_of_unique(cal, c, -1);
}

} // verus!
