use cftime_rs::calendars::Calendar;
use cftime_rs::datetime::CFDatetime;
use cftime_rs::decoder::{CFDecoder, VecCFDecoder};
use cftime_rs::duration::CFDuration;
use cftime_rs::encoder::CFEncoder;
use cftime_rs::errors::{Error, ErrorKind};
use cftime_rs::parser::{parse_cf_time, Unit};
use cftime_rs::timezone::Tz;
use cftime_rs::utils::{
    get_hms_from_timestamp, get_timestamp_from_hms, is_leap_gregorian, is_leap_julian,
    normalize_nanoseconds, unit_to_encode,
};

const ALL: [Calendar; 6] = [
    Calendar::Standard,
    Calendar::ProlepticGregorian,
    Calendar::NoLeap,
    Calendar::AllLeap,
    Calendar::Julian,
    Calendar::Day360,
];

#[test]
fn round_trip_with_time_and_nanoseconds() {
    let dates = [
        (1582, 10, 4, 23, 59, 59),
        (1582, 10, 15, 0, 0, 0),
        (2000, 2, 28, 12, 30, 15),
        (-4713, 1, 1, 12, 0, 0),
        (999_999, 12, 30, 1, 2, 3),
    ];
    for cal in ALL {
        for (y, m, d, h, mi, s) in dates {
            let dt = CFDatetime::from_ymd_hms_ns(y, m, d, h, mi, s, 123_456_789, cal).unwrap();
            assert_eq!(dt.ymd_hms().unwrap(), (y, m, d, h, mi, s));
            assert_eq!(dt.nanoseconds(), 123_456_789);
        }
    }
}

#[test]
fn epoch_is_zero_in_every_calendar() {
    for cal in ALL {
        assert_eq!(CFDatetime::from_ymd(1970, 1, 1, cal).unwrap().timestamp(), 0);
    }
}

#[test]
fn reform_gap_is_rejected_and_skipped() {
    for day in 5..15 {
        let err = CFDatetime::from_ymd(1582, 10, day, Calendar::Standard).err().unwrap();
        assert_eq!(err.kind(), ErrorKind::InvalidDate);
    }
    let before = CFDatetime::from_ymd(1582, 10, 4, Calendar::Standard).unwrap();
    let after = CFDatetime::from_ymd(1582, 10, 15, Calendar::Standard).unwrap();
    assert_eq!(after.timestamp() - before.timestamp(), 86400);
    assert_eq!(after.timestamp(), -12219292800);
    assert!(CFDatetime::from_ymd(1582, 10, 8, Calendar::ProlepticGregorian).is_ok());
}

#[test]
fn second_before_epoch_in_day360() {
    let d = CFDatetime::from_timestamp(-1, 0, Calendar::Day360).unwrap();
    assert_eq!(d.ymd_hms().unwrap(), (1969, 12, 30, 23, 59, 59));
}

#[test]
fn one_unit_reads_back_as_one() {
    for cal in ALL {
        let units = [
            (Unit::Day, CFDuration::from_days(1, cal)),
            (Unit::Hour, CFDuration::from_hours(1, cal)),
            (Unit::Minute, CFDuration::from_minutes(1, cal)),
            (Unit::Second, CFDuration::from_seconds(1, cal)),
            (Unit::Millisecond, CFDuration::from_milliseconds(1, cal)),
            (Unit::Microsecond, CFDuration::from_microseconds(1, cal)),
            (Unit::Nanosecond, CFDuration::from_nanoseconds(1, cal)),
        ];
        for (unit, d) in units {
            assert_eq!(unit_to_encode(&unit, &d), 1);
            assert_eq!(unit.to_duration(cal).seconds, d.seconds);
            assert_eq!(unit.to_duration(cal).nanoseconds, d.nanoseconds);
        }
        let week = CFDuration::from_weeks(1, cal);
        assert_eq!(week.seconds, 7 * 86400);
        let mean_year: f64 = match cal {
            Calendar::Standard | Calendar::ProlepticGregorian => 31556925.9747,
            Calendar::NoLeap => 365.0 * 86400.0,
            Calendar::AllLeap => 366.0 * 86400.0,
            Calendar::Julian => 365.25 * 86400.0,
            Calendar::Day360 => 360.0 * 86400.0,
        };
        let year = CFDuration::from_years(1, cal);
        assert!((year.seconds as f64 / mean_year - 1.0).abs() < 1e-6);
        let month = CFDuration::from_months(1, cal);
        assert!((month.seconds as f64 * 12.0 / mean_year - 1.0).abs() < 1e-6);
    }
}

#[test]
fn standard_year_is_truncated_seconds() {
    assert_eq!(CFDuration::from_years(1, Calendar::Standard).seconds, 31556925);
    assert_eq!(CFDuration::from_months(1, Calendar::Standard).seconds, 2629743);
    assert_eq!(CFDuration::from_years(2, Calendar::Julian).seconds, 63115200);
}

#[test]
fn different_calendars_are_refused() {
    let a = CFDuration::from_days(1, Calendar::Standard);
    let b = CFDuration::from_days(1, Calendar::Julian);
    assert!(matches!(a.add_duration(&b), Err(Error::DifferentCalendars(_, _))));
    assert!(matches!(a.subtract_duration(&b), Err(Error::DifferentCalendars(_, _))));
    let d1 = CFDatetime::from_ymd(2000, 1, 1, Calendar::Standard).unwrap();
    let d2 = CFDatetime::from_ymd(2000, 1, 1, Calendar::NoLeap).unwrap();
    assert!(matches!(d1.difference(&d2), Err(Error::DifferentCalendars(_, _))));
    assert!(matches!(d1.add_duration(&b), Err(Error::DifferentCalendars(_, _))));
    assert!(matches!(d1.subtract_duration(&b), Err(Error::DifferentCalendars(_, _))));
    let e: Result<i64, Error> = d2.encode_cf("days since 2000-01-01", Calendar::Standard);
    assert_eq!(e.err().unwrap().kind(), ErrorKind::DifferentCalendars);
}

#[test]
fn duration_arithmetic_normalizes() {
    let cal = Calendar::NoLeap;
    let half = CFDuration::new(0, -500_000_000, cal);
    assert_eq!((half.seconds, half.nanoseconds), (-1, 500_000_000));
    let sum = CFDuration::from_milliseconds(600, cal)
        .add_duration(&CFDuration::from_milliseconds(600, cal))
        .unwrap();
    assert_eq!((sum.seconds, sum.nanoseconds), (1, 200_000_000));
    let diff = CFDuration::from_seconds(1, cal)
        .subtract_duration(&CFDuration::from_milliseconds(1500, cal))
        .unwrap();
    assert_eq!((diff.seconds, diff.nanoseconds), (-1, 500_000_000));
    let neg = CFDuration::from_milliseconds(1500, cal).neg();
    assert_eq!((neg.seconds, neg.nanoseconds), (-2, 500_000_000));
    let scaled = CFDuration::from_milliseconds(-250, cal).scale(3).unwrap();
    assert_eq!((scaled.seconds, scaled.nanoseconds), (-1, 250_000_000));
    let too_big = CFDuration::from_seconds(i64::MAX, cal).scale(2);
    assert_eq!(too_big.err().unwrap().kind(), ErrorKind::OutOfBoundsCalendar);
}

#[test]
fn datetime_arithmetic_carries_nanoseconds() {
    let cal = Calendar::ProlepticGregorian;
    let dt = CFDatetime::from_timestamp(0, 600_000_000, cal).unwrap();
    let later = dt.add_duration(&CFDuration::from_milliseconds(600, cal)).unwrap();
    assert_eq!((later.timestamp(), later.nanoseconds()), (1, 200_000_000));
    let earlier = dt.subtract_duration(&CFDuration::from_seconds(1, cal)).unwrap();
    assert_eq!((earlier.timestamp(), earlier.nanoseconds()), (-1, 600_000_000));
    let back = later.difference(&dt).unwrap();
    assert_eq!((back.seconds, back.nanoseconds), (0, 600_000_000));
}

#[test]
fn normalize_examples() {
    assert_eq!(normalize_nanoseconds(1_500_000_000), (1, 500_000_000));
    assert_eq!(normalize_nanoseconds(-2_500_000_000), (-3, 500_000_000));
    assert_eq!(normalize_nanoseconds(-500_000_000), (-1, 500_000_000));
    assert_eq!(normalize_nanoseconds(-1_000_000_000), (-1, 0));
}

#[test]
fn leap_rules_around_zero() {
    assert!(is_leap_gregorian(2000));
    assert!(!is_leap_gregorian(1900));
    assert!(is_leap_gregorian(0));
    assert!(is_leap_gregorian(-1));
    assert!(!is_leap_gregorian(-4));
    assert!(is_leap_gregorian(-5));
    assert!(is_leap_gregorian(-401));
    assert!(!is_leap_gregorian(-101));
    assert!(is_leap_julian(1900));
    assert!(is_leap_julian(-1));
    assert!(!is_leap_julian(-4));
}

#[test]
fn time_of_day_helpers() {
    assert_eq!(get_hms_from_timestamp(-1), (23, 59, 59));
    assert_eq!(get_hms_from_timestamp(3723), (1, 2, 3));
    assert_eq!(get_timestamp_from_hms(1, 2, 3, 4).unwrap(), (3723, 4));
    assert_eq!(
        get_timestamp_from_hms(24, 0, 0, 0).err().unwrap().kind(),
        ErrorKind::InvalidTime
    );
}

#[test]
fn error_kinds_of_construction() {
    let cal = Calendar::Julian;
    let e = CFDatetime::from_ymd_hms(2000, 1, 1, 24, 0, 0, cal).err().unwrap();
    assert_eq!(e.kind(), ErrorKind::InvalidTime);
    let e = CFDatetime::from_ymd_hms(2000, 1, 1, 0, 60, 0, cal).err().unwrap();
    assert_eq!(e.kind(), ErrorKind::InvalidTime);
    let e = CFDatetime::from_ymd(2000, 13, 1, cal).err().unwrap();
    assert_eq!(e.kind(), ErrorKind::InvalidDate);
    let e = CFDatetime::from_ymd(2000, 1, 0, cal).err().unwrap();
    assert_eq!(e.kind(), ErrorKind::InvalidDate);
    let e = CFDatetime::from_timestamp(0, 1_000_000_000, cal).err().unwrap();
    assert_eq!(e.kind(), ErrorKind::InvalidTime);
    let e = CFDatetime::new(cal, i64::MAX, 1_000_000_000).err().unwrap();
    assert_eq!(e.kind(), ErrorKind::OutOfBoundsCalendar);
    let e = CFDatetime::from_ymd(i64::MAX, 1, 1, Calendar::Day360).err().unwrap();
    assert_eq!(e.kind(), ErrorKind::OutOfBoundsCalendar);
    assert!(Tz::new(24, 0).is_err());
    assert!(Tz::new(-23, 59).is_ok());
}

#[test]
fn day_past_month_end_runs_on() {
    let a = CFDatetime::from_ymd(2001, 2, 31, Calendar::ProlepticGregorian).unwrap();
    assert_eq!(a.ymd().unwrap(), (2001, 3, 3));
    let b = CFDatetime::from_ymd(2000, 1, 31, Calendar::Day360).unwrap();
    assert_eq!(b.ymd().unwrap(), (2000, 2, 1));
}

#[test]
fn change_of_calendar() {
    let d = CFDatetime::from_ymd(1900, 1, 15, Calendar::ProlepticGregorian).unwrap();
    let j = d.change_calendar(Calendar::Julian).unwrap();
    assert_eq!(j.ymd().unwrap(), (1900, 1, 15));
    assert_eq!(d.timestamp() - j.timestamp(), 86400);
    let same = d.change_calendar_from_timestamp(Calendar::Julian).unwrap();
    assert_eq!(same.timestamp(), d.timestamp());
    assert_eq!(same.ymd().unwrap(), (1900, 1, 16));
    let e = CFDatetime::from_ymd(2000, 2, 30, Calendar::Day360)
        .unwrap()
        .change_calendar(Calendar::Standard);
    assert!(e.is_ok());
}

#[test]
fn parser_error_kinds() {
    let cases = [
        ("days 2000-01-01", ErrorKind::UnitParserError),
        ("days after 2000-01-01", ErrorKind::UnitParserError),
        ("weeks since 2000-01-01", ErrorKind::UnitParserError),
        ("days since 2000/01/01", ErrorKind::UnitParserError),
        ("days since 2000-01-01 00:00", ErrorKind::UnitParserError),
        ("days since 2000-01-01 00:00:00 +01:00:00", ErrorKind::UnitParserError),
        ("days since 2000-01-01 00:00:00 +01:00 extra", ErrorKind::UnitParserError),
        ("days since 2000-aa-01", ErrorKind::ParseIntError),
        ("days since 2000-01-256", ErrorKind::ParseIntError),
        ("days since 2000-01-01 x:00:00", ErrorKind::ParseIntError),
        ("days since 2000-01-01 00:00:00 +x", ErrorKind::ParseIntError),
        ("days since 2000-01-01 00:00:1.2.3", ErrorKind::ParseFloatError),
        ("days since 2000-01-01 00:00:ab", ErrorKind::ParseFloatError),
    ];
    for (units, kind) in cases {
        assert_eq!(parse_cf_time(units).err().unwrap().kind(), kind, "{}", units);
    }
}

#[test]
fn parser_reads_signs_fractions_and_spacing() {
    let p = parse_cf_time("  days\tsince -0001-02-03  04:05:06.000000789123 -07 ").unwrap();
    assert!(p.unit == Unit::Day);
    assert_eq!(p.datetime.ymd, (-1, 2, 3));
    assert_eq!(p.datetime.hms, Some((4, 5, 6, 789)));
    assert_eq!(p.datetime.tz, Some((-7, 0)));
    let q = parse_cf_time("ms since +2000-1-1 0:0:7.").unwrap();
    assert!(q.unit == Unit::Millisecond);
    assert_eq!(q.datetime.ymd, (2000, 1, 1));
    assert_eq!(q.datetime.hms, Some((0, 0, 7, 0)));
}

#[test]
fn reference_datetime_errors_and_offset() {
    let e = 1i64.decode_cf("days since 2000-01-01 00:00:00 +24:00", Calendar::Standard);
    assert_eq!(e.err().unwrap().kind(), ErrorKind::InvalidTz);
    let e = 1i64.decode_cf("days since 1582-10-10", Calendar::Standard);
    assert_eq!(e.err().unwrap().kind(), ErrorKind::InvalidDate);
    let e = 1i64.decode_cf("days since 2000-01-01 25:00:00", Calendar::Standard);
    assert_eq!(e.err().unwrap().kind(), ErrorKind::InvalidTime);
    let d = 1i64
        .decode_cf("seconds since 1970-01-01 00:00:00.5 +02:30", Calendar::NoLeap)
        .unwrap();
    assert_eq!((d.timestamp(), d.nanoseconds()), (1, 500_000_000));
    assert_eq!(d.timezone(), Tz::new(2, 30).unwrap());
}

#[test]
fn decode_units_and_overflow() {
    let d = (-1i32).decode_cf("hours since 2000-01-01", Calendar::Standard).unwrap();
    assert_eq!(d.ymd_hms().unwrap(), (1999, 12, 31, 23, 0, 0));
    let d = 3i64.decode_cf("months since 2000-01-01", Calendar::Day360).unwrap();
    assert_eq!(d.ymd().unwrap(), (2000, 4, 1));
    let d = 1i64.decode_cf("common_years since 2000-01-01", Calendar::NoLeap).unwrap();
    assert_eq!(d.ymd().unwrap(), (2001, 1, 1));
    let e = i64::MAX.decode_cf("days since 2000-01-01", Calendar::Standard);
    assert_eq!(e.err().unwrap().kind(), ErrorKind::OutOfBoundsCalendar);
    let v: Vec<i64> = vec![0, i64::MAX, 1];
    let e = v.decode_cf("days since 2000-01-01", Calendar::Standard);
    assert_eq!(e.err().unwrap().kind(), ErrorKind::OutOfBoundsCalendar);
    let empty: Vec<i64> = vec![];
    assert!(empty.decode_cf("days since 2000-01-01", Calendar::Standard).unwrap().is_empty());
    let e = empty.decode_cf("days since", Calendar::Standard);
    assert_eq!(e.err().unwrap().kind(), ErrorKind::UnitParserError);
}

#[test]
fn encode_rounds_toward_zero_and_saturates() {
    let cal = Calendar::Standard;
    let d = CFDatetime::from_ymd_hms(1969, 12, 31, 23, 59, 30, cal).unwrap();
    let m: i64 = d.encode_cf("minutes since 1970-01-01", cal).unwrap();
    assert_eq!(m, 0);
    let s: i64 = d.encode_cf("seconds since 1970-01-01", cal).unwrap();
    assert_eq!(s, -30);
    let d = CFDatetime::from_ymd(2023, 1, 1, cal).unwrap();
    let n: i32 = d.encode_cf("microseconds since 1970-01-01", cal).unwrap();
    assert_eq!(n, i32::MAX);
    let days: Vec<i32> = vec![d].encode_cf("days since 2022-12-31", cal).unwrap();
    assert_eq!(days, vec![1]);
    let y = CFDatetime::from_ymd(2001, 1, 1, Calendar::NoLeap).unwrap();
    let years: i64 = y.encode_cf("common_years since 2000-01-01", Calendar::NoLeap).unwrap();
    assert_eq!(years, 1);
    let months: i64 = y.encode_cf("months since 2000-01-01", Calendar::NoLeap).unwrap();
    assert_eq!(months, 12);
}

#[test]
fn calendar_names() {
    assert_eq!(Calendar::from_name("  Proleptic_Gregorian "), Calendar::ProlepticGregorian);
    assert_eq!(Calendar::from_name("gregorian"), Calendar::Standard);
    assert_eq!(Calendar::from_name("DAY365"), Calendar::NoLeap);
    assert_eq!(Calendar::from_name("all_leap"), Calendar::AllLeap);
    assert_eq!(Calendar::from_name("julian"), Calendar::Julian);
    assert_eq!(Calendar::from_name("360_day"), Calendar::Day360);
    assert_eq!(Calendar::from_name("noleap?"), Calendar::Standard);
    let parsed: Calendar = "day366".parse().unwrap();
    assert_eq!(parsed, Calendar::AllLeap);
    assert_eq!(Calendar::ProlepticGregorian.to_string(), "Proleptic Gregorian");
    assert_eq!(Calendar::default(), Calendar::Standard);
}
