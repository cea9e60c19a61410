use cftime_rs::calendars::Calendar;
use cftime_rs::datetime::CFDatetime;
use cftime_rs::duration::CFDuration;

#[test]
fn test_timestamp_zero_standard() {
    let (year, month, day) = (1970, 1, 1);
    let d = CFDatetime::from_ymd(year, month, day, Calendar::Standard).unwrap();
    assert_eq!(0, d.timestamp());
}

#[test]
fn test_timestamp_20230101_standard() {
    let (year, month, day) = (2023, 1, 1);
    let d = CFDatetime::from_ymd(year, month, day, Calendar::Standard).unwrap();
    assert_eq!(1672531200, d.timestamp());
}

#[test]
fn test_impossible_date_gregorian() {
    let (year, month, day) = (1582, 10, 8);
    let d = CFDatetime::from_ymd(year, month, day, Calendar::Standard);
    assert!(d.is_err());
}

#[test]
fn test_timestamp_minus_one_all_calendars() {
    let cals = vec![
        Calendar::Standard,
        Calendar::ProlepticGregorian,
        Calendar::Julian,
        Calendar::NoLeap,
        Calendar::AllLeap,
    ];
    for cal in cals {
        let d = CFDatetime::from_timestamp(-1, 0, cal);
        assert_eq!((1969, 12, 31, 23, 59, 59), d.unwrap().ymd_hms().unwrap());
    }
}

#[test]
fn test_timestamp_limit_gregorian_julian() {
    let lower_limit_gregorian = CFDatetime::from_timestamp(-12219292800, 0, Calendar::Standard);
    let upper_limit_julian = CFDatetime::from_timestamp(-12219292801, 0, Calendar::Standard);
    assert_eq!(
        lower_limit_gregorian.unwrap().ymd_hms().unwrap(),
        (1582, 10, 15, 0, 0, 0)
    );
    assert_eq!(
        upper_limit_julian.unwrap().ymd_hms().unwrap(),
        (1582, 10, 4, 23, 59, 59)
    );
}

#[test]
fn test_idempotence_all_calendars() {
    let dates = vec![
        (1970, 1, 1),
        (1972, 1, 1),
        (1980, 1, 1),
        (2020, 1, 1),
        (100_000, 1, 1),
        (1980, 6, 15),
        (1969, 1, 1),
        (-1_000_000, 1, 1),
        (-100_000, 1, 1),
        (1960, 1, 1),
        (1980, 6, 15),
        (2001, 1, 3),
    ];
    let cals = vec![
        Calendar::Day360,
        Calendar::Standard,
        Calendar::ProlepticGregorian,
        Calendar::Julian,
        Calendar::NoLeap,
        Calendar::AllLeap,
    ];
    for cal in cals {
        for date in dates.clone() {
            let (year, month, day) = date;
            let datetime: CFDatetime = CFDatetime::from_ymd(year, month, day, cal).unwrap();
            let (expected_year, expected_month, expected_day) = datetime.ymd().unwrap();
            assert_eq!(expected_year, year);
            assert_eq!(expected_month, month);
            assert_eq!(expected_day, day);
        }
    }
}

#[test]
fn test_add_duration() {
    let cals = vec![
        Calendar::Day360,
        Calendar::Standard,
        Calendar::ProlepticGregorian,
        Calendar::Julian,
        Calendar::NoLeap,
        Calendar::AllLeap,
    ];
    for calendar in cals {
        let duration_expected = vec![
            (CFDuration::from_hours(1, calendar), (1970, 1, 1, 1, 0, 0)),
            (CFDuration::from_minutes(1, calendar), (1970, 1, 1, 0, 1, 0)),
            (CFDuration::from_seconds(1, calendar), (1970, 1, 1, 0, 0, 1)),
            (CFDuration::from_days(1, calendar), (1970, 1, 2, 0, 0, 0)),
        ];
        for (duration, expected) in duration_expected {
            let datetime = CFDatetime::from_ymd(1970, 1, 1, calendar).unwrap();
            let new_datetime = datetime.add_duration(&duration);
            assert_eq!(new_datetime.unwrap().ymd_hms().unwrap(), expected);
        }
    }
}

#[test]
fn test_timestamp() {
    let timestamp_expected = vec![
        (0, (1970, 1, 1, 0, 0, 0)),
        (315532800, (1980, 1, 1, 0, 0, 0)),
        (631152000, (1990, 1, 1, 0, 0, 0)),
        (946684800, (2000, 1, 1, 0, 0, 0)),
        (949363200, (2000, 2, 1, 0, 0, 0)),
        (957139200, (2000, 5, 1, 0, 0, 0)),
        (946771200, (2000, 1, 2, 0, 0, 0)),
        (946857600, (2000, 1, 3, 0, 0, 0)),
    ];
    for (timestamp, expected) in timestamp_expected {
        let datetime = CFDatetime::from_timestamp(timestamp, 0, Calendar::Standard);
        assert_eq!(datetime.unwrap().ymd_hms().unwrap(), expected);
    }
}
