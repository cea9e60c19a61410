use cftime_rs::errors::Error;
use cftime_rs::parser::{parse_cf_time, ParsedCFTime, ParsedDatetime, Unit};

#[test]
fn test_valid_duration_units() {
    let units = vec![
        ("common_years since 2023-01-01", Unit::Year),
        ("months since 2023-01-01", Unit::Month),
        ("day since 2023-01-01", Unit::Day),
    ];

    for (input, expected_unit) in units {
        let result = parse_cf_time(input).unwrap();
        assert!(result.unit == expected_unit);
        assert_eq!(result.datetime.ymd, (2023, 1, 1));
        assert_eq!(result.datetime.hms, None);
        assert_eq!(result.datetime.tz, None);
        assert_eq!(result.datetime.nanosecond, None);
    }
}

fn expected(
    unit: Unit,
    ymd: (i64, u8, u8),
    hms: Option<(u8, u8, u8, u32)>,
    tz: Option<(i8, u8)>,
) -> ParsedCFTime {
    ParsedCFTime {
        unit,
        datetime: ParsedDatetime {
            ymd,
            hms,
            tz,
            nanosecond: None,
        },
    }
}

#[test]
fn test_valid_date_time_units() {
    let units = vec![
        (
            "seconds since 1992-10-8 15:15:42.5 -6:00",
            expected(
                Unit::Second,
                (1992, 10, 8),
                Some((15, 15, 42, 500_000_000)),
                Some((-6, 0)),
            ),
        ),
        (
            "seconds since 1992-10-08",
            expected(Unit::Second, (1992, 10, 8), None, None),
        ),
        (
            "minutes since 2000-01-01",
            expected(Unit::Minute, (2000, 1, 1), None, None),
        ),
        (
            "hour since 1985-12-31",
            expected(Unit::Hour, (1985, 12, 31), None, None),
        ),
        (
            "seconds since 2022-11-30 10:15:20",
            expected(Unit::Second, (2022, 11, 30), Some((10, 15, 20, 0)), None),
        ),
        (
            "minutes since 2010-05-15 05:30:00",
            expected(Unit::Minute, (2010, 5, 15), Some((5, 30, 0, 0)), None),
        ),
        (
            "hour since 1999-03-20 12:00:01",
            expected(Unit::Hour, (1999, 3, 20), Some((12, 0, 1, 0)), None),
        ),
        (
            "seconds since 2015-07-04 16:45:30 +02:30",
            expected(
                Unit::Second,
                (2015, 7, 4),
                Some((16, 45, 30, 0)),
                Some((2, 30)),
            ),
        ),
        (
            "minutes since 2023-12-25 08:00:00 -05:00",
            expected(
                Unit::Minute,
                (2023, 12, 25),
                Some((8, 0, 0, 0)),
                Some((-5, 0)),
            ),
        ),
        (
            "hour since 2018-09-10 00:00:00 -03:30",
            expected(
                Unit::Hour,
                (2018, 9, 10),
                Some((0, 0, 0, 0)),
                Some((-3, 30)),
            ),
        ),
    ];

    for (input, expected_unit) in units {
        let result = parse_cf_time(input).unwrap();
        assert!(result.unit == expected_unit.unit);
        assert_eq!(result.datetime.ymd, expected_unit.datetime.ymd);
        assert_eq!(result.datetime.hms, expected_unit.datetime.hms);
        assert_eq!(result.datetime.tz, expected_unit.datetime.tz);
        assert_eq!(
            result.datetime.nanosecond,
            expected_unit.datetime.nanosecond
        );
    }
}

#[test]
fn test_not_valid_date_time_units() {
    let units = vec![
        "seconds since 2019-06-15 -07:00",
        "nanoseconds since 2020-01-01 9876543210",
        "invalid_unit since 2023-01-01",
        "hou since 2023-01-01",
        "minutes 2023-01-01",
    ];

    for input in units {
        let result = parse_cf_time(input);
        assert!(matches!(
            result.err().unwrap(),
            Error::UnitParserError(_)
        ))
    }
}
