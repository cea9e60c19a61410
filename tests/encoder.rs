use cftime_rs::calendars::Calendar;
use cftime_rs::datetime::CFDatetime;
use cftime_rs::encoder::CFEncoder;

#[test]
fn test_encode_cf() {
    let datetime = CFDatetime::from_ymd(2000, 1, 1, Calendar::Standard).unwrap();
    let result: i64 = datetime
        .encode_cf("seconds since 2000-01-01 00:00:00", Calendar::Standard)
        .unwrap();
    assert_eq!(result, 0);
    let datetime = CFDatetime::from_ymd(2023, 1, 1, Calendar::Standard).unwrap();
    let result: i64 = datetime
        .encode_cf("seconds since 1970-01-01 00:00:00", Calendar::Standard)
        .unwrap();
    assert_eq!(result, 1672531200);
}

#[test]
fn test_vec_encode_cf() {
    let datetimes = vec![
        CFDatetime::from_ymd(2000, 1, 1, Calendar::Standard).unwrap(),
        CFDatetime::from_ymd(2000, 1, 2, Calendar::Standard).unwrap(),
        CFDatetime::from_ymd(2000, 1, 3, Calendar::Standard).unwrap(),
    ];
    let result: Vec<i64> = datetimes
        .encode_cf("seconds since 2000-01-01 00:00:00", Calendar::Standard)
        .unwrap();
    assert_eq!(result, vec![0, 86400, 172800]);
}
