use cftime_rs::calendars::Calendar;
use cftime_rs::decoder::{CFDecoder, VecCFDecoder};

#[test]
fn test_decode_i64_cf_with_hms() {
    let to_decode = 2;
    let units = "days since 2000-01-01 00:00:00";
    let calendar = Calendar::Standard;

    let result = to_decode.decode_cf(units, calendar);

    assert!(result.is_ok());
    let cf_datetime = result.unwrap();
    let (year, month, day, hour, minute, second) = cf_datetime.ymd_hms().unwrap();
    assert_eq!(
        (year, month, day, hour, minute, second),
        (2000, 1, 3, 0, 0, 0)
    );
}

#[test]
fn test_decode_i32_vec_cf_with_hms() {
    let to_decode = vec![0, 1, 2];
    let units = "days since 2000-01-01 00:00:00";
    let calendar = Calendar::Standard;

    let datetimes_result = to_decode.decode_cf(units, calendar);

    assert!(datetimes_result.is_ok());
    let datetimes = datetimes_result.unwrap();
    for (i, datetime) in datetimes.iter().enumerate() {
        let (year, month, day, hour, minute, second) = datetime.ymd_hms().unwrap();
        assert_eq!(
            (year, month, day, hour, minute, second),
            (2000, 1, (i + 1) as u8, 0, 0, 0)
        );
    }
}
