//! Datetimes to numeric offsets: how many units of a units string lie
//! between its reference datetime and a datetime.

use crate::calendars::Calendar;
use crate::datetime::{instant, CFDatetime};
use crate::datetimes::traits::DatetimeView;
use crate::duration::fits_seconds;
use crate::errors::{Error, ErrorKind};
use crate::utils::{encoded_value, get_datetime_and_unit_from_units, reference_outcome, unit_to_encode};
use vstd::prelude::*;

verus! {

/// The whole number of units from the reference datetime of `units` to
/// `datetime`, rounded toward zero, or the kind of error that stops it.
pub open spec fn encode_outcome(datetime: DatetimeView, units: Seq<char>, calendar: Calendar) -> Result<
    int,
    ErrorKind,
> {
    match reference_outcome(units, calendar) {
        Err(k) => Err(k),
        Ok((reference, unit)) => if datetime.calendar != reference.calendar {
            Err(ErrorKind::DifferentCalendars)
        } else if !fits_seconds(instant(datetime) - instant(reference)) {
            Err(ErrorKind::OutOfBoundsCalendar)
        } else {
            Ok(encoded_value(unit, calendar, instant(datetime) - instant(reference)))
        },
    }
}

/// `x` brought into `lo` to `hi`.
pub open spec fn clamp(x: int, lo: int, hi: int) -> int {
    if x < lo {
        lo
    } else if x > hi {
        hi
    } else {
        x
    }
}

/// Encoding of datetimes as numeric offsets of type `T`.
pub trait CFEncoder<T> {
    /// Whether `r` is what encoding `self` with `units` in `calendar` gives.
    spec fn encodes_as(&self, units: Seq<char>, calendar: Calendar, r: Result<T, Error>) -> bool;

    /// The offset of `self` in the units of `units`, in `calendar`.
    fn encode_cf(&self, units: &str, calendar: Calendar) -> (r: Result<T, Error>)
        ensures
            self.encodes_as(units@, calendar, r),
    ;
}

/// The offset of `datetime` from `reference` in `unit`s.
fn encode_with(datetime: &CFDatetime, reference: &CFDatetime, unit: &crate::parser::Unit) -> (r: Result<i128, Error>)
    ensures
        reference@.calendar != datetime@.calendar <==> r matches Err(Error::DifferentCalendars(..)),
        reference@.calendar == datetime@.calendar ==> {
            let total = instant(datetime@) - instant(reference@);
            &&& fits_seconds(total) <==> r is Ok
            &&& r matches Ok(v) ==> v == encoded_value(*unit, reference@.calendar, total)
            &&& r matches Err(e) ==> e is OutOfBoundsCalendar
        },
{
    let duration = datetime.difference(reference)?;
    Ok(unit_to_encode(unit, &duration))
}

/// The offset of `datetime` in the units of `units`.
fn encode_value(datetime: &CFDatetime, units: &str, calendar: Calendar) -> (r: Result<i128, Error>)
    ensures
        match r {
            Ok(v) => encode_outcome(datetime@, units@, calendar) == Ok::<int, ErrorKind>(v as int),
            Err(e) => encode_outcome(datetime@, units@, calendar) == Err::<int, ErrorKind>(
                e.spec_kind(),
            ),
        },
{
    let (cf_datetime, unit) = get_datetime_and_unit_from_units(units, calendar)?;
    encode_with(datetime, &cf_datetime, &unit)
}

impl CFEncoder<i64> for CFDatetime {
    /// The offset, brought into the range of `i64`.
    open spec fn encodes_as(&self, units: Seq<char>, calendar: Calendar, r: Result<i64, Error>) -> bool {
        match r {
            Ok(v) => encode_outcome(self@, units, calendar) matches Ok(x) && v == clamp(
                x,
                i64::MIN as int,
                i64::MAX as int,
            ),
            Err(e) => encode_outcome(self@, units, calendar) == Err::<int, ErrorKind>(e.spec_kind()),
        }
    }

    fn encode_cf(&self, units: &str, calendar: Calendar) -> (r: Result<i64, Error>) {
        let v = encode_value(self, units, calendar)?;
        Ok(saturate_i64(v))
    }
}

impl CFEncoder<i32> for CFDatetime {
    /// The offset, brought into the range of `i32`.
    open spec fn encodes_as(&self, units: Seq<char>, calendar: Calendar, r: Result<i32, Error>) -> bool {
        match r {
            Ok(v) => encode_outcome(self@, units, calendar) matches Ok(x) && v == clamp(
                x,
                i32::MIN as int,
                i32::MAX as int,
            ),
            Err(e) => encode_outcome(self@, units, calendar) == Err::<int, ErrorKind>(e.spec_kind()),
        }
    }

    fn encode_cf(&self, units: &str, calendar: Calendar) -> (r: Result<i32, Error>) {
        let v = encode_value(self, units, calendar)?;
        Ok(saturate_i32(v))
    }
}

/// `v` brought into the range of `i64`.
fn saturate_i64(v: i128) -> (r: i64)
    ensures
        r == clamp(v as int, i64::MIN as int, i64::MAX as int),
{
    if v < i64::MIN as i128 {
        i64::MIN
    } else if v > i64::MAX as i128 {
        i64::MAX
    } else {
        v as i64
    }
}

/// `v` brought into the range of `i32`.
fn saturate_i32(v: i128) -> (r: i32)
    ensures
        r == clamp(v as int, i32::MIN as int, i32::MAX as int),
{
    if v < i32::MIN as i128 {
        i32::MIN
    } else if v > i32::MAX as i128 {
        i32::MAX
    } else {
        v as i32
    }
}

/// The error of the units string, or of the first of `datetimes` whose
/// encoding fails, is of kind `k`.
pub open spec fn first_failure(
    units: Seq<char>,
    calendar: Calendar,
    datetimes: Seq<CFDatetime>,
    k: ErrorKind,
) -> bool {
    reference_outcome(units, calendar) == Err::<(DatetimeView, crate::parser::Unit), ErrorKind>(k)
        || exists|i: int|
        0 <= i < datetimes.len() && encode_outcome(#[trigger] datetimes[i]@, units, calendar) == Err::<
            int,
            ErrorKind,
        >(k) && forall|j: int| 0 <= j < i ==> encode_outcome(datetimes[j]@, units, calendar) is Ok
}

/// The offset of `datetime` is `value` once brought into `lo` to `hi`.
pub open spec fn encodes_to(
    datetime: CFDatetime,
    units: Seq<char>,
    calendar: Calendar,
    lo: int,
    hi: int,
    value: int,
) -> bool {
    encode_outcome(datetime@, units, calendar) is Ok && value == clamp(
        encode_outcome(datetime@, units, calendar)->Ok_0,
        lo,
        hi,
    )
}

/// The offsets of `datetimes`, the units string parsed once, each brought
/// into `lo` to `hi`.
fn encode_values(datetimes: &Vec<CFDatetime>, units: &str, calendar: Calendar) -> (r: Result<
    Vec<i128>,
    Error,
>)
    ensures
        match r {
            Ok(v) => reference_outcome(units@, calendar) is Ok && v@.len() == datetimes@.len()
                && forall|i: int|
                0 <= i < v@.len() ==> encode_outcome(datetimes@[i]@, units@, calendar) == Ok::<
                    int,
                    ErrorKind,
                >(#[trigger] v@[i] as int),
            Err(e) => first_failure(units@, calendar, datetimes@, e.spec_kind()),
        },
{
    let (cf_datetime, unit) = get_datetime_and_unit_from_units(units, calendar)?;
    let mut result: Vec<i128> = Vec::new();
    let mut i: usize = 0;
    while i < datetimes.len()
        invariant
            i <= datetimes@.len(),
            reference_outcome(units@, calendar) == Ok::<(DatetimeView, crate::parser::Unit), ErrorKind>(
                (cf_datetime@, unit),
            ),
            cf_datetime@.calendar == calendar,
            result@.len() == i,
            forall|j: int|
                0 <= j < i ==> encode_outcome(datetimes@[j]@, units@, calendar) == Ok::<
                    int,
                    ErrorKind,
                >(#[trigger] result@[j] as int),
        decreases datetimes@.len() - i,
    {
        match encode_with(&datetimes[i], &cf_datetime, &unit) {
            Ok(v) => result.push(v),
            Err(e) => {
                assert forall|j: int| 0 <= j < i implies encode_outcome(
                    datetimes@[j]@,
                    units@,
                    calendar,
                ) is Ok by {
                    assert(encode_outcome(datetimes@[j]@, units@, calendar) == Ok::<int, ErrorKind>(
                        result@[j] as int,
                    ));
                }
                assert(encode_outcome(datetimes@[i as int]@, units@, calendar) == Err::<
                    int,
                    ErrorKind,
                >(e.spec_kind()));
                return Err(e);
            },
        }
        i = i + 1;
    }
    Ok(result)
}

impl CFEncoder<Vec<i64>> for Vec<CFDatetime> {
    /// The offsets, each brought into the range of `i64`, or the first error.
    open spec fn encodes_as(&self, units: Seq<char>, calendar: Calendar, r: Result<Vec<i64>, Error>) -> bool {
        match r {
            Ok(v) => reference_outcome(units, calendar) is Ok && v@.len() == self@.len() && forall|
                i: int,
            |
                0 <= i < v@.len() ==> encodes_to(
                    self@[i],
                    units,
                    calendar,
                    i64::MIN as int,
                    i64::MAX as int,
                    #[trigger] v@[i] as int,
                ),
            Err(e) => first_failure(units, calendar, self@, e.spec_kind()),
        }
    }

    fn encode_cf(&self, units: &str, calendar: Calendar) -> (r: Result<Vec<i64>, Error>) {
        let wide = match encode_values(self, units, calendar) {
            Ok(w) => w,
            Err(e) => return Err(e),
        };
        let mut out: Vec<i64> = Vec::new();
        let mut i: usize = 0;
        while i < wide.len()
            invariant
                i <= wide@.len(),
                wide@.len() == self@.len(),
                out@.len() == i,
                forall|j: int|
                    0 <= j < wide@.len() ==> encode_outcome(self@[j]@, units@, calendar) == Ok::<
                        int,
                        ErrorKind,
                    >(#[trigger] wide@[j] as int),
                forall|j: int|
                    0 <= j < i ==> encodes_to(
                        self@[j],
                        units@,
                        calendar,
                        i64::MIN as int,
                        i64::MAX as int,
                        #[trigger] out@[j] as int,
                    ),
            decreases wide@.len() - i,
        {
            let v = saturate_i64(wide[i]);
            assert(encode_outcome(self@[i as int]@, units@, calendar) == Ok::<int, ErrorKind>(
                wide@[i as int] as int,
            ));
            out.push(v);
            i = i + 1;
        }
        Ok(out)
    }
}

impl CFEncoder<Vec<i32>> for Vec<CFDatetime> {
    /// The offsets, each brought into the range of `i32`, or the first error.
    open spec fn encodes_as(&self, units: Seq<char>, calendar: Calendar, r: Result<Vec<i32>, Error>) -> bool {
        match r {
            Ok(v) => reference_outcome(units, calendar) is Ok && v@.len() == self@.len() && forall|
                i: int,
            |
                0 <= i < v@.len() ==> encodes_to(
                    self@[i],
                    units,
                    calendar,
                    i32::MIN as int,
                    i32::MAX as int,
                    #[trigger] v@[i] as int,
                ),
            Err(e) => first_failure(units, calendar, self@, e.spec_kind()),
        }
    }

    fn encode_cf(&self, units: &str, calendar: Calendar) -> (r: Result<Vec<i32>, Error>) {
        let wide = match encode_values(self, units, calendar) {
            Ok(w) => w,
            Err(e) => return Err(e),
        };
        let mut out: Vec<i32> = Vec::new();
        let mut i: usize = 0;
        while i < wide.len()
            invariant
                i <= wide@.len(),
                wide@.len() == self@.len(),
                out@.len() == i,
                forall|j: int|
                    0 <= j < wide@.len() ==> encode_outcome(self@[j]@, units@, calendar) == Ok::<
                        int,
                        ErrorKind,
                    >(#[trigger] wide@[j] as int),
                forall|j: int|
                    0 <= j < i ==> encodes_to(
                        self@[j],
                        units@,
                        calendar,
                        i32::MIN as int,
                        i32::MAX as int,
                        #[trigger] out@[j] as int,
                    ),
            decreases wide@.len() - i,
        {
            let v = saturate_i32(wide[i]);
            assert(encode_outcome(self@[i as int]@, units@, calendar) == Ok::<int, ErrorKind>(
                wide@[i as int] as int,
            ));
            out.push(v);
            i = i + 1;
        }
        Ok(out)
    }
}

} // verus!
