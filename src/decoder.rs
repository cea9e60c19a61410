//! Numeric offsets to datetimes: `value` units after the reference datetime
//! of a units string.

use crate::calendars::Calendar;
use crate::datetime::{instant, view_at, CFDatetime};
use crate::datetimes::traits::DatetimeView;
use crate::duration::{fits_seconds, CFDuration};
use crate::errors::{Error, ErrorKind};
use crate::parser::unit_nanoseconds;
use crate::utils::{get_datetime_and_unit_from_units, reference_outcome};
use vstd::prelude::*;

verus! {

/// The datetime `value` units after `reference`, or the kind of error that
/// stops it.
pub open spec fn offset_outcome(reference: DatetimeView, unit_ns: int, value: int) -> Result<
    DatetimeView,
    ErrorKind,
> {
    let offset = unit_ns * value;
    if !fits_seconds(offset) || !fits_seconds(instant(reference) + offset) {
        Err(ErrorKind::OutOfBoundsCalendar)
    } else {
        Ok(view_at(reference.calendar, instant(reference) + offset, reference.tz))
    }
}

/// What decoding `value` with `units` in `calendar` gives, or the kind of
/// error that stops it.
pub open spec fn decode_outcome(units: Seq<char>, calendar: Calendar, value: int) -> Result<
    DatetimeView,
    ErrorKind,
> {
    match reference_outcome(units, calendar) {
        Err(k) => Err(k),
        Ok((reference, unit)) => offset_outcome(
            reference,
            unit_nanoseconds(unit, calendar),
            value,
        ),
    }
}

/// The datetime `value` times `duration` after `reference`.
fn decode_with(reference: &CFDatetime, duration: &CFDuration, value: i64) -> (r: Result<CFDatetime, Error>)
    requires
        duration.calendar == reference@.calendar,
    ensures
        match r {
            Ok(v) => offset_outcome(reference@, duration.total_ns(), value as int) == Ok::<
                DatetimeView,
                ErrorKind,
            >(v@),
            Err(e) => offset_outcome(reference@, duration.total_ns(), value as int) == Err::<
                DatetimeView,
                ErrorKind,
            >(e.spec_kind()),
        },
{
    let offset = duration.scale(value)?;
    reference.add_duration(&offset)
}

/// Decoding of one numeric offset.
pub trait CFDecoder {
    /// The offset as a number.
    spec fn offset_value(&self) -> int;

    /// The datetime `self` units after the reference datetime of `units`, in
    /// `calendar`.
    fn decode_cf(&self, units: &str, calendar: Calendar) -> (r: Result<CFDatetime, Error>)
        ensures
            match r {
                Ok(v) => decode_outcome(units@, calendar, self.offset_value()) == Ok::<
                    DatetimeView,
                    ErrorKind,
                >(v@),
                Err(e) => decode_outcome(units@, calendar, self.offset_value()) == Err::<
                    DatetimeView,
                    ErrorKind,
                >(e.spec_kind()),
            },
    ;
}

/// The datetime `value` units after the reference datetime of `units`.
fn decode_value(value: i64, units: &str, calendar: Calendar) -> (r: Result<CFDatetime, Error>)
    ensures
        match r {
            Ok(v) => decode_outcome(units@, calendar, value as int) == Ok::<DatetimeView, ErrorKind>(
                v@,
            ),
            Err(e) => decode_outcome(units@, calendar, value as int) == Err::<
                DatetimeView,
                ErrorKind,
            >(e.spec_kind()),
        },
{
    let (cf_datetime, unit) = get_datetime_and_unit_from_units(units, calendar)?;
    let duration = unit.to_duration(calendar);
    decode_with(&cf_datetime, &duration, value)
}

impl CFDecoder for i64 {
    open spec fn offset_value(&self) -> int {
        *self as int
    }

    fn decode_cf(&self, units: &str, calendar: Calendar) -> (r: Result<CFDatetime, Error>) {
        decode_value(*self, units, calendar)
    }
}

impl CFDecoder for i32 {
    open spec fn offset_value(&self) -> int {
        *self as int
    }

    fn decode_cf(&self, units: &str, calendar: Calendar) -> (r: Result<CFDatetime, Error>) {
        decode_value(*self as i64, units, calendar)
    }
}

/// Decoding of a sequence of numeric offsets that share one units string.
pub trait VecCFDecoder {
    /// The offsets as numbers.
    spec fn offset_values(&self) -> Seq<int>;

    /// The datetimes of the offsets, the units string parsed once; the first
    /// error fails the whole sequence.
    fn decode_cf(&self, units: &str, calendar: Calendar) -> (r: Result<Vec<CFDatetime>, Error>)
        ensures
            decoded_all(units@, calendar, self.offset_values(), r),
    ;
}

/// The offsets of a sequence of `i64`.
pub open spec fn widen(v: Seq<i64>) -> Seq<int> {
    Seq::new(v.len(), |i: int| v[i] as int)
}

/// What decoding `values` with `units` in `calendar` gives: every datetime,
/// in order, or the error of the units string or of the first offset that
/// fails.
pub open spec fn decoded_all(
    units: Seq<char>,
    calendar: Calendar,
    values: Seq<int>,
    r: Result<Vec<CFDatetime>, Error>,
) -> bool {
    match r {
        Ok(v) => reference_outcome(units, calendar) is Ok && v@.len() == values.len() && forall|
            i: int,
        |
            0 <= i < v@.len() ==> decode_outcome(units, calendar, values[i]) == Ok::<
                DatetimeView,
                ErrorKind,
            >(#[trigger] v@[i]@),
        Err(e) => reference_outcome(units, calendar) == Err::<
            (DatetimeView, crate::parser::Unit),
            ErrorKind,
        >(e.spec_kind()) || exists|i: int|
            0 <= i < values.len() && decode_outcome(units, calendar, #[trigger] values[i]) == Err::<
                DatetimeView,
                ErrorKind,
            >(e.spec_kind()) && forall|j: int|
                0 <= j < i ==> decode_outcome(units, calendar, values[j]) is Ok,
    }
}

/// The datetimes of `values` units after the reference datetime of `units`.
fn decode_values(values: &Vec<i64>, units: &str, calendar: Calendar) -> (r: Result<
    Vec<CFDatetime>,
    Error,
>)
    ensures
        decoded_all(units@, calendar, widen(values@), r),
{
    let (cf_datetime, unit) = get_datetime_and_unit_from_units(units, calendar)?;
    let duration = unit.to_duration(calendar);
    let mut datetimes: Vec<CFDatetime> = Vec::new();
    let mut i: usize = 0;
    while i < values.len()
        invariant
            i <= values@.len(),
            reference_outcome(units@, calendar) == Ok::<(DatetimeView, crate::parser::Unit), ErrorKind>(
                (cf_datetime@, unit),
            ),
            duration.calendar == calendar,
            duration.total_ns() == unit_nanoseconds(unit, calendar),
            cf_datetime@.calendar == calendar,
            datetimes@.len() == i,
            forall|j: int|
                0 <= j < i ==> decode_outcome(units@, calendar, values@[j] as int) == Ok::<
                    DatetimeView,
                    ErrorKind,
                >(#[trigger] datetimes@[j]@),
        decreases values@.len() - i,
    {
        match decode_with(&cf_datetime, &duration, values[i]) {
            Ok(d) => datetimes.push(d),
            Err(e) => {
                assert forall|j: int| 0 <= j < i implies decode_outcome(
                    units@,
                    calendar,
                    widen(values@)[j],
                ) is Ok by {
                    assert(decode_outcome(units@, calendar, values@[j] as int) == Ok::<
                        DatetimeView,
                        ErrorKind,
                    >(datetimes@[j]@));
                }
                assert(decode_outcome(units@, calendar, widen(values@)[i as int]) == Err::<
                    DatetimeView,
                    ErrorKind,
                >(e.spec_kind()));
                return Err(e);
            },
        }
        i = i + 1;
    }
    assert forall|j: int| 0 <= j < datetimes@.len() implies decode_outcome(
        units@,
        calendar,
        widen(values@)[j],
    ) == Ok::<DatetimeView, ErrorKind>(#[trigger] datetimes@[j]@) by {
        assert(decode_outcome(units@, calendar, values@[j] as int) == Ok::<DatetimeView, ErrorKind>(
            datetimes@[j]@,
        ));
    }
    Ok(datetimes)
}

impl VecCFDecoder for Vec<i64> {
    open spec fn offset_values(&self) -> Seq<int> {
        widen(self@)
    }

    fn decode_cf(&self, units: &str, calendar: Calendar) -> (r: Result<Vec<CFDatetime>, Error>) {
        decode_values(self, units, calendar)
    }
}

impl VecCFDecoder for Vec<i32> {
    open spec fn offset_values(&self) -> Seq<int> {
        Seq::new(self@.len(), |i: int| self@[i] as int)
    }

    fn decode_cf(&self, units: &str, calendar: Calendar) -> (r: Result<Vec<CFDatetime>, Error>) {
        let mut wide: Vec<i64> = Vec::new();
        let mut i: usize = 0;
        while i < self.len()
            invariant
                i <= self@.len(),
                wide@.len() == i,
                forall|j: int| 0 <= j < i ==> #[trigger] wide@[j] as int == self@[j] as int,
            decreases self@.len() - i,
        {
            wide.push(self[i] as i64);
            i = i + 1;
        }
        assert(widen(wide@) =~= self.offset_values());
        decode_values(&wide, units, calendar)
    }
}

} // verus!
