//! The errors of the library.

use vstd::prelude::*;
use vstd::string::StringExecFns;

verus! {

/// What went wrong. Each variant carries a message that names the offending
/// value.
#[derive(Debug)]
pub enum Error {
    /// A value lies outside what the timestamps of a calendar can hold.
    OutOfBoundsCalendar(String, String),
    /// A month or day out of range, or a day that the calendar skips.
    InvalidDate(String),
    /// An hour, minute, second or nanosecond out of range.
    InvalidTime(String),
    /// A time-zone offset out of range.
    InvalidTz(String),
    /// A malformed units string.
    UnitParserError(String),
    /// Arithmetic between values of two calendars.
    DifferentCalendars(String, String),
    /// A malformed integer field.
    ParseIntError(String),
    /// A malformed seconds field.
    ParseFloatError(String),
}

/// The variant of an [`Error`], without its message.
#[derive(Debug, PartialEq, Eq, Structural, Copy, Clone)]
pub enum ErrorKind {
    OutOfBoundsCalendar,
    InvalidDate,
    InvalidTime,
    InvalidTz,
    UnitParserError,
    DifferentCalendars,
    ParseIntError,
    ParseFloatError,
}

impl Error {
    /// The variant of the error.
    pub open spec fn spec_kind(&self) -> ErrorKind {
        match self {
            Error::OutOfBoundsCalendar(..) => ErrorKind::OutOfBoundsCalendar,
            Error::InvalidDate(..) => ErrorKind::InvalidDate,
            Error::InvalidTime(..) => ErrorKind::InvalidTime,
            Error::InvalidTz(..) => ErrorKind::InvalidTz,
            Error::UnitParserError(..) => ErrorKind::UnitParserError,
            Error::DifferentCalendars(..) => ErrorKind::DifferentCalendars,
            Error::ParseIntError(..) => ErrorKind::ParseIntError,
            Error::ParseFloatError(..) => ErrorKind::ParseFloatError,
        }
    }

    /// The variant of the error.
    pub fn kind(&self) -> (r: ErrorKind)
        ensures
            r == self.spec_kind(),
    {
        match self {
            Error::OutOfBoundsCalendar(..) => ErrorKind::OutOfBoundsCalendar,
            Error::InvalidDate(..) => ErrorKind::InvalidDate,
            Error::InvalidTime(..) => ErrorKind::InvalidTime,
            Error::InvalidTz(..) => ErrorKind::InvalidTz,
            Error::UnitParserError(..) => ErrorKind::UnitParserError,
            Error::DifferentCalendars(..) => ErrorKind::DifferentCalendars,
            Error::ParseIntError(..) => ErrorKind::ParseIntError,
            Error::ParseFloatError(..) => ErrorKind::ParseFloatError,
        }
    }
}

/// A message that names the offending value: `what` followed by `value`.
pub fn message_with_value(what: &str, value: i128) -> String {
    let mut m = String::from_str(what);
    m.append(": ");
    let v = value.to_string();
    m.append(v.as_str());
    m
}

} // verus!
