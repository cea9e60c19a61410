//! Fixed offsets from UTC.

use crate::errors::{message_with_value, Error};
use vstd::prelude::*;

verus! {

/// An offset from UTC of `hour` hours and `minute` minutes, without daylight
/// saving.
#[derive(Debug, PartialEq, Eq, Structural, Clone, Copy)]
pub struct Tz {
    pub hour: i8,
    pub minute: u8,
}

/// An offset that `Tz::new` accepts: hours within ±23, minutes up to 59.
pub open spec fn valid_tz(hour: int, minute: int) -> bool {
    -23 <= hour <= 23 && 0 <= minute <= 59
}

/// The offset of UTC itself.
pub open spec fn utc() -> Tz {
    Tz { hour: 0, minute: 0 }
}

impl Tz {
    /// The offset `hour`:`minute`, or `InvalidTz` when it is out of range.
    pub fn new(hour: i8, minute: u8) -> (r: Result<Self, Error>)
        ensures
            valid_tz(hour as int, minute as int) <==> r is Ok,
            r matches Ok(tz) ==> tz.hour == hour && tz.minute == minute,
            r matches Err(e) ==> e is InvalidTz,
    {
        if hour < -23 || hour > 23 {
            return Err(Error::InvalidTz(message_with_value("hour of the offset is out of bounds", hour as i128)));
        }
        if minute > 59 {
            return Err(Error::InvalidTz(message_with_value("minute of the offset is out of bounds", minute as i128)));
        }
        Ok(Self { hour, minute })
    }

    /// The offset of UTC itself.
    pub fn utc() -> (r: Self)
        ensures
            r == utc(),
    {
        Self { hour: 0, minute: 0 }
    }
}

} // verus!
