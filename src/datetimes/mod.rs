//! One datetime type per calendar:
//! Standard, Proleptic Gregorian, Julian, No Leap, All Leap and 360 Day.

pub mod all_leap;
pub mod day_360;
pub mod julian;
pub mod no_leap;
pub mod proleptic_gregorian;
pub mod standard;
pub mod traits;
