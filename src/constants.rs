//! Month lengths and the cumulative day counts derived from them.

use crate::calendars::Calendar;
use crate::civil::{days_before_month, leap_month_days, leap_year};
use vstd::prelude::*;

verus! {

/// Month lengths in a year of 365 days.
pub const DAYS_PER_MONTH: [u8; 12] = [31, 28, 31, 30, 31, 30, 31, 31, 30, 31, 30, 31];

/// Month lengths in a year of 366 days.
pub const DAYS_PER_MONTH_LEAP: [u8; 12] = [31, 29, 31, 30, 31, 30, 31, 31, 30, 31, 30, 31];

/// The running sums of `input`: entry `i` counts the days of the months
/// before month `i + 1`, and the last entry the days of the year.
pub fn cumsum_cal(input: &[u8; 12]) -> (out: [u32; 13])
    ensures
        out@[0] == 0,
        forall|i: int| 1 <= i <= 12 ==> #[trigger] out@[i] == out@[i - 1] + input@[i - 1],
{
    let mut out: [u32; 13] = [0; 13];
    let mut i: usize = 1;
    while i < 13
        invariant
            1 <= i <= 13,
            out@.len() == 13,
            out@[0] == 0,
            forall|j: int| 1 <= j < i ==> #[trigger] out@[j] == out@[j - 1] + input@[j - 1],
            forall|j: int| 0 <= j < i ==> #[trigger] out@[j] <= 255 * j,
        decreases 13 - i,
    {
        let v = out[i - 1] + input[i - 1] as u32;
        out[i] = v;
        i = i + 1;
    }
    out
}

/// The month lengths of a year of `cal` under its leap rule.
pub fn month_lengths(leap: bool) -> (r: &'static [u8; 12])
    ensures
        forall|j: int| 0 <= j < 12 ==> #[trigger] r@[j] == leap_month_days(leap, j + 1),
{
    if leap {
        &DAYS_PER_MONTH_LEAP
    } else {
        &DAYS_PER_MONTH
    }
}

/// The running sums of the month lengths of a year are the days before
/// each month.
pub proof fn lemma_cumsum_days_before_month(input: [u8; 12], out: [u32; 13], cal: Calendar, y: int)
    requires
        out@[0] == 0,
        forall|i: int| 1 <= i <= 12 ==> #[trigger] out@[i] == out@[i - 1] + input@[i - 1],
        forall|j: int| 0 <= j < 12 ==> #[trigger] input@[j] == leap_month_days(leap_year(cal, y), j + 1),
    ensures
        forall|m: int| 1 <= m <= 12 ==> #[trigger] out@[m - 1] == days_before_month(cal, y, m),
{
    assert(out@[1] == days_before_month(cal, y, 2));
    assert(out@[2] == days_before_month(cal, y, 3));
    assert(out@[3] == days_before_month(cal, y, 4));
    assert(out@[4] == days_before_month(cal, y, 5));
    assert(out@[5] == days_before_month(cal, y, 6));
    assert(out@[6] == days_before_month(cal, y, 7));
    assert(out@[7] == days_before_month(cal, y, 8));
    assert(out@[8] == days_before_month(cal, y, 9));
    assert(out@[9] == days_before_month(cal, y, 10));
    assert(out@[10] == days_before_month(cal, y, 11));
    assert(out@[11] == days_before_month(cal, y, 12));
    assert(out@[12] == days_before_month(cal, y, 13));
}

} // verus!
