//! The calendars of the CF conventions.

use vstd::prelude::*;
use crate::errors::Error;
use crate::text::{chars_eq, chars_of, is_space};
use vstd::string::StringExecFns;

verus! {

/// The rule set that decides the length of years and months.
#[derive(Debug, PartialEq, Eq, Structural, PartialOrd, Ord, Copy, Clone)]
pub enum Calendar {
    /// Julian before 1582-10-15, Gregorian from that day on.
    Standard,
    /// Gregorian rules extended in both directions.
    ProlepticGregorian,
    /// Years of 365 days.
    NoLeap,
    /// Years of 366 days.
    AllLeap,
    /// Julian rules extended in both directions.
    Julian,
    /// Twelve months of 30 days.
    Day360,
}

impl Calendar {
    /// The calendar's name for people.
    pub open spec fn spec_name(&self) -> Seq<char> {
        match self {
            Calendar::Standard => "Standard"@,
            Calendar::ProlepticGregorian => "Proleptic Gregorian"@,
            Calendar::NoLeap => "No Leap"@,
            Calendar::AllLeap => "All Leap"@,
            Calendar::Julian => "Julian"@,
            Calendar::Day360 => "360 Day"@,
        }
    }

    /// The calendar's name for people, such as "Proleptic Gregorian".
    pub fn to_string(&self) -> (r: String)
        ensures
            r@ == self.spec_name(),
    {
        match self {
            Calendar::Standard => String::from_str("Standard"),
            Calendar::ProlepticGregorian => String::from_str("Proleptic Gregorian"),
            Calendar::NoLeap => String::from_str("No Leap"),
            Calendar::AllLeap => String::from_str("All Leap"),
            Calendar::Julian => String::from_str("Julian"),
            Calendar::Day360 => String::from_str("360 Day"),
        }
    }
}

/// `c` in lower case, for ASCII letters.
pub open spec fn ascii_lower(c: char) -> char {
    if 'A' <= c <= 'Z' {
        ((c as u32) + 32) as char
    } else {
        c
    }
}

/// `s` without the separators at its start and end, in lower case.
pub open spec fn normalized_name(s: Seq<char>) -> Seq<char> {
    let start = choose_first_non_space(s);
    let end = last_non_space_end(s);
    if start >= end {
        Seq::empty()
    } else {
        Seq::new((end - start) as nat, |i: int| ascii_lower(s[start + i]))
    }
}

/// Index of the first character of `s` that is no separator, or its length.
pub open spec fn choose_first_non_space(s: Seq<char>) -> int
    decreases s.len(),
{
    if s.len() == 0 {
        0
    } else if is_space(s[0]) {
        1 + choose_first_non_space(s.skip(1))
    } else {
        0
    }
}

/// One past the index of the last character of `s` that is no separator,
/// or 0.
pub open spec fn last_non_space_end(s: Seq<char>) -> int
    decreases s.len(),
{
    if s.len() == 0 {
        0
    } else if is_space(s.last()) {
        last_non_space_end(s.drop_last())
    } else {
        s.len() as int
    }
}

/// The calendar that a name gives, once trimmed and in lower case:
/// `standard` or `gregorian`, `proleptic_gregorian`, `no_leap` or `day365`,
/// `all_leap` or `day366`, `julian`, `360_day`. Any other name gives the
/// Standard calendar.
pub open spec fn calendar_of_name(s: Seq<char>) -> Calendar {
    let n = normalized_name(s);
    if n == "standard"@ || n == "gregorian"@ {
        Calendar::Standard
    } else if n == "proleptic_gregorian"@ {
        Calendar::ProlepticGregorian
    } else if n == "no_leap"@ || n == "day365"@ {
        Calendar::NoLeap
    } else if n == "all_leap"@ || n == "day366"@ {
        Calendar::AllLeap
    } else if n == "julian"@ {
        Calendar::Julian
    } else if n == "360_day"@ {
        Calendar::Day360
    } else {
        Calendar::Standard
    }
}

impl Calendar {
    /// The calendar that `name` gives; any name that is not recognised gives
    /// the Standard calendar.
    pub fn from_name(name: &str) -> (r: Calendar)
        ensures
            r == calendar_of_name(name@),
    {
        let chars = chars_of(name);
        let n = normalize(&chars);
        proof {
            reveal_strlit("standard");
            reveal_strlit("gregorian");
            reveal_strlit("proleptic_gregorian");
            reveal_strlit("no_leap");
            reveal_strlit("day365");
            reveal_strlit("all_leap");
            reveal_strlit("day366");
            reveal_strlit("julian");
            reveal_strlit("360_day");
        }
if chars_eq(&n, "standard") || chars_eq(&n, "gregorian") {
            Calendar::Standard
        } else if chars_eq(&n, "proleptic_gregorian") {
            Calendar::ProlepticGregorian
        } else if chars_eq(&n, "no_leap") || chars_eq(&n, "day365") {
            Calendar::NoLeap
        } else if chars_eq(&n, "all_leap") || chars_eq(&n, "day366") {
            Calendar::AllLeap
        } else if chars_eq(&n, "julian") {
            Calendar::Julian
        } else if chars_eq(&n, "360_day") {
            Calendar::Day360
        } else {
            Calendar::Standard
        }
    }
}

/// The characters of `s` without the separators at its start and end, in
/// lower case.
fn normalize(s: &Vec<char>) -> (r: Vec<char>)
    ensures
        r@ == normalized_name(s@),
{
    let mut start: usize = 0;
    assert(s@.skip(0) =~= s@);
    while start < s.len() && (s[start] == ' ' || s[start] == '\t' || s[start] == '\n' || s[start] == '\r')
        invariant
            start <= s@.len(),
            choose_first_non_space(s@) == start + choose_first_non_space(s@.skip(start as int)),
        decreases s@.len() - start,
    {
        assert(s@.skip(start as int).skip(1) =~= s@.skip(start + 1));
        start = start + 1;
    }
    assert(start < s@.len() ==> s@.skip(start as int)[0] == s@[start as int]);
    assert(choose_first_non_space(s@) == start);
    let mut end: usize = s.len();
    assert(s@.take(s@.len() as int) =~= s@);
    while end > 0 && (s[end - 1] == ' ' || s[end - 1] == '\t' || s[end - 1] == '\n' || s[end - 1] == '\r')
        invariant
            end <= s@.len(),
            last_non_space_end(s@) == last_non_space_end(s@.take(end as int)),
        decreases end,
    {
        assert(s@.take(end as int).drop_last() =~= s@.take(end - 1));
        end = end - 1;
    }
    assert(end > 0 ==> s@.take(end as int).last() == s@[end - 1]);
    assert(last_non_space_end(s@) == end);
    let mut out: Vec<char> = Vec::new();
    if start < end {
        let mut i: usize = start;
        while i < end
            invariant
                start <= i <= end <= s@.len(),
                out@.len() == i - start,
                forall|j: int| 0 <= j < i - start ==> #[trigger] out@[j] == ascii_lower(s@[start + j]),
            decreases end - i,
        {
            let c = s[i];
            let l = if 'A' <= c && c <= 'Z' {
                ((c as u32) + 32) as u8 as char
            } else {
                c
            };
            out.push(l);
            i = i + 1;
        }
    }
    assert(out@ =~= normalized_name(s@));
    out
}

impl Default for Calendar {
    /// The Standard calendar.
    fn default() -> (r: Calendar)
        ensures
            r == Calendar::Standard,
    {
        Calendar::Standard
    }
}

impl std::str::FromStr for Calendar {
    type Err = Error;

    /// The calendar that `s` names, as [`Calendar::from_name`] reads it;
    /// never an error.
    fn from_str(s: &str) -> Result<Self, Self::Err> {
        Ok(Calendar::from_name(s))
    }
}

} // verus!
