//! The units strings of the CF conventions:
//! `<unit> since <date>[ <time>[ <offset>]]`.

use crate::calendars::Calendar;
use crate::duration::{ns_per_sec, seconds_per_month, seconds_per_year, CFDuration};
use crate::errors::{Error, ErrorKind};
use crate::text::{chars_eq, chars_of, split_chars, split_on, split_words, views, words};
use vstd::prelude::*;
use vstd::string::StringExecFns;

verus! {

/// An ASCII decimal digit.
pub open spec fn is_digit(c: char) -> bool {
    '0' <= c <= '9'
}

/// Every character of `s` is a decimal digit.
pub open spec fn all_digits(s: Seq<char>) -> bool {
    forall|i: int| 0 <= i < s.len() ==> is_digit(#[trigger] s[i])
}

/// The number that the decimal digits `s` write.
pub open spec fn digits_value(s: Seq<char>) -> int
    decreases s.len(),
{
    if s.len() == 0 {
        0
    } else {
        digits_value(s.drop_last()) * 10 + (s.last() as int - '0' as int)
    }
}

/// The value of a field of one or more digits after an optional `+`.
pub open spec fn unsigned_value(s: Seq<char>) -> Option<int> {
    let d = if s.len() > 0 && s[0] == '+' {
        s.skip(1)
    } else {
        s
    };
    if d.len() > 0 && all_digits(d) {
        Some(digits_value(d))
    } else {
        None
    }
}

/// The value of a field of one or more digits after an optional `+` or `-`.
pub open spec fn signed_value(s: Seq<char>) -> Option<int> {
    if s.len() > 0 && s[0] == '-' {
        let d = s.skip(1);
        if d.len() > 0 && all_digits(d) {
            Some(-digits_value(d))
        } else {
            None
        }
    } else {
        unsigned_value(s)
    }
}

/// The value of a field that an unsigned integer of at most `max` holds.
pub open spec fn bounded_unsigned(s: Seq<char>, max: int) -> Option<int> {
    match unsigned_value(s) {
        Some(v) => if v <= max {
            Some(v)
        } else {
            None
        },
        None => None,
    }
}

/// Digits read from a longer run only grow.
proof fn lemma_digits_value_prefix(s: Seq<char>, k: int)
    requires
        0 <= k <= s.len(),
        all_digits(s),
    ensures
        0 <= digits_value(s.take(k)) <= digits_value(s),
    decreases s.len() - k,
{
    if k < s.len() {
        lemma_digits_value_prefix(s, k + 1);
        assert(s.take(k + 1).drop_last() =~= s.take(k));
        assert(is_digit(s[k]));
    } else {
        assert(s.take(k) =~= s);
    }
    lemma_digits_value_nonneg(s.take(k));
}

/// Digits write a number of zero or more.
proof fn lemma_digits_value_nonneg(s: Seq<char>)
    requires
        all_digits(s),
    ensures
        digits_value(s) >= 0,
    decreases s.len(),
{
    if s.len() > 0 {
        lemma_digits_value_nonneg(s.drop_last());
    }
}

/// The number that the digits of `s` from `start` on write, when all of
/// them are digits, there is at least one, and it is at most `max`.
fn parse_digits(s: &Vec<char>, start: usize, max: u128) -> (r: Option<u128>)
    requires
        max <= u64::MAX,
    ensures
        match r {
            Some(v) => start < s@.len() && all_digits(s@.skip(start as int)) && v == digits_value(
                s@.skip(start as int),
            ) && v <= max,
            None => !(start < s@.len() && all_digits(s@.skip(start as int)) && digits_value(
                s@.skip(start as int),
            ) <= max),
        },
{
    if start >= s.len() {
        return None;
    }
    let ghost d = s@.skip(start as int);
    let mut acc: u128 = 0;
    let mut i: usize = start;
    while i < s.len()
        invariant
            start <= i <= s@.len(),
            d == s@.skip(start as int),
            max <= u64::MAX,
            all_digits(d.take(i - start)),
            acc == digits_value(d.take(i - start)),
            acc <= max,
        decreases s@.len() - i,
    {
        let c = s[i];
        if !('0' <= c && c <= '9') {
            assert(!is_digit(d[i - start]));
            return None;
        }
        assert(d.take(i - start + 1).drop_last() =~= d.take(i - start));
        assert(d.take(i - start + 1)[i - start] == c);
        let next: u128 = acc * 10 + (c as u32 - '0' as u32) as u128;
        i = i + 1;
        if next > max {
            proof {
                if all_digits(d) {
                    lemma_digits_value_prefix(d, i - start);
                }
            }
            return None;
        }
        acc = next;
    }
    assert(d.take(i - start) =~= d);
    Some(acc)
}

/// The value of a field of an unsigned integer of at most `max`.
fn parse_unsigned(s: &Vec<char>, max: u128) -> (r: Option<u128>)
    requires
        max <= u64::MAX,
    ensures
        match r {
            Some(v) => bounded_unsigned(s@, max as int) == Some(v as int),
            None => bounded_unsigned(s@, max as int) is None,
        },
{
    let start: usize = if s.len() > 0 && s[0] == '+' {
        1
    } else {
        0
    };
    assert(start == 0 ==> s@.skip(0) =~= s@);
    parse_digits(s, start, max)
}

/// The value of a field that a signed integer in `min` to `max` holds.
pub open spec fn bounded_signed(s: Seq<char>, min: int, max: int) -> Option<int> {
    match signed_value(s) {
        Some(v) => if min <= v <= max {
            Some(v)
        } else {
            None
        },
        None => None,
    }
}

/// The value of a field of an integer in `-(max + 1)` to `max`.
fn parse_signed(s: &Vec<char>, max: u128) -> (r: Option<i128>)
    requires
        max < u64::MAX,
    ensures
        match r {
            Some(v) => bounded_signed(s@, -(max + 1), max as int) == Some(v as int),
            None => bounded_signed(s@, -(max + 1), max as int) is None,
        },
{
    if s.len() > 0 && s[0] == '-' {
        match parse_digits(s, 1, max + 1) {
            Some(v) => Some(-(v as i128)),
            None => None,
        }
    } else {
        match parse_unsigned(s, max) {
            Some(v) => Some(v as i128),
            None => None,
        }
    }
}

/// The first nine digits of a fraction of a second, padded with zeros.
pub open spec fn pad9(f: Seq<char>) -> Seq<char> {
    Seq::new(9, |i: int| if i < f.len() { f[i] } else { '0' })
}

/// Whole seconds and nanoseconds of a seconds field: up to 255 whole
/// seconds, then an optional `.` and fraction digits, of which the first nine
/// count.
pub open spec fn seconds_value(s: Seq<char>) -> Option<(int, int)> {
    let qs = split_on(s, '.');
    let frac = if qs.len() == 2 {
        qs[1]
    } else {
        Seq::<char>::empty()
    };
    if qs.len() <= 2 && bounded_unsigned(qs[0], 255) is Some && all_digits(frac) {
        Some((bounded_unsigned(qs[0], 255)->0, digits_value(pad9(frac))))
    } else {
        None
    }
}

/// Nanoseconds that the fraction digits `f` write.
fn fraction_nanoseconds(f: &Vec<char>) -> (r: Option<u32>)
    ensures
        match r {
            Some(ns) => all_digits(f@) && ns == digits_value(pad9(f@)),
            None => !all_digits(f@),
        },
{
    let mut i: usize = 0;
    while i < f.len()
        invariant
            i <= f@.len(),
            forall|j: int| 0 <= j < i ==> is_digit(#[trigger] f@[j]),
        decreases f@.len() - i,
    {
        if !('0' <= f[i] && f[i] <= '9') {
            return None;
        }
        i = i + 1;
    }
    let ghost p = pad9(f@);
    let mut acc: u32 = 0;
    let mut k: usize = 0;
    while k < 9
        invariant
            k <= 9,
            p == pad9(f@),
            all_digits(f@),
            acc == digits_value(p.take(k as int)),
            acc < 1_000_000_000,
            acc < pow10(k as int),
        decreases 9 - k,
    {
        let c = if k < f.len() {
            f[k]
        } else {
            '0'
        };
        assert(p.take(k + 1).drop_last() =~= p.take(k as int));
        assert(p.take(k + 1).last() == c);
        assert(is_digit(c));
        acc = acc * 10 + (c as u32 - '0' as u32);
        k = k + 1;
    }
    assert(p.take(9) =~= p);
    Some(acc)
}

/// Ten to the power `k`, for `k` from 0 to 9.
pub open spec fn pow10(k: int) -> int {
    if k <= 0 {
        1
    } else if k == 1 {
        10
    } else if k == 2 {
        100
    } else if k == 3 {
        1000
    } else if k == 4 {
        10000
    } else if k == 5 {
        100000
    } else if k == 6 {
        1000000
    } else if k == 7 {
        10000000
    } else if k == 8 {
        100000000
    } else {
        1000000000
    }
}

/// Whole seconds and nanoseconds of a seconds field.
fn parse_seconds(s: &Vec<char>) -> (r: Option<(u8, u32)>)
    ensures
        match r {
            Some(v) => seconds_value(s@) == Some((v.0 as int, v.1 as int)),
            None => seconds_value(s@) is None,
        },
{
    let qs = split_chars(s, '.');
    assert(views(qs@)[0] == qs@[0]@);
    if qs.len() > 2 {
        return None;
    }
    let secs = match parse_unsigned(&qs[0], 255) {
        Some(v) => v as u8,
        None => return None,
    };
    let empty: Vec<char> = Vec::new();
    let frac: &Vec<char> = if qs.len() == 2 {
        assert(views(qs@)[1] == qs@[1]@);
        &qs[1]
    } else {
        assert(empty@ =~= Seq::<char>::empty());
        &empty
    };
    match fraction_nanoseconds(frac) {
        Some(ns) => Some((secs, ns)),
        None => None,
    }
}

/// The unit of a units string.
#[derive(Debug, PartialEq, Eq, Structural, Clone, Copy)]
pub enum Unit {
    Year,
    Month,
    Day,
    Hour,
    Minute,
    Second,
    Millisecond,
    Microsecond,
    Nanosecond,
}

/// Nanoseconds in one `unit` of `calendar`, as durations count them.
pub open spec fn unit_nanoseconds(unit: Unit, calendar: Calendar) -> int {
    match unit {
        Unit::Year => seconds_per_year(calendar) * ns_per_sec(),
        Unit::Month => seconds_per_month(calendar) * ns_per_sec(),
        Unit::Day => 86400 * ns_per_sec(),
        Unit::Hour => 3600 * ns_per_sec(),
        Unit::Minute => 60 * ns_per_sec(),
        Unit::Second => ns_per_sec(),
        Unit::Millisecond => 1_000_000,
        Unit::Microsecond => 1000,
        Unit::Nanosecond => 1,
    }
}

impl Unit {
    /// One `self` of `calendar`.
    pub fn to_duration(&self, calendar: Calendar) -> (r: CFDuration)
        ensures
            r.wf(),
            r.total_ns() == unit_nanoseconds(*self, calendar),
            r.calendar == calendar,
    {
        match self {
            Unit::Year => CFDuration::from_years(1, calendar),
            Unit::Month => CFDuration::from_months(1, calendar),
            Unit::Day => CFDuration::from_days(1, calendar),
            Unit::Hour => CFDuration::from_hours(1, calendar),
            Unit::Minute => CFDuration::from_minutes(1, calendar),
            Unit::Second => CFDuration::from_seconds(1, calendar),
            Unit::Millisecond => CFDuration::from_milliseconds(1, calendar),
            Unit::Microsecond => CFDuration::from_microseconds(1, calendar),
            Unit::Nanosecond => CFDuration::from_nanoseconds(1, calendar),
        }
    }
}

/// The unit that a word names. Nanoseconds have no word.
pub open spec fn unit_of_word(w: Seq<char>) -> Option<Unit> {
    if w == "common_years"@ || w == "common_year"@ {
        Some(Unit::Year)
    } else if w == "months"@ || w == "month"@ {
        Some(Unit::Month)
    } else if w == "days"@ || w == "day"@ || w == "d"@ {
        Some(Unit::Day)
    } else if w == "hours"@ || w == "hour"@ || w == "hrs"@ || w == "hr"@ || w == "h"@ {
        Some(Unit::Hour)
    } else if w == "minutes"@ || w == "minute"@ || w == "mins"@ || w == "min"@ {
        Some(Unit::Minute)
    } else if w == "seconds"@ || w == "second"@ || w == "secs"@ || w == "sec"@ || w == "s"@ {
        Some(Unit::Second)
    } else if w == "milliseconds"@ || w == "millisecond"@ || w == "millisecs"@ || w == "millisec"@ || w == "msecs"@ || w == "msec"@ || w == "ms"@ {
        Some(Unit::Millisecond)
    } else if w == "microseconds"@ || w == "microsecond"@ || w == "microsecs"@ || w == "microsec"@ {
        Some(Unit::Microsecond)
    } else {
        None
    }
}

/// The unit that the word `w` names.
fn parse_unit(w: &Vec<char>) -> (r: Option<Unit>)
    ensures
        r == unit_of_word(w@),
{
    proof {
        reveal_strlit("common_years");
        reveal_strlit("common_year");
        reveal_strlit("months");
        reveal_strlit("month");
        reveal_strlit("days");
        reveal_strlit("day");
        reveal_strlit("d");
        reveal_strlit("hours");
        reveal_strlit("hour");
        reveal_strlit("hrs");
        reveal_strlit("hr");
        reveal_strlit("h");
        reveal_strlit("minutes");
        reveal_strlit("minute");
        reveal_strlit("mins");
        reveal_strlit("min");
        reveal_strlit("seconds");
        reveal_strlit("second");
        reveal_strlit("secs");
        reveal_strlit("sec");
        reveal_strlit("s");
        reveal_strlit("milliseconds");
        reveal_strlit("millisecond");
        reveal_strlit("millisecs");
        reveal_strlit("millisec");
        reveal_strlit("msecs");
        reveal_strlit("msec");
        reveal_strlit("ms");
        reveal_strlit("microseconds");
        reveal_strlit("microsecond");
        reveal_strlit("microsecs");
        reveal_strlit("microsec");
    }
    if chars_eq(w, "common_years") || chars_eq(w, "common_year") {
        Some(Unit::Year)
    } else if chars_eq(w, "months") || chars_eq(w, "month") {
        Some(Unit::Month)
    } else if chars_eq(w, "days") || chars_eq(w, "day") || chars_eq(w, "d") {
        Some(Unit::Day)
    } else if chars_eq(w, "hours") || chars_eq(w, "hour") || chars_eq(w, "hrs") || chars_eq(w, "hr") || chars_eq(w, "h") {
        Some(Unit::Hour)
    } else if chars_eq(w, "minutes") || chars_eq(w, "minute") || chars_eq(w, "mins") || chars_eq(w, "min") {
        Some(Unit::Minute)
    } else if chars_eq(w, "seconds") || chars_eq(w, "second") || chars_eq(w, "secs") || chars_eq(w, "sec") || chars_eq(w, "s") {
        Some(Unit::Second)
    } else if chars_eq(w, "milliseconds") || chars_eq(w, "millisecond") || chars_eq(w, "millisecs") || chars_eq(w, "millisec") || chars_eq(w, "msecs") || chars_eq(w, "msec") || chars_eq(w, "ms") {
        Some(Unit::Millisecond)
    } else if chars_eq(w, "microseconds") || chars_eq(w, "microsecond") || chars_eq(w, "microsecs") || chars_eq(w, "microsec") {
        Some(Unit::Microsecond)
    } else {
        None
    }
}

/// The reference date and time of a units string.
#[derive(Debug, PartialEq, Clone, Copy)]
pub struct ParsedDatetime {
    /// Year, month and day.
    pub ymd: (i64, u8, u8),
    /// Hour, minute, second and nanosecond, when a time is given.
    pub hms: Option<(u8, u8, u8, u32)>,
    /// Offset from UTC in hours and minutes, when one is given.
    pub tz: Option<(i8, u8)>,
    /// Nanosecond units, which the grammar does not accept: always `None`.
    pub nanosecond: Option<i64>,
}

/// A parsed units string.
#[derive(Debug, PartialEq, Clone, Copy)]
pub struct ParsedCFTime {
    pub unit: Unit,
    pub datetime: ParsedDatetime,
}

/// The year of a date whose sign has been read.
pub open spec fn year_value(p: Seq<char>, negative: bool) -> Option<int> {
    if p.len() > 0 && all_digits(p) {
        let v = if negative {
            -digits_value(p)
        } else {
            digits_value(p)
        };
        if i64::MIN <= v <= i64::MAX {
            Some(v)
        } else {
            None
        }
    } else {
        None
    }
}

/// The date word `YYYY-MM-DD`, the year with an optional sign.
pub open spec fn date_spec(w: Seq<char>) -> Result<(i64, u8, u8), ErrorKind> {
    let signed = w.len() > 0 && (w[0] == '-' || w[0] == '+');
    let negative = w.len() > 0 && w[0] == '-';
    let body = if signed {
        w.skip(1)
    } else {
        w
    };
    let ps = split_on(body, '-');
    if ps.len() != 3 {
        Err(ErrorKind::UnitParserError)
    } else if year_value(ps[0], negative) is None || bounded_unsigned(ps[1], 255) is None
        || bounded_unsigned(ps[2], 255) is None {
        Err(ErrorKind::ParseIntError)
    } else {
        Ok(
            (
                year_value(ps[0], negative)->0 as i64,
                bounded_unsigned(ps[1], 255)->0 as u8,
                bounded_unsigned(ps[2], 255)->0 as u8,
            ),
        )
    }
}

/// The time word `HH:MM:SS[.fraction]`.
pub open spec fn time_spec(w: Seq<char>) -> Result<(u8, u8, u8, u32), ErrorKind> {
    let ps = split_on(w, ':');
    if ps.len() != 3 {
        Err(ErrorKind::UnitParserError)
    } else if bounded_unsigned(ps[0], 255) is None || bounded_unsigned(ps[1], 255) is None {
        Err(ErrorKind::ParseIntError)
    } else if seconds_value(ps[2]) is None {
        Err(ErrorKind::ParseFloatError)
    } else {
        let secs = seconds_value(ps[2])->0;
        Ok(
            (
                bounded_unsigned(ps[0], 255)->0 as u8,
                bounded_unsigned(ps[1], 255)->0 as u8,
                secs.0 as u8,
                secs.1 as u32,
            ),
        )
    }
}

/// The offset word `±HH[:MM]`.
pub open spec fn tz_spec(w: Seq<char>) -> Result<(i8, u8), ErrorKind> {
    let ps = split_on(w, ':');
    let minute = if ps.len() == 2 {
        bounded_unsigned(ps[1], 255)
    } else {
        Some(0int)
    };
    if ps.len() > 2 {
        Err(ErrorKind::UnitParserError)
    } else if bounded_signed(ps[0], -128, 127) is None || minute is None {
        Err(ErrorKind::ParseIntError)
    } else {
        Ok((bounded_signed(ps[0], -128, 127)->0 as i8, minute->0 as u8))
    }
}

/// The parse of a units string whose words have the right count, unit and
/// `since`, from its date word on.
pub open spec fn parse_fields_spec(unit: Unit, ws: Seq<Seq<char>>) -> Result<ParsedCFTime, ErrorKind> {
    match date_spec(ws[2]) {
        Err(k) => Err(k),
        Ok(ymd) => if ws.len() == 3 {
            Ok(
                ParsedCFTime {
                    unit,
                    datetime: ParsedDatetime { ymd, hms: None, tz: None, nanosecond: None },
                },
            )
        } else {
            match time_spec(ws[3]) {
                Err(k) => Err(k),
                Ok(hms) => if ws.len() == 4 {
                    Ok(
                        ParsedCFTime {
                            unit,
                            datetime: ParsedDatetime {
                                ymd,
                                hms: Some(hms),
                                tz: None,
                                nanosecond: None,
                            },
                        },
                    )
                } else {
                    match tz_spec(ws[4]) {
                        Err(k) => Err(k),
                        Ok(tz) => Ok(
                            ParsedCFTime {
                                unit,
                                datetime: ParsedDatetime {
                                    ymd,
                                    hms: Some(hms),
                                    tz: Some(tz),
                                    nanosecond: None,
                                },
                            },
                        ),
                    }
                },
            }
        },
    }
}

/// What a units string parses to, or the kind of error that stops it: three
/// to five words, a unit word, `since`, a date, then an optional time and an
/// optional offset.
pub open spec fn parse_spec(s: Seq<char>) -> Result<ParsedCFTime, ErrorKind> {
    let ws = words(s);
    if ws.len() < 3 || ws.len() > 5 || unit_of_word(ws[0]) is None || ws[1] != "since"@ {
        Err(ErrorKind::UnitParserError)
    } else {
        parse_fields_spec(unit_of_word(ws[0])->0, ws)
    }
}

/// A message naming what is wrong and the units string it was found in.
fn message(what: &str, units: &str) -> (r: String) {
    let mut m = String::from_str(what);
    m.append(": ");
    m.append(units);
    m
}

/// The characters of `s` from `start` on.
fn skip_chars(s: &Vec<char>, start: usize) -> (r: Vec<char>)
    requires
        start <= s@.len(),
    ensures
        r@ == s@.skip(start as int),
{
    let mut out: Vec<char> = Vec::new();
    let mut i: usize = start;
    while i < s.len()
        invariant
            start <= i <= s@.len(),
            out@ == s@.subrange(start as int, i as int),
        decreases s@.len() - i,
    {
        out.push(s[i]);
        i = i + 1;
        assert(out@ =~= s@.subrange(start as int, i as int));
    }
    assert(out@ =~= s@.skip(start as int));
    out
}

/// The date word `w` of `units`.
fn parse_date(w: &Vec<char>, units: &str) -> (r: Result<(i64, u8, u8), Error>)
    ensures
        match r {
            Ok(v) => date_spec(w@) == Ok::<(i64, u8, u8), ErrorKind>(v),
            Err(e) => date_spec(w@) == Err::<(i64, u8, u8), ErrorKind>(e.spec_kind()),
        },
{
    let signed = w.len() > 0 && (w[0] == '-' || w[0] == '+');
    let negative = w.len() > 0 && w[0] == '-';
    let body = if signed {
        skip_chars(w, 1)
    } else {
        skip_chars(w, 0)
    };
    assert(!signed ==> w@.skip(0) =~= w@);
    let ps = split_chars(&body, '-');
    if ps.len() != 3 {
        return Err(Error::UnitParserError(message("invalid date", units)));
    }
    assert(views(ps@)[0] == ps@[0]@ && views(ps@)[1] == ps@[1]@ && views(ps@)[2] == ps@[2]@);
    let max: u128 = if negative {
        9223372036854775808
    } else {
        9223372036854775807
    };
    assert(ps@[0]@.skip(0) =~= ps@[0]@);
    let year: i64 = match parse_digits(&ps[0], 0, max) {
        Some(v) => if negative {
            (-(v as i128)) as i64
        } else {
            v as i64
        },
        None => return Err(Error::ParseIntError(message("invalid year", units))),
    };
    let month = match parse_unsigned(&ps[1], 255) {
        Some(v) => v as u8,
        None => return Err(Error::ParseIntError(message("invalid month", units))),
    };
    let day = match parse_unsigned(&ps[2], 255) {
        Some(v) => v as u8,
        None => return Err(Error::ParseIntError(message("invalid day", units))),
    };
    Ok((year, month, day))
}

/// The time word `w` of `units`.
fn parse_time(w: &Vec<char>, units: &str) -> (r: Result<(u8, u8, u8, u32), Error>)
    ensures
        match r {
            Ok(v) => time_spec(w@) == Ok::<(u8, u8, u8, u32), ErrorKind>(v),
            Err(e) => time_spec(w@) == Err::<(u8, u8, u8, u32), ErrorKind>(e.spec_kind()),
        },
{
    let ps = split_chars(w, ':');
    if ps.len() != 3 {
        return Err(Error::UnitParserError(message("invalid time", units)));
    }
    assert(views(ps@)[0] == ps@[0]@ && views(ps@)[1] == ps@[1]@ && views(ps@)[2] == ps@[2]@);
    let hour = match parse_unsigned(&ps[0], 255) {
        Some(v) => v as u8,
        None => return Err(Error::ParseIntError(message("invalid hour", units))),
    };
    let minute = match parse_unsigned(&ps[1], 255) {
        Some(v) => v as u8,
        None => return Err(Error::ParseIntError(message("invalid minute", units))),
    };
    let (second, nanosecond) = match parse_seconds(&ps[2]) {
        Some(v) => v,
        None => return Err(Error::ParseFloatError(message("invalid second", units))),
    };
    Ok((hour, minute, second, nanosecond))
}

/// The offset word `w` of `units`.
fn parse_tz(w: &Vec<char>, units: &str) -> (r: Result<(i8, u8), Error>)
    ensures
        match r {
            Ok(v) => tz_spec(w@) == Ok::<(i8, u8), ErrorKind>(v),
            Err(e) => tz_spec(w@) == Err::<(i8, u8), ErrorKind>(e.spec_kind()),
        },
{
    let ps = split_chars(w, ':');
    if ps.len() > 2 {
        return Err(Error::UnitParserError(message("invalid time zone", units)));
    }
    assert(views(ps@)[0] == ps@[0]@);
    let hour = match parse_signed(&ps[0], 127) {
        Some(v) => v as i8,
        None => return Err(Error::ParseIntError(message("invalid time zone hour", units))),
    };
    let minute: u8 = if ps.len() == 2 {
        assert(views(ps@)[1] == ps@[1]@);
        match parse_unsigned(&ps[1], 255) {
            Some(v) => v as u8,
            None => return Err(Error::ParseIntError(message("invalid time zone minute", units))),
        }
    } else {
        0
    };
    Ok((hour, minute))
}

/// Parses a units string `<unit> since <date>[ <time>[ <offset>]]`.
///
/// The words are separated by spaces, tabs or line breaks. The unit is one
/// of the recognised words; the date is `YYYY-MM-DD` with an optional sign
/// before the year; the time is `HH:MM:SS` with an optional fraction of a
/// second; the offset is `±HH` or `±HH:MM`. A malformed structure gives
/// `UnitParserError`, a malformed integer `ParseIntError`, a malformed
/// seconds field `ParseFloatError`.
pub fn parse_cf_time(unit: &str) -> (r: Result<ParsedCFTime, Error>)
    ensures
        match r {
            Ok(p) => parse_spec(unit@) == Ok::<ParsedCFTime, ErrorKind>(p),
            Err(e) => parse_spec(unit@) == Err::<ParsedCFTime, ErrorKind>(e.spec_kind()),
        },
{
    let chars = chars_of(unit);
    let ws = split_words(&chars);
    if ws.len() < 3 || ws.len() > 5 {
        return Err(Error::UnitParserError(message("expected three to five words", unit)));
    }
    assert(views(ws@)[0] == ws@[0]@ && views(ws@)[1] == ws@[1]@ && views(ws@)[2] == ws@[2]@);
    let duration_unit = match parse_unit(&ws[0]) {
        Some(u) => u,
        None => return Err(Error::UnitParserError(message("invalid duration unit", unit))),
    };
    if !chars_eq(&ws[1], "since") {
        return Err(Error::UnitParserError(message("expected 'since'", unit)));
    }
    let ymd = parse_date(&ws[2], unit)?;
    if ws.len() == 3 {
        return Ok(
            ParsedCFTime {
                unit: duration_unit,
                datetime: ParsedDatetime { ymd, hms: None, tz: None, nanosecond: None },
            },
        );
    }
    assert(views(ws@)[3] == ws@[3]@);
    let hms = parse_time(&ws[3], unit)?;
    if ws.len() == 4 {
        return Ok(
            ParsedCFTime {
                unit: duration_unit,
                datetime: ParsedDatetime { ymd, hms: Some(hms), tz: None, nanosecond: None },
            },
        );
    }
    assert(views(ws@)[4] == ws@[4]@);
    let tz = parse_tz(&ws[4], unit)?;
    Ok(
        ParsedCFTime {
            unit: duration_unit,
            datetime: ParsedDatetime { ymd, hms: Some(hms), tz: Some(tz), nanosecond: None },
        },
    )
}

/// A units string fails with `UnitParserError` when it has fewer than three
/// or more than five words, when its first word is no unit, or when its
/// second word is not `since`.
pub proof fn lemma_parse_rejects_structure(s: Seq<char>)
    requires
        ({
            let ws = words(s);
            ws.len() < 3 || ws.len() > 5 || unit_of_word(ws[0]) is None || ws[1] != "since"@
        }),
    ensures
        parse_spec(s) == Err::<ParsedCFTime, ErrorKind>(ErrorKind::UnitParserError),
{
}

/// A units string whose valid date is followed by an offset and no time
/// (its fourth and last word has no more than one `:`) fails with
/// `UnitParserError`.
pub proof fn lemma_parse_rejects_offset_without_time(s: Seq<char>)
    requires
        words(s).len() == 4,
        unit_of_word(words(s)[0]) is Some,
        words(s)[1] == "since"@,
        date_spec(words(s)[2]) is Ok,
        split_on(words(s)[3], ':').len() <= 2,
    ensures
        parse_spec(s) == Err::<ParsedCFTime, ErrorKind>(ErrorKind::UnitParserError),
{
}

} // verus!
