//! Calendar dates: parsing the operator's `YYYY-MM-DD` input and turning it
//! into the epoch second of 23:59:59 local time on that day.
//!
//! The proleptic Gregorian day arithmetic is verified here; only the
//! machine's time-zone offset comes from an outside crate.

use vstd::prelude::*;
use crate::numbers::{all_digits, digits_value};

verus! {

/// Gregorian leap-year rule.
pub open spec fn is_leap_year(y: int) -> bool {
    (y % 4 == 0 && y % 100 != 0) || y % 400 == 0
}

pub open spec fn year_length(y: int) -> int {
    if is_leap_year(y) {
        366
    } else {
        365
    }
}

pub open spec fn month_length(y: int, m: int) -> int {
    if m == 2 {
        if is_leap_year(y) {
            29
        } else {
            28
        }
    } else if m == 4 || m == 6 || m == 9 || m == 11 {
        30
    } else {
        31
    }
}

/// A calendar date the tool accepts: four-digit year, valid month and day.
pub open spec fn valid_ymd(y: int, m: int, d: int) -> bool {
    &&& 0 <= y <= 9999
    &&& 1 <= m <= 12
    &&& 1 <= d <= month_length(y, m)
}

/// Days from 1970-01-01 to the first day of year `y` (negative before 1970).
pub open spec fn days_before_year(y: int) -> int
    decreases vstd::math::abs(y - 1970),
{
    if y == 1970 {
        0
    } else if y > 1970 {
        days_before_year(y - 1) + year_length(y - 1)
    } else {
        days_before_year(y + 1) - year_length(y)
    }
}

/// Days from the first day of year `y` to the first day of its month `m`.
pub open spec fn days_before_month(y: int, m: int) -> int
    decreases m,
{
    if m <= 1 {
        0
    } else {
        days_before_month(y, m - 1) + month_length(y, m - 1)
    }
}

/// Days from 1970-01-01 to the given date (negative before the epoch).
pub open spec fn days_from_epoch(y: int, m: int, d: int) -> int {
    days_before_year(y) + days_before_month(y, m) + (d - 1)
}

/// The epoch second of 23:59:59 UTC on the given date.
pub open spec fn end_of_day_utc(y: int, m: int, d: int) -> int {
    days_from_epoch(y, m, d) * 86400 + 86399
}

/// The expiration instant is the last second of its day: however the date
/// falls relative to the epoch, the instant lies 86399 seconds past a
/// midnight, so a zone at `offset_seconds` east of UTC reads it as 23:59:59
/// on its own clock.
pub proof fn lemma_expiration_is_last_second(y: int, m: int, d: int, offset_seconds: int)
    ensures
        end_of_day_utc(y, m, d) % 86400 == 86399,
        ((end_of_day_utc(y, m, d) - offset_seconds) + offset_seconds) % 86400 == 86399,
{
    vstd::arithmetic::div_mod::lemma_mod_multiples_vanish(
        days_from_epoch(y, m, d),
        86399,
        86400,
    );
    assert(86400 * days_from_epoch(y, m, d) == days_from_epoch(y, m, d) * 86400)
        by (nonlinear_arith);
}

/// A parsed calendar date.
#[derive(Clone, Copy, Debug, PartialEq, Eq, Structural)]
pub struct Date {
    pub year: i32,
    pub month: u8,
    pub day: u8,
}

impl Date {
    /// The date lies in the range the tool accepts.
    pub open spec fn valid(self) -> bool {
        valid_ymd(self.year as int, self.month as int, self.day as int)
    }
}

fn is_leap_year_exec(y: i32) -> (r: bool)
    requires
        0 <= y,
    ensures
        r == is_leap_year(y as int),
{
    (y % 4 == 0 && y % 100 != 0) || y % 400 == 0
}

fn year_length_exec(y: i32) -> (r: i32)
    requires
        0 <= y,
    ensures
        r == year_length(y as int),
        365 <= r <= 366,
{
    if is_leap_year_exec(y) {
        366
    } else {
        365
    }
}

fn month_length_exec(y: i32, m: u8) -> (r: u8)
    requires
        0 <= y,
    ensures
        r == month_length(y as int, m as int),
        28 <= r <= 31,
{
    if m == 2 {
        if is_leap_year_exec(y) {
            29
        } else {
            28
        }
    } else if m == 4 || m == 6 || m == 9 || m == 11 {
        30
    } else {
        31
    }
}

fn days_before_year_exec(y: i32) -> (r: i64)
    requires
        0 <= y <= 9999,
    ensures
        r == days_before_year(y as int),
        -722000 <= r <= 2940000,
{
    let mut acc: i64 = 0;
    if y >= 1970 {
        let mut i: i32 = 1970;
        while i < y
            invariant
                1970 <= i <= y <= 9999,
                acc == days_before_year(i as int),
                0 <= acc <= 366 * (i - 1970),
            decreases y - i,
        {
            acc = acc + year_length_exec(i) as i64;
            i = i + 1;
        }
        acc
    } else {
        let mut i: i32 = y;
        while i < 1970
            invariant
                0 <= y <= i <= 1970,
                days_before_year(y as int) == acc + days_before_year(i as int),
                -366 * (i - y) <= acc <= 0,
            decreases 1970 - i,
        {
            acc = acc - year_length_exec(i) as i64;
            i = i + 1;
        }
        acc
    }
}

fn days_before_month_exec(y: i32, m: u8) -> (r: i32)
    requires
        0 <= y <= 9999,
        1 <= m <= 12,
    ensures
        r == days_before_month(y as int, m as int),
        0 <= r <= 366,
{
    let mut acc: i32 = 0;
    let mut i: u8 = 1;
    while i < m
        invariant
            1 <= i <= m <= 12,
            0 <= y <= 9999,
            acc == days_before_month(y as int, i as int),
            0 <= acc <= 31 * (i - 1),
        decreases m - i,
    {
        acc = acc + month_length_exec(y, i) as i32;
        i = i + 1;
    }
    acc
}

/// The string `s` is a strict `YYYY-MM-DD` date: ten bytes, dashes in the
/// middle, digits elsewhere, naming a valid calendar date.
pub open spec fn is_date_string(s: Seq<u8>) -> bool {
    &&& s.len() == 10
    &&& s[4] == 45
    &&& s[7] == 45
    &&& all_digits(s.subrange(0, 4))
    &&& all_digits(s.subrange(5, 7))
    &&& all_digits(s.subrange(8, 10))
    &&& valid_ymd(date_string_year(s), date_string_month(s), date_string_day(s))
}

pub open spec fn date_string_year(s: Seq<u8>) -> int {
    digits_value(s.subrange(0, 4))
}

pub open spec fn date_string_month(s: Seq<u8>) -> int {
    digits_value(s.subrange(5, 7))
}

pub open spec fn date_string_day(s: Seq<u8>) -> int {
    digits_value(s.subrange(8, 10))
}

/// Parses a strict `YYYY-MM-DD` date string.  Returns the date exactly when
/// `s` is such a string naming a valid calendar date.
pub fn parse_date(s: &[u8]) -> (r: Option<Date>)
    ensures
        (r is Some) <==> is_date_string(s@),
        (r matches Some(d) ==> {
            &&& d.valid()
            &&& d.year == date_string_year(s@)
            &&& d.month == date_string_month(s@)
            &&& d.day == date_string_day(s@)
        }),
{
    if s.len() != 10 {
        return None;
    }
    if s[4] != 45 || s[7] != 45 {
        return None;
    }
    let year_raw = match crate::numbers::parse_u64_range(s, 0, 4) {
        Some(v) => v,
        None => {
            proof {
                if all_digits(s@.subrange(0, 4)) {
                    crate::numbers::lemma_digits_value_bound(s@.subrange(0, 4));
                }
            }
            return None;
        },
    };
    let month_raw = match crate::numbers::parse_u64_range(s, 5, 7) {
        Some(v) => v,
        None => {
            proof {
                if all_digits(s@.subrange(5, 7)) {
                    crate::numbers::lemma_digits_value_bound(s@.subrange(5, 7));
                }
            }
            return None;
        },
    };
    let day_raw = match crate::numbers::parse_u64_range(s, 8, 10) {
        Some(v) => v,
        None => {
            proof {
                if all_digits(s@.subrange(8, 10)) {
                    crate::numbers::lemma_digits_value_bound(s@.subrange(8, 10));
                }
            }
            return None;
        },
    };
    proof {
        crate::numbers::lemma_digits_value_bound(s@.subrange(0, 4));
        crate::numbers::lemma_digits_value_bound(s@.subrange(5, 7));
        crate::numbers::lemma_digits_value_bound(s@.subrange(8, 10));
    }
    let year = year_raw as i32;
    let month = month_raw as u8;
    let day = day_raw as u8;
    if month < 1 || month > 12 {
        return None;
    }
    if day < 1 || day > month_length_exec(year, month) {
        return None;
    }
    Some(Date { year, month, day })
}

/// The epoch second of 23:59:59 UTC on `d`.
pub fn end_of_day_utc_exec(d: Date) -> (r: i64)
    requires
        d.valid(),
    ensures
        r == end_of_day_utc(d.year as int, d.month as int, d.day as int),
        -64000000000 <= r <= 255000000000,
{
    let days: i64 = days_before_year_exec(d.year)
        + days_before_month_exec(d.year, d.month) as i64
        + (d.day - 1) as i64;
    days * 86400 + 86399
}

/// Relies on chrono: `NaiveDate::from_ymd_opt`, `NaiveDate::and_hms_opt`
/// and `TimeZone::offset_from_local_datetime` on `Local`.  Returns the UTC
/// offset, in seconds east, of the machine's time zone at 23:59:59 local
/// wall-clock time on the given date; `None` when that wall-clock time does
/// not exist or is ambiguous there, or the date is outside chrono's range.
/// A `chrono::FixedOffset` lies strictly within one day of UTC.
#[verifier::external_body]
fn local_offset_at_end_of_day(year: i32, month: u8, day: u8) -> (r: Option<i32>)
    ensures
        r matches Some(off) ==> -86400 < off < 86400,
{
    let date = match chrono::NaiveDate::from_ymd_opt(year, month as u32, day as u32) {
        Some(d) => d,
        None => return None,
    };
    let moment = match date.and_hms_opt(23, 59, 59) {
        Some(t) => t,
        None => return None,
    };
    match chrono::TimeZone::offset_from_local_datetime(&chrono::Local, &moment) {
        chrono::MappedLocalTime::Single(off) => Some(off.local_minus_utc()),
        _ => None,
    }
}

/// Why no expiration instant came of the operator's input.
#[derive(Clone, Copy, Debug, PartialEq, Eq, Structural)]
pub enum ExpirationError {
    /// The input is not a strict `YYYY-MM-DD` date.
    Unparseable,
    /// The local time zone has no single 23:59:59 on that date.
    NoLocalInstant,
}

/// Parses the operator's expiration input and returns the epoch second of
/// 23:59:59 local time on that date, together with the UTC offset that the
/// local time zone has at that moment.
pub fn expiration_timestamp(s: &[u8]) -> (r: Result<(i64, i32), ExpirationError>)
    ensures
        (r == Err::<(i64, i32), ExpirationError>(ExpirationError::Unparseable))
            <==> !is_date_string(s@),
        (r matches Ok(p) ==> {
            &&& -86400 < p.1 < 86400
            &&& p.0 == end_of_day_utc(
                date_string_year(s@),
                date_string_month(s@),
                date_string_day(s@),
            ) - p.1
        }),
{
    let date = match parse_date(s) {
        Some(d) => d,
        None => {
            return Err(ExpirationError::Unparseable);
        },
    };
    let offset = match local_offset_at_end_of_day(date.year, date.month, date.day) {
        Some(off) => off,
        None => {
            return Err(ExpirationError::NoLocalInstant);
        },
    };
    Ok((end_of_day_with_offset(date, offset), offset))
}

/// The epoch second of 23:59:59 on `d` in a local time zone that is
/// `offset_seconds` east of UTC at that moment.
pub fn end_of_day_with_offset(d: Date, offset_seconds: i32) -> (r: i64)
    requires
        d.valid(),
        -86400 < offset_seconds < 86400,
    ensures
        r == end_of_day_utc(d.year as int, d.month as int, d.day as int)
            - offset_seconds,
{
    end_of_day_utc_exec(d) - offset_seconds as i64
}

} // verus!
