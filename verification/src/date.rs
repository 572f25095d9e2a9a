//! Parsing of `yyyy-MM-dd` date arguments into Unix timestamps.
//!
//! A date argument must be exactly ten characters, digits and two dashes,
//! and must name a real calendar day (proleptic Gregorian, years 0000 to
//! 9999).  A valid date yields the Unix timestamp of UTC midnight on that
//! day; anything else is a [`WeatherError::DateFormat`] error, raised
//! before any network or settings work starts.

use vstd::prelude::*;

use crate::error::WeatherError;

verus! {

/// Whether `c` is a decimal digit.
pub open spec fn spec_is_digit(c: char) -> bool {
    48 <= c as int && c as int <= 57
}

/// The numeric value of a decimal digit character.
pub open spec fn digit_val(c: char) -> int {
    c as int - 48
}

/// The year named by the first four characters of `s`.
pub open spec fn year_of(s: Seq<char>) -> int {
    1000 * digit_val(s[0]) + 100 * digit_val(s[1]) + 10 * digit_val(s[2]) + digit_val(s[3])
}

/// The month named by characters five and six of `s`.
pub open spec fn month_of(s: Seq<char>) -> int {
    10 * digit_val(s[5]) + digit_val(s[6])
}

/// The day of the month named by the last two characters of `s`.
pub open spec fn day_of(s: Seq<char>) -> int {
    10 * digit_val(s[8]) + digit_val(s[9])
}

/// Whether `y` is a leap year of the proleptic Gregorian calendar.
pub open spec fn is_leap_year(y: int) -> bool {
    (y % 4 == 0 && y % 100 != 0) || y % 400 == 0
}

/// The number of days in month `m` of year `y`.
pub open spec fn days_in_month(y: int, m: int) -> int {
    if m == 2 {
        if is_leap_year(y) {
            29
        } else {
            28
        }
    } else if m == 4 || m == 6 || m == 9 || m == 11 {
        30
    } else {
        31
    }
}

/// The number of days in year `y`.
pub open spec fn year_length(y: int) -> int {
    if is_leap_year(y) {
        366
    } else {
        365
    }
}

/// The number of days from 1970-01-01 to the first day of year `y`
/// (negative for years before 1970).
pub open spec fn days_before_year(y: int) -> int
    decreases (if y >= 1970 { y - 1970 } else { 1970 - y }),
{
    if y == 1970 {
        0
    } else if y > 1970 {
        days_before_year(y - 1) + year_length(y - 1)
    } else {
        days_before_year(y + 1) - year_length(y)
    }
}

/// The number of days from the first day of year `y` to the first day of
/// its month `m`.
pub open spec fn days_before_month(y: int, m: int) -> int
    decreases m,
{
    if m <= 1 {
        0
    } else {
        days_before_month(y, m - 1) + days_in_month(y, m - 1)
    }
}

/// The number of days from 1970-01-01 to the day `y`-`m`-`d`.
pub open spec fn epoch_days_of(y: int, m: int, d: int) -> int {
    days_before_year(y) + days_before_month(y, m) + (d - 1)
}

/// Whether year `y`, month `m` and day `d` name a real calendar day.
pub open spec fn valid_ymd(y: int, m: int, d: int) -> bool {
    &&& 1 <= m <= 12
    &&& 1 <= d <= days_in_month(y, m)
}

/// Whether `s` is a well-formed `yyyy-MM-dd` date with valid calendar
/// values.
pub open spec fn valid_date_string(s: Seq<char>) -> bool {
    &&& s.len() == 10
    &&& spec_is_digit(s[0]) && spec_is_digit(s[1]) && spec_is_digit(s[2]) && spec_is_digit(s[3])
    &&& s[4] == '-'
    &&& spec_is_digit(s[5]) && spec_is_digit(s[6])
    &&& s[7] == '-'
    &&& spec_is_digit(s[8]) && spec_is_digit(s[9])
    &&& valid_ymd(year_of(s), month_of(s), day_of(s))
}

/// The Unix timestamp of UTC midnight on the day named by `s`.
pub open spec fn timestamp_of(s: Seq<char>) -> int {
    86400 * epoch_days_of(year_of(s), month_of(s), day_of(s))
}

/// Reads the digit at character position `i`, if there is one.
fn digit_at(s: &str, i: usize) -> (r: Option<u32>)
    requires
        i < s@.len(),
    ensures
        r is Some <==> spec_is_digit(s@[i as int]),
        r matches Some(d) ==> d == digit_val(s@[i as int]),
{
    let c = s.get_char(i);
    let v = c as u32;
    if 48 <= v && v <= 57 {
        Some(v - 48)
    } else {
        None
    }
}

/// Whether `y` is a leap year.
fn is_leap_year_exec(y: i64) -> (r: bool)
    requires
        0 <= y <= 9999,
    ensures
        r == is_leap_year(y as int),
{
    (y % 4 == 0 && y % 100 != 0) || y % 400 == 0
}

/// The number of days in month `m` of year `y`.
fn days_in_month_exec(y: i64, m: i64) -> (r: i64)
    requires
        0 <= y <= 9999,
        1 <= m <= 12,
    ensures
        r == days_in_month(y as int, m as int),
{
    if m == 2 {
        if is_leap_year_exec(y) {
            29
        } else {
            28
        }
    } else if m == 4 || m == 6 || m == 9 || m == 11 {
        30
    } else {
        31
    }
}

/// The number of days in year `y`.
fn year_length_exec(y: i64) -> (r: i64)
    requires
        0 <= y <= 9999,
    ensures
        r == year_length(y as int),
{
    if is_leap_year_exec(y) {
        366
    } else {
        365
    }
}

/// The number of days from 1970-01-01 to the first day of year `y`.
fn days_before_year_exec(y: i64) -> (r: i64)
    requires
        0 <= y <= 9999,
    ensures
        r == days_before_year(y as int),
        y >= 1970 ==> 0 <= r <= 366 * (y as int - 1970),
        y < 1970 ==> -366 * 1970 <= r <= 0,
{
    if y >= 1970 {
        let mut acc: i64 = 0;
        let mut i: i64 = 1970;
        while i < y
            invariant
                1970 <= i <= y <= 9999,
                acc == days_before_year(i as int),
                0 <= acc <= 366 * (i - 1970),
            decreases y - i,
        {
            acc = acc + year_length_exec(i);
            i = i + 1;
        }
        acc
    } else {
        let mut acc: i64 = 0;
        let mut i: i64 = 1970;
        while i > y
            invariant
                0 <= y <= i <= 1970,
                acc == days_before_year(i as int),
                -366 * (1970 - i) <= acc <= 0,
            decreases i - y,
        {
            acc = acc - year_length_exec(i - 1);
            i = i - 1;
        }
        acc
    }
}

/// The number of days from the first day of year `y` to the first day of
/// its month `m`.
fn days_before_month_exec(y: i64, m: i64) -> (r: i64)
    requires
        0 <= y <= 9999,
        1 <= m <= 12,
    ensures
        r == days_before_month(y as int, m as int),
        0 <= r <= 366,
{
    let mut acc: i64 = 0;
    let mut i: i64 = 1;
    while i < m
        invariant
            0 <= y <= 9999,
            1 <= i <= m <= 12,
            acc == days_before_month(y as int, i as int),
            0 <= acc <= 31 * (i - 1),
        decreases m - i,
    {
        acc = acc + days_in_month_exec(y, i);
        i = i + 1;
    }
    acc
}

/// Parses a `yyyy-MM-dd` date argument.
///
/// A well-formed date with valid calendar values yields the Unix timestamp
/// of UTC midnight on that day; anything else is a `DateFormat` error.
pub fn parse_date(s: &str) -> (r: Result<i64, WeatherError>)
    ensures
        r is Ok <==> valid_date_string(s@),
        r matches Ok(t) ==> t == timestamp_of(s@),
        r is Err ==> r == Err::<i64, WeatherError>(WeatherError::DateFormat),
{
    let n = s.unicode_len();
    if n != 10 {
        return Err(WeatherError::DateFormat);
    }
    if s.get_char(4) != '-' || s.get_char(7) != '-' {
        return Err(WeatherError::DateFormat);
    }
    let d0 = match digit_at(s, 0) {
        Some(v) => v,
        None => {
            return Err(WeatherError::DateFormat);
        },
    };
    let d1 = match digit_at(s, 1) {
        Some(v) => v,
        None => {
            return Err(WeatherError::DateFormat);
        },
    };
    let d2 = match digit_at(s, 2) {
        Some(v) => v,
        None => {
            return Err(WeatherError::DateFormat);
        },
    };
    let d3 = match digit_at(s, 3) {
        Some(v) => v,
        None => {
            return Err(WeatherError::DateFormat);
        },
    };
    let d5 = match digit_at(s, 5) {
        Some(v) => v,
        None => {
            return Err(WeatherError::DateFormat);
        },
    };
    let d6 = match digit_at(s, 6) {
        Some(v) => v,
        None => {
            return Err(WeatherError::DateFormat);
        },
    };
    let d8 = match digit_at(s, 8) {
        Some(v) => v,
        None => {
            return Err(WeatherError::DateFormat);
        },
    };
    let d9 = match digit_at(s, 9) {
        Some(v) => v,
        None => {
            return Err(WeatherError::DateFormat);
        },
    };
    let year: i64 = (1000 * d0 + 100 * d1 + 10 * d2 + d3) as i64;
    let month: i64 = (10 * d5 + d6) as i64;
    let day: i64 = (10 * d8 + d9) as i64;
    if month < 1 || month > 12 {
        return Err(WeatherError::DateFormat);
    }
    if day < 1 || day > days_in_month_exec(year, month) {
        return Err(WeatherError::DateFormat);
    }
    let days = days_before_year_exec(year) + days_before_month_exec(year, month) + (day - 1);
    Ok(days * 86400)
}

} // verus!
