//! Calendar-aware parsing of the portal's fixed date and timestamp
//! notations, and derivation of display times.
//!
//! Dates arrive as `YYYY-MM-DD`, timestamps as `YYYY-MM-DD HH:MM:SS`. Both
//! are checked against the real calendar (month lengths, leap years), so a
//! value such as the thirtieth of February is rejected, not merely
//! re-shaped.

use vstd::prelude::*;

use crate::strutil::push_char;

verus! {

pub open spec fn is_digit(c: char) -> bool {
    '0' <= c && c <= '9'
}

pub open spec fn digit_val(c: char) -> int {
    c as int - '0' as int
}

/// Value of the two-digit group starting at `i`.
pub open spec fn two_digit_val(s: Seq<char>, i: int) -> int {
    digit_val(s[i]) * 10 + digit_val(s[i + 1])
}

pub open spec fn year_val(s: Seq<char>) -> int {
    digit_val(s[0]) * 1000 + digit_val(s[1]) * 100 + digit_val(s[2]) * 10 + digit_val(s[3])
}

pub open spec fn month_val(s: Seq<char>) -> int {
    two_digit_val(s, 5)
}

pub open spec fn day_val(s: Seq<char>) -> int {
    two_digit_val(s, 8)
}

pub open spec fn is_leap_year(y: int) -> bool {
    y % 4 == 0 && (y % 100 != 0 || y % 400 == 0)
}

pub open spec fn days_in_month(y: int, m: int) -> int {
    if m == 2 {
        if is_leap_year(y) {
            29
        } else {
            28
        }
    } else if m == 4 || m == 6 || m == 9 || m == 11 {
        30
    } else {
        31
    }
}

/// The fixed `YYYY-MM-DD` form, with a real calendar date in it.
pub open spec fn valid_date_chars(s: Seq<char>) -> bool {
    &&& s.len() == 10
    &&& is_digit(s[0]) && is_digit(s[1]) && is_digit(s[2]) && is_digit(s[3])
    &&& s[4] == '-'
    &&& is_digit(s[5]) && is_digit(s[6])
    &&& s[7] == '-'
    &&& is_digit(s[8]) && is_digit(s[9])
    &&& 1 <= month_val(s) <= 12
    &&& 1 <= day_val(s) <= days_in_month(year_val(s), month_val(s))
}

/// The fixed `HH:MM:SS` form, a valid time of day.
pub open spec fn valid_time_chars(s: Seq<char>) -> bool {
    &&& s.len() == 8
    &&& is_digit(s[0]) && is_digit(s[1])
    &&& s[2] == ':'
    &&& is_digit(s[3]) && is_digit(s[4])
    &&& s[5] == ':'
    &&& is_digit(s[6]) && is_digit(s[7])
    &&& two_digit_val(s, 0) <= 23
    &&& two_digit_val(s, 3) <= 59
    &&& two_digit_val(s, 6) <= 59
}

/// The fixed `YYYY-MM-DD HH:MM:SS` form, valid in both halves.
pub open spec fn valid_timestamp_chars(s: Seq<char>) -> bool {
    &&& s.len() == 19
    &&& valid_date_chars(s.subrange(0, 10))
    &&& s[10] == ' '
    &&& valid_time_chars(s.subrange(11, 19))
}

/// Minute of the day named by a valid timestamp.
pub open spec fn timestamp_minute_of_day(s: Seq<char>) -> int {
    two_digit_val(s, 11) * 60 + two_digit_val(s, 14)
}

/// `HH:MM` display form of a minute of the day.
pub open spec fn hh_mm_chars(minute: int) -> Seq<char> {
    seq![
        crate::strutil::digit_char(minute / 60 / 10),
        crate::strutil::digit_char(minute / 60 % 10),
        ':',
        crate::strutil::digit_char(minute % 60 / 10),
        crate::strutil::digit_char(minute % 60 % 10),
    ]
}

/// The `HH:MM` display shape: two digits, a colon, two digits.
pub open spec fn is_hh_mm(s: Seq<char>) -> bool {
    &&& s.len() == 5
    &&& is_digit(s[0]) && is_digit(s[1])
    &&& s[2] == ':'
    &&& is_digit(s[3]) && is_digit(s[4])
}

/// The hour-and-minute cut of a valid timestamp has the display shape.
pub proof fn lemma_timestamp_hh_mm(ts: Seq<char>)
    requires
        valid_timestamp_chars(ts),
    ensures
        is_hh_mm(ts.subrange(11, 16)),
{
    let time = ts.subrange(11, 19);
    let cut = ts.subrange(11, 16);
    assert(cut[0] == time[0] && cut[1] == time[1] && cut[2] == time[2] && cut[3] == time[3]
        && cut[4] == time[4]);
}

/// A formatted minute of the day has the display shape.
pub proof fn lemma_hh_mm_chars_shape(minute: int)
    requires
        0 <= minute < 1440,
    ensures
        is_hh_mm(hh_mm_chars(minute)),
{
}

/// A calendar date held as plain numbers, the library's own stand-in for a
/// parsed date value.
pub struct Date {
    pub year: u16,
    pub month: u8,
    pub day: u8,
}

impl Date {
    /// The stored numbers name a real calendar date with a four-digit year.
    pub open spec fn wf(self) -> bool {
        &&& self.year <= 9999
        &&& 1 <= self.month <= 12
        &&& 1 <= self.day <= days_in_month(self.year as int, self.month as int)
    }
}

fn char_at(s: &str, i: usize) -> (c: char)
    requires
        i < s@.len(),
    ensures
        c == s@[i as int],
{
    s.get_char(i)
}

fn digit_at(s: &str, i: usize) -> (r: Option<u32>)
    requires
        i < s@.len(),
    ensures
        r is Some <==> is_digit(s@[i as int]),
        r matches Some(d) ==> d == digit_val(s@[i as int]) && d <= 9,
{
    let c = char_at(s, i);
    if '0' <= c && c <= '9' {
        Some(c as u32 - '0' as u32)
    } else {
        None
    }
}

fn two_digits_at(s: &str, i: usize) -> (r: Option<u32>)
    requires
        i < usize::MAX,
        i + 1 < s@.len(),
    ensures
        r is Some <==> is_digit(s@[i as int]) && is_digit(s@[i + 1]),
        r matches Some(v) ==> v == two_digit_val(s@, i as int) && v <= 99,
{
    let hi = match digit_at(s, i) {
        Some(d) => d,
        None => {
            return None;
        },
    };
    let lo = match digit_at(s, i + 1) {
        Some(d) => d,
        None => {
            return None;
        },
    };
    Some(hi * 10 + lo)
}

/// Reads a two-digit group whose digits are already known to be present.
pub fn two_digit_value(s: &str, i: usize) -> (v: u32)
    requires
        i < usize::MAX,
        i + 1 < s@.len(),
        is_digit(s@[i as int]),
        is_digit(s@[i + 1]),
    ensures
        v == two_digit_val(s@, i as int),
        v <= 99,
{
    let hi = char_at(s, i) as u32 - '0' as u32;
    let lo = char_at(s, i + 1) as u32 - '0' as u32;
    hi * 10 + lo
}

fn days_in_month_exec(y: u32, m: u32) -> (r: u32)
    requires
        1 <= m <= 12,
    ensures
        r == days_in_month(y as int, m as int),
{
    if m == 2 {
        if y % 4 == 0 && (y % 100 != 0 || y % 400 == 0) {
            29
        } else {
            28
        }
    } else if m == 4 || m == 6 || m == 9 || m == 11 {
        30
    } else {
        31
    }
}

/// Parses the fixed `YYYY-MM-DD` form into a checked calendar date.
///
/// Returns the date exactly when the text is well-formed and names a real
/// day of the calendar.
pub fn yyyy_mm_dd(date: &str) -> (r: Option<Date>)
    ensures
        r is Some <==> valid_date_chars(date@),
        r matches Some(d) ==> {
            &&& d.wf()
            &&& d.year == year_val(date@)
            &&& d.month == month_val(date@)
            &&& d.day == day_val(date@)
        },
{
    if date.unicode_len() != 10 {
        return None;
    }
    let d0 = match digit_at(date, 0) {
        Some(d) => d,
        None => {
            return None;
        },
    };
    let d1 = match digit_at(date, 1) {
        Some(d) => d,
        None => {
            return None;
        },
    };
    let d2 = match digit_at(date, 2) {
        Some(d) => d,
        None => {
            return None;
        },
    };
    let d3 = match digit_at(date, 3) {
        Some(d) => d,
        None => {
            return None;
        },
    };
    if char_at(date, 4) != '-' {
        return None;
    }
    let month = match two_digits_at(date, 5) {
        Some(v) => v,
        None => {
            return None;
        },
    };
    if char_at(date, 7) != '-' {
        return None;
    }
    let day = match two_digits_at(date, 8) {
        Some(v) => v,
        None => {
            return None;
        },
    };
    let year = d0 * 1000 + d1 * 100 + d2 * 10 + d3;
    if month < 1 || month > 12 {
        return None;
    }
    if day < 1 || day > days_in_month_exec(year, month) {
        return None;
    }
    Some(Date { year: year as u16, month: month as u8, day: day as u8 })
}

/// Checks the full `YYYY-MM-DD HH:MM:SS` form.
pub fn check_timestamp(s: &str) -> (r: bool)
    ensures
        r == valid_timestamp_chars(s@),
{
    if s.unicode_len() != 19 {
        return false;
    }
    let date_part = s.substring_char(0, 10);
    if yyyy_mm_dd(date_part).is_none() {
        return false;
    }
    if char_at(s, 10) != ' ' {
        return false;
    }
    let ghost time = s@.subrange(11, 19);
    let hour = match two_digits_at(s, 11) {
        Some(v) => v,
        None => {
            proof {
                assert(!is_digit(time[0]) || !is_digit(time[1]));
            }
            return false;
        },
    };
    if char_at(s, 13) != ':' {
        return false;
    }
    let minute = match two_digits_at(s, 14) {
        Some(v) => v,
        None => {
            proof {
                assert(!is_digit(time[3]) || !is_digit(time[4]));
            }
            return false;
        },
    };
    if char_at(s, 16) != ':' {
        return false;
    }
    let second = match two_digits_at(s, 17) {
        Some(v) => v,
        None => {
            proof {
                assert(!is_digit(time[6]) || !is_digit(time[7]));
            }
            return false;
        },
    };
    if hour > 23 || minute > 59 || second > 59 {
        proof {
            assert(two_digit_val(time, 0) == two_digit_val(s@, 11));
            assert(two_digit_val(time, 3) == two_digit_val(s@, 14));
            assert(two_digit_val(time, 6) == two_digit_val(s@, 17));
        }
        return false;
    }
    proof {
        assert(valid_time_chars(time));
    }
    true
}

/// Writes a minute of the day in the `HH:MM` display form.
pub fn format_hh_mm(minute: u32) -> (r: String)
    requires
        minute < 1440,
    ensures
        r@ == hh_mm_chars(minute as int),
{
    let h = minute / 60;
    let m = minute % 60;
    let mut r = String::new();
    push_char(&mut r, crate::strutil::digit_char_of_u32(h / 10));
    push_char(&mut r, crate::strutil::digit_char_of_u32(h % 10));
    push_char(&mut r, ':');
    push_char(&mut r, crate::strutil::digit_char_of_u32(m / 10));
    push_char(&mut r, crate::strutil::digit_char_of_u32(m % 10));
    proof {
        assert(r@ =~= hh_mm_chars(minute as int));
    }
    r
}

} // verus!
