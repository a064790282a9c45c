//! A calendar date-time held as plain numbers, with the formats the feed
//! needs: `YYYY-MM-DD` dates, `HH-MM-SS` / `HH:MM:SS` times, and parsing of
//! the upstream `YYYY-MM-DD HH:MM:SS` wire format.

use crate::xmltext::{push_pad2, push_pad4, spec_pad2, spec_pad4};
use vstd::prelude::*;
use vstd::string::StrSliceExecFns;

verus! {

/// A date and time of day, to second precision, with no time zone.
#[derive(Clone, Copy, Debug, PartialEq, Eq, Structural)]
pub struct DateTime {
    pub year: u64,
    pub month: u64,
    pub day: u64,
    pub hour: u64,
    pub minute: u64,
    pub second: u64,
}

/// Whether a year is a leap year in the Gregorian calendar.
pub open spec fn spec_is_leap_year(y: nat) -> bool {
    y % 4 == 0 && (y % 100 != 0 || y % 400 == 0)
}

/// How many days the month has, leap years included.
pub open spec fn spec_days_in_month(y: nat, m: nat) -> nat {
    if m == 2 {
        if spec_is_leap_year(y) {
            29
        } else {
            28
        }
    } else if m == 4 || m == 6 || m == 9 || m == 11 {
        30
    } else {
        31
    }
}

fn is_leap_year(y: u64) -> (r: bool)
    ensures
        r == spec_is_leap_year(y as nat),
{
    y % 4 == 0 && (y % 100 != 0 || y % 400 == 0)
}

fn days_in_month(y: u64, m: u64) -> (r: u64)
    ensures
        r as nat == spec_days_in_month(y as nat, m as nat),
{
    if m == 2 {
        if is_leap_year(y) {
            29
        } else {
            28
        }
    } else if m == 4 || m == 6 || m == 9 || m == 11 {
        30
    } else {
        31
    }
}

impl DateTime {
    /// A well-formed value: every field within its calendar range.
    pub open spec fn wf(self) -> bool {
        &&& self.year < 10000
        &&& 1 <= self.month <= 12
        &&& 1 <= self.day <= spec_days_in_month(self.year as nat, self.month as nat)
        &&& self.hour < 24
        &&& self.minute < 60
        &&& self.second < 60
    }

    /// The date part as `YYYY-MM-DD`.
    pub open spec fn spec_date(self) -> Seq<char> {
        spec_pad4(self.year as nat) + "-"@ + spec_pad2(self.month as nat) + "-"@ + spec_pad2(
            self.day as nat,
        )
    }

    /// The time part as two-digit fields joined by the given separator.
    pub open spec fn spec_time(self, sep: char) -> Seq<char> {
        spec_pad2(self.hour as nat) + seq![sep] + spec_pad2(self.minute as nat) + seq![sep]
            + spec_pad2(self.second as nat)
    }

    /// Builds a value, checking every field against its calendar range.
    pub fn new(year: u64, month: u64, day: u64, hour: u64, minute: u64, second: u64) -> (r: Option<
        DateTime,
    >)
        ensures
            ({
                let dt = DateTime { year, month, day, hour, minute, second };
                if dt.wf() {
                    r == Some(dt)
                } else {
                    r is None
                }
            }),
    {
        if year < 10000 && 1 <= month && month <= 12 && 1 <= day && day <= days_in_month(
            year,
            month,
        ) && hour < 24 && minute < 60 && second < 60 {
            Some(DateTime { year, month, day, hour, minute, second })
        } else {
            None
        }
    }

    /// Appends the `YYYY-MM-DD` date to `out`.
    pub fn push_date(self, out: &mut String)
        requires
            self.wf(),
        ensures
            final(out)@ == old(out)@ + self.spec_date(),
    {
        push_pad4(out, self.year);
        out.push('-');
        push_pad2(out, self.month);
        out.push('-');
        push_pad2(out, self.day);
        proof {
            reveal_strlit("-");
            assert(out@ =~= old(out)@ + self.spec_date());
        }
    }

    /// Appends the time to `out` as two-digit fields joined by `sep`.
    pub fn push_time(self, out: &mut String, sep: char)
        requires
            self.wf(),
        ensures
            final(out)@ == old(out)@ + self.spec_time(sep),
    {
        push_pad2(out, self.hour);
        out.push(sep);
        push_pad2(out, self.minute);
        out.push(sep);
        push_pad2(out, self.second);
        proof {
            assert(out@ =~= old(out)@ + self.spec_time(sep));
        }
    }

    /// The `YYYY-MM-DD` date as a string of its own.
    pub fn date_string(self) -> (r: String)
        requires
            self.wf(),
        ensures
            r@ == self.spec_date(),
    {
        let mut out = String::new();
        self.push_date(&mut out);
        proof {
            assert(out@ =~= self.spec_date());
        }
        out
    }
}

/// Whether the character is a decimal digit.
pub open spec fn spec_is_digit(c: char) -> bool {
    '0' <= c && c <= '9'
}

/// The numeric value of a digit character.
pub open spec fn spec_digit_val(c: char) -> int {
    c as int - '0' as int
}

/// The number read from two digit characters at position `i`.
pub open spec fn spec_num2(s: Seq<char>, i: int) -> int {
    spec_digit_val(s[i]) * 10 + spec_digit_val(s[i + 1])
}

/// The number read from four digit characters at position `i`.
pub open spec fn spec_num4(s: Seq<char>, i: int) -> int {
    spec_digit_val(s[i]) * 1000 + spec_digit_val(s[i + 1]) * 100 + spec_digit_val(s[i + 2]) * 10
        + spec_digit_val(s[i + 3])
}

/// Whether the string has the exact shape `YYYY-MM-DD HH:MM:SS`.
pub open spec fn spec_date_time_shape(s: Seq<char>) -> bool {
    &&& s.len() == 19
    &&& s[4] == '-'
    &&& s[7] == '-'
    &&& s[10] == ' '
    &&& s[13] == ':'
    &&& s[16] == ':'
    &&& spec_is_digit(s[0])
    &&& spec_is_digit(s[1])
    &&& spec_is_digit(s[2])
    &&& spec_is_digit(s[3])
    &&& spec_is_digit(s[5])
    &&& spec_is_digit(s[6])
    &&& spec_is_digit(s[8])
    &&& spec_is_digit(s[9])
    &&& spec_is_digit(s[11])
    &&& spec_is_digit(s[12])
    &&& spec_is_digit(s[14])
    &&& spec_is_digit(s[15])
    &&& spec_is_digit(s[17])
    &&& spec_is_digit(s[18])
}

/// What parsing a `YYYY-MM-DD HH:MM:SS` string yields: the field values when
/// the shape and every calendar range hold, nothing otherwise.
pub open spec fn spec_parse_date_time(s: Seq<char>) -> Option<DateTime> {
    if spec_date_time_shape(s) {
        let dt = DateTime {
            year: spec_num4(s, 0) as u64,
            month: spec_num2(s, 5) as u64,
            day: spec_num2(s, 8) as u64,
            hour: spec_num2(s, 11) as u64,
            minute: spec_num2(s, 14) as u64,
            second: spec_num2(s, 17) as u64,
        };
        if dt.wf() {
            Some(dt)
        } else {
            None
        }
    } else {
        None
    }
}

fn read_digit(s: &str, i: usize) -> (r: Option<u64>)
    requires
        i < s@.len(),
    ensures
        match r {
            Some(d) => spec_is_digit(s@[i as int]) && d == spec_digit_val(s@[i as int]) && d < 10,
            None => !spec_is_digit(s@[i as int]),
        },
{
    let c = s.get_char(i);
    if '0' <= c && c <= '9' {
        Some(c as u64 - 48)
    } else {
        None
    }
}

fn read_num2(s: &str, i: usize) -> (r: Option<u64>)
    requires
        i < 100,
        i + 1 < s@.len(),
    ensures
        match r {
            Some(n) => spec_is_digit(s@[i as int]) && spec_is_digit(s@[i + 1]) && n == spec_num2(
                s@,
                i as int,
            ) && n < 100,
            None => !(spec_is_digit(s@[i as int]) && spec_is_digit(s@[i + 1])),
        },
{
    match (read_digit(s, i), read_digit(s, i + 1)) {
        (Some(a), Some(b)) => Some(a * 10 + b),
        _ => None,
    }
}

fn read_num4(s: &str, i: usize) -> (r: Option<u64>)
    requires
        i < 100,
        i + 3 < s@.len(),
    ensures
        match r {
            Some(n) => spec_is_digit(s@[i as int]) && spec_is_digit(s@[i + 1]) && spec_is_digit(
                s@[i + 2],
            ) && spec_is_digit(s@[i + 3]) && n == spec_num4(s@, i as int) && n < 10000,
            None => !(spec_is_digit(s@[i as int]) && spec_is_digit(s@[i + 1]) && spec_is_digit(
                s@[i + 2],
            ) && spec_is_digit(s@[i + 3])),
        },
{
    match (read_digit(s, i), read_digit(s, i + 1), read_digit(s, i + 2), read_digit(s, i + 3)) {
        (Some(a), Some(b), Some(c), Some(d)) => Some(a * 1000 + b * 100 + c * 10 + d),
        _ => None,
    }
}

/// Parses the upstream wire format `YYYY-MM-DD HH:MM:SS`, exactly: nineteen
/// characters, fixed separators, every field within its calendar range.
pub fn parse_date_time(s: &str) -> (r: Option<DateTime>)
    ensures
        r == spec_parse_date_time(s@),
        r matches Some(dt) ==> dt.wf(),
{
    if s.unicode_len() != 19 {
        return None;
    }
    if !(s.get_char(4) == '-' && s.get_char(7) == '-' && s.get_char(10) == ' ' && s.get_char(13)
        == ':' && s.get_char(16) == ':') {
        return None;
    }
    let year = match read_num4(s, 0) {
        Some(n) => n,
        None => {
            return None;
        },
    };
    let month = match read_num2(s, 5) {
        Some(n) => n,
        None => {
            return None;
        },
    };
    let day = match read_num2(s, 8) {
        Some(n) => n,
        None => {
            return None;
        },
    };
    let hour = match read_num2(s, 11) {
        Some(n) => n,
        None => {
            return None;
        },
    };
    let minute = match read_num2(s, 14) {
        Some(n) => n,
        None => {
            return None;
        },
    };
    let second = match read_num2(s, 17) {
        Some(n) => n,
        None => {
            return None;
        },
    };
    DateTime::new(year, month, day, hour, minute, second)
}

} // verus!
