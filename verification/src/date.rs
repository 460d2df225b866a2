//! Date-times in the relay's fixed textual format `YYYY-MM-DD HH:MM:SS`,
//! parsed into a plain calendar-checked record.

use vstd::prelude::*;

verus! {

/// A calendar date with a time of day, second precision.
#[derive(Clone, Copy, Debug, PartialEq, Eq, Structural)]
pub struct DateTime {
    pub year: u16,
    pub month: u8,
    pub day: u8,
    pub hour: u8,
    pub minute: u8,
    pub second: u8,
}

/// A leap year of the Gregorian calendar.
pub open spec fn leap_year(y: int) -> bool {
    y % 4 == 0 && (y % 100 != 0 || y % 400 == 0)
}

/// How many days month `m` of year `y` has.
pub open spec fn days_in_month(y: int, m: int) -> int {
    if m == 2 {
        if leap_year(y) {
            29
        } else {
            28
        }
    } else if m == 4 || m == 6 || m == 9 || m == 11 {
        30
    } else {
        31
    }
}

/// An ASCII decimal digit.
pub open spec fn is_digit(c: char) -> bool {
    '0' as u32 <= c as u32 <= '9' as u32
}

/// The value of a decimal digit.
pub open spec fn digit_val(c: char) -> int {
    c as u32 - '0' as u32
}

/// The two-digit number at position `i`.
pub open spec fn num2(s: Seq<char>, i: int) -> int {
    digit_val(s[i]) * 10 + digit_val(s[i + 1])
}

/// The four-digit number at position `i`.
pub open spec fn num4(s: Seq<char>, i: int) -> int {
    digit_val(s[i]) * 1000 + digit_val(s[i + 1]) * 100 + digit_val(s[i + 2]) * 10 + digit_val(
        s[i + 3],
    )
}

/// The string has the exact shape `YYYY-MM-DD HH:MM:SS`: nineteen characters,
/// digits and separators in their fixed places.
pub open spec fn date_shape_ok(s: Seq<char>) -> bool {
    &&& s.len() == 19
    &&& is_digit(s[0]) && is_digit(s[1]) && is_digit(s[2]) && is_digit(s[3])
    &&& s[4] == '-'
    &&& is_digit(s[5]) && is_digit(s[6])
    &&& s[7] == '-'
    &&& is_digit(s[8]) && is_digit(s[9])
    &&& s[10] == ' '
    &&& is_digit(s[11]) && is_digit(s[12])
    &&& s[13] == ':'
    &&& is_digit(s[14]) && is_digit(s[15])
    &&& s[16] == ':'
    &&& is_digit(s[17]) && is_digit(s[18])
}

impl DateTime {
    /// A well-formed date-time: a real calendar date and a time of day.
    pub open spec fn wf(&self) -> bool {
        &&& 1 <= self.month <= 12
        &&& 1 <= self.day <= days_in_month(self.year as int, self.month as int)
        &&& self.hour <= 23
        &&& self.minute <= 59
        &&& self.second <= 59
    }
}

/// What `parse_date` returns: the date-time a string of the fixed shape
/// denotes, provided it is a real calendar date; `None` otherwise.
pub open spec fn spec_parse_date(s: Seq<char>) -> Option<DateTime> {
    if date_shape_ok(s) {
        let dt = DateTime {
            year: num4(s, 0) as u16,
            month: num2(s, 5) as u8,
            day: num2(s, 8) as u8,
            hour: num2(s, 11) as u8,
            minute: num2(s, 14) as u8,
            second: num2(s, 17) as u8,
        };
        if dt.wf() {
            Some(dt)
        } else {
            None
        }
    } else {
        None
    }
}

/// The value of the digit `c`, `None` where `c` is no digit.
fn digit(c: char) -> (r: Option<u32>)
    ensures
        match r {
            Some(v) => is_digit(c) && v == digit_val(c),
            None => !is_digit(c),
        },
{
    let u = c as u32;
    if 48 <= u && u <= 57 {
        Some(u - 48)
    } else {
        None
    }
}

/// The two-digit number at position `i`, `None` where a digit is missing.
fn num2_at(s: &str, i: usize) -> (r: Option<u32>)
    requires
        i + 2 <= s@.len() <= usize::MAX,
    ensures
        match r {
            Some(v) => is_digit(s@[i as int]) && is_digit(s@[i as int + 1]) && v == num2(
                s@,
                i as int,
            ),
            None => !(is_digit(s@[i as int]) && is_digit(s@[i as int + 1])),
        },
{
    let d1 = match digit(s.get_char(i)) {
        Some(v) => v,
        None => {
            return None;
        },
    };
    let d2 = match digit(s.get_char(i + 1)) {
        Some(v) => v,
        None => {
            return None;
        },
    };
    Some(d1 * 10 + d2)
}

/// The four-digit number at position `i`, `None` where a digit is missing.
fn num4_at(s: &str, i: usize) -> (r: Option<u32>)
    requires
        i + 4 <= s@.len() <= usize::MAX,
    ensures
        match r {
            Some(v) => is_digit(s@[i as int]) && is_digit(s@[i as int + 1]) && is_digit(
                s@[i as int + 2],
            ) && is_digit(s@[i as int + 3]) && v == num4(s@, i as int),
            None => !(is_digit(s@[i as int]) && is_digit(s@[i as int + 1]) && is_digit(
                s@[i as int + 2],
            ) && is_digit(s@[i as int + 3])),
        },
{
    let hi = match num2_at(s, i) {
        Some(v) => v,
        None => {
            return None;
        },
    };
    let lo = match num2_at(s, i + 2) {
        Some(v) => v,
        None => {
            return None;
        },
    };
    Some(hi * 100 + lo)
}

/// How many days month `m` of year `y` has.
fn days_in_month_x(y: u16, m: u8) -> (r: u8)
    requires
        1 <= m <= 12,
    ensures
        r as int == days_in_month(y as int, m as int),
{
    if m == 2 {
        if y % 4 == 0 && (y % 100 != 0 || y % 400 == 0) {
            29
        } else {
            28
        }
    } else if m == 4 || m == 6 || m == 9 || m == 11 {
        30
    } else {
        31
    }
}

/// Parses the fixed format `YYYY-MM-DD HH:MM:SS`. Returns `Some` exactly for
/// a string of that shape that names a real calendar date and time of day.
pub fn parse_date(s: &str) -> (r: Option<DateTime>)
    ensures
        r == spec_parse_date(s@),
{
    if s.unicode_len() != 19 {
        return None;
    }
    if !(s.get_char(4) == '-' && s.get_char(7) == '-' && s.get_char(10) == ' ' && s.get_char(13)
        == ':' && s.get_char(16) == ':') {
        return None;
    }
    let y = match num4_at(s, 0) {
        Some(v) => v,
        None => {
            return None;
        },
    };
    let mo = match num2_at(s, 5) {
        Some(v) => v,
        None => {
            return None;
        },
    };
    let d = match num2_at(s, 8) {
        Some(v) => v,
        None => {
            return None;
        },
    };
    let h = match num2_at(s, 11) {
        Some(v) => v,
        None => {
            return None;
        },
    };
    let mi = match num2_at(s, 14) {
        Some(v) => v,
        None => {
            return None;
        },
    };
    let se = match num2_at(s, 17) {
        Some(v) => v,
        None => {
            return None;
        },
    };
    let dt = DateTime {
        year: y as u16,
        month: mo as u8,
        day: d as u8,
        hour: h as u8,
        minute: mi as u8,
        second: se as u8,
    };
    if !(1 <= dt.month && dt.month <= 12) {
        return None;
    }
    if !(1 <= dt.day && dt.day <= days_in_month_x(dt.year, dt.month)) {
        return None;
    }
    if !(dt.hour <= 23 && dt.minute <= 59 && dt.second <= 59) {
        return None;
    }
    Some(dt)
}

} // verus!

