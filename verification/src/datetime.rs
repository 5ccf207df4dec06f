//! Calendar timestamps and the fixed fourteen-digit pattern
//! (year, month, day, hour, minute, second) the vendor encodes them in.
use vstd::prelude::*;

use crate::text::{digit_of, digit_val, is_digit};

verus! {

/// One calendar timestamp, to the second.
#[derive(Clone, Copy, Debug, PartialEq, Eq, Hash, Structural)]
pub struct DateTime {
    pub year: u16,
    pub month: u8,
    pub day: u8,
    pub hour: u8,
    pub minute: u8,
    pub second: u8,
}

/// The Gregorian leap-year rule.
pub open spec fn leap_year(y: int) -> bool {
    y % 4 == 0 && (y % 100 != 0 || y % 400 == 0)
}

/// Days in month `m` of year `y`; zero for a month out of range.
pub open spec fn days_in_month(y: int, m: int) -> int {
    if m == 1 || m == 3 || m == 5 || m == 7 || m == 8 || m == 10 || m == 12 {
        31
    } else if m == 4 || m == 6 || m == 9 || m == 11 {
        30
    } else if m == 2 {
        if leap_year(y) {
            29
        } else {
            28
        }
    } else {
        0
    }
}

impl DateTime {
    /// A timestamp that names a real calendar second.
    pub open spec fn wf(self) -> bool {
        &&& self.year <= 9999
        &&& 1 <= self.month <= 12
        &&& 1 <= self.day <= days_in_month(self.year as int, self.month as int)
        &&& self.hour <= 23
        &&& self.minute <= 59
        &&& self.second <= 59
    }
}

/// The number read from the `k` digits of `s` that start at `i`.
pub open spec fn num_at(s: Seq<char>, i: int, k: int) -> int
    decreases k,
{
    if k <= 0 {
        0
    } else {
        num_at(s, i, k - 1) * 10 + digit_val(s[i + k - 1])
    }
}

/// A valid timestamp token: exactly fourteen digits whose six fields
/// name a real calendar second.
pub open spec fn ts_token_valid(s: Seq<char>) -> bool {
    &&& s.len() == 14
    &&& forall|i: int| 0 <= i < 14 ==> is_digit(#[trigger] s[i])
    &&& 1 <= num_at(s, 4, 2) <= 12
    &&& 1 <= num_at(s, 6, 2) <= days_in_month(num_at(s, 0, 4), num_at(s, 4, 2))
    &&& num_at(s, 8, 2) <= 23
    &&& num_at(s, 10, 2) <= 59
    &&& num_at(s, 12, 2) <= 59
}

/// The timestamp a valid token denotes.
pub open spec fn ts_of(s: Seq<char>) -> DateTime {
    DateTime {
        year: num_at(s, 0, 4) as u16,
        month: num_at(s, 4, 2) as u8,
        day: num_at(s, 6, 2) as u8,
        hour: num_at(s, 8, 2) as u8,
        minute: num_at(s, 10, 2) as u8,
        second: num_at(s, 12, 2) as u8,
    }
}

/// Days in a month, decided executably.
fn days_in_month_x(y: u32, m: u32) -> (r: u32)
    ensures
        r == days_in_month(y as int, m as int),
{
    if m == 1 || m == 3 || m == 5 || m == 7 || m == 8 || m == 10 || m == 12 {
        31
    } else if m == 4 || m == 6 || m == 9 || m == 11 {
        30
    } else if m == 2 {
        if y % 4 == 0 && (y % 100 != 0 || y % 400 == 0) {
            29
        } else {
            28
        }
    } else {
        0
    }
}

/// Reads the two digits of `s` at `i`; `None` when either is no digit.
fn two_digits(s: &str, i: usize) -> (r: Option<u32>)
    requires
        i + 2 <= s@.len(),
        i + 2 <= 14,
    ensures
        r is Some <==> is_digit(s@[i as int]) && is_digit(s@[i + 1]),
        r is Some ==> r->0 == num_at(s@, i as int, 2) && r->0 <= 99,
{
    let c0 = s.get_char(i);
    let c1 = s.get_char(i + 1);
    match (digit_of(c0), digit_of(c1)) {
        (Some(d0), Some(d1)) => {
            proof {
                assert(num_at(s@, i as int, 0) == 0);
                assert(num_at(s@, i as int, 1) == digit_val(s@[i as int]));
                assert(num_at(s@, i as int, 2) == num_at(s@, i as int, 1) * 10 + digit_val(
                    s@[i + 1],
                ));
            }
            Some((d0 as u32) * 10 + (d1 as u32))
        },
        _ => None,
    }
}

/// Parses a timestamp token; yields the calendar second exactly when
/// the token matches the fixed pattern, and nothing otherwise.
pub fn parse_timestamp(s: &str) -> (r: Option<DateTime>)
    ensures
        r is Some <==> ts_token_valid(s@),
        r is Some ==> r->0 == ts_of(s@) && r->0.wf(),
{
    let n: usize = s.unicode_len();
    if n != 14 {
        return None;
    }
    let hi = match two_digits(s, 0) {
        Some(v) => v,
        None => {
            return None;
        },
    };
    let lo = match two_digits(s, 2) {
        Some(v) => v,
        None => {
            return None;
        },
    };
    let year: u32 = hi * 100 + lo;
    proof {
        assert(num_at(s@, 0, 3) == num_at(s@, 0, 2) * 10 + digit_val(s@[2]));
        assert(num_at(s@, 0, 4) == num_at(s@, 0, 3) * 10 + digit_val(s@[3]));
        assert(num_at(s@, 2, 1) == digit_val(s@[2]));
        assert(num_at(s@, 2, 2) == num_at(s@, 2, 1) * 10 + digit_val(s@[3]));
        assert(year == num_at(s@, 0, 4));
    }
    let month = match two_digits(s, 4) {
        Some(v) => v,
        None => {
            return None;
        },
    };
    let day = match two_digits(s, 6) {
        Some(v) => v,
        None => {
            return None;
        },
    };
    let hour = match two_digits(s, 8) {
        Some(v) => v,
        None => {
            return None;
        },
    };
    let minute = match two_digits(s, 10) {
        Some(v) => v,
        None => {
            return None;
        },
    };
    let second = match two_digits(s, 12) {
        Some(v) => v,
        None => {
            return None;
        },
    };
    if month < 1 || month > 12 {
        return None;
    }
    if day < 1 || day > days_in_month_x(year, month) {
        return None;
    }
    if hour > 23 || minute > 59 || second > 59 {
        return None;
    }
    Some(
        DateTime {
            year: year as u16,
            month: month as u8,
            day: day as u8,
            hour: hour as u8,
            minute: minute as u8,
            second: second as u8,
        },
    )
}

} // verus!
