use vstd::prelude::*;

verus! {

pub open spec fn is_digit_at(s: Seq<char>, i: int) -> bool {
    '0' <= s[i] <= '9'
}

/// The value of the decimal digit at position `i`.
pub open spec fn digit_value(s: Seq<char>, i: int) -> int {
    s[i] as int - '0' as int
}

pub open spec fn two_digits(s: Seq<char>, i: int) -> int {
    10 * digit_value(s, i) + digit_value(s, i + 1)
}

pub open spec fn year_of(s: Seq<char>) -> int {
    100 * two_digits(s, 0) + two_digits(s, 2)
}

pub open spec fn month_of(s: Seq<char>) -> int {
    two_digits(s, 5)
}

pub open spec fn day_of(s: Seq<char>) -> int {
    two_digits(s, 8)
}

/// `s` has the form `YYYY-MM-DDTHH:MM:SS` followed by `Z` or by a
/// `+HH:MM` / `-HH:MM` offset, with a month from 1 to 12.
pub open spec fn is_rfc3339(s: Seq<char>) -> bool {
    &&& (s.len() == 20 && s[19] == 'Z') || (s.len() == 25 && (s[19] == '+' || s[19] == '-')
        && is_digit_at(s, 20) && is_digit_at(s, 21) && s[22] == ':' && is_digit_at(s, 23)
        && is_digit_at(s, 24))
    &&& is_digit_at(s, 0) && is_digit_at(s, 1) && is_digit_at(s, 2) && is_digit_at(s, 3)
    &&& s[4] == '-' && is_digit_at(s, 5) && is_digit_at(s, 6)
    &&& s[7] == '-' && is_digit_at(s, 8) && is_digit_at(s, 9)
    &&& s[10] == 'T' && is_digit_at(s, 11) && is_digit_at(s, 12)
    &&& s[13] == ':' && is_digit_at(s, 14) && is_digit_at(s, 15)
    &&& s[16] == ':' && is_digit_at(s, 17) && is_digit_at(s, 18)
    &&& 1 <= month_of(s) <= 12
}

pub open spec fn is_leap(y: int) -> bool {
    y % 4 == 0 && (y % 100 != 0 || y % 400 == 0)
}

/// The number of leap years among the years `0 .. y - 1`, for `y >= 0`.
pub open spec fn leap_years_before(y: int) -> int {
    if y <= 0 {
        0
    } else {
        (y - 1) / 4 - (y - 1) / 100 + (y - 1) / 400 + 1
    }
}

/// The days of the year that come before month `m`.
pub open spec fn days_before_month(m: int, leap: bool) -> int {
    let base: int = if m == 1 { 0 }
        else if m == 2 { 31 }
        else if m == 3 { 59 }
        else if m == 4 { 90 }
        else if m == 5 { 120 }
        else if m == 6 { 151 }
        else if m == 7 { 181 }
        else if m == 8 { 212 }
        else if m == 9 { 243 }
        else if m == 10 { 273 }
        else if m == 11 { 304 }
        else { 334 };
    if leap && m > 2 { base + 1 } else { base }
}

/// Days from 0000-01-01 to the given day of the proleptic Gregorian calendar.
pub open spec fn day_number(y: int, m: int, d: int) -> int {
    365 * y + leap_years_before(y) + days_before_month(m, is_leap(y)) + d - 1
}

/// The declared offset from UTC, in seconds.
pub open spec fn offset_seconds(s: Seq<char>) -> int {
    if s.len() == 20 {
        0
    } else if s[19] == '-' {
        -(two_digits(s, 20) * 3600 + two_digits(s, 23) * 60)
    } else {
        two_digits(s, 20) * 3600 + two_digits(s, 23) * 60
    }
}

/// The instant that an RFC 3339 date names, in seconds since
/// 0000-01-01T00:00:00Z; `None` for text of another form.
pub open spec fn instant(s: Seq<char>) -> Option<int> {
    if is_rfc3339(s) {
        Some(day_number(year_of(s), month_of(s), day_of(s)) * 86400 + two_digits(s, 11) * 3600
            + two_digits(s, 14) * 60 + two_digits(s, 17) - offset_seconds(s))
    } else {
        None
    }
}

pub open spec fn opt_int(v: Option<i64>) -> Option<int> {
    match v {
        Some(x) => Some(x as int),
        None => None,
    }
}

fn digit(s: &str, i: usize) -> (r: Option<i64>)
    requires
        i < s@.len(),
    ensures
        r is Some <==> is_digit_at(s@, i as int),
        r matches Some(v) ==> v == digit_value(s@, i as int) && 0 <= v <= 9,
{
    let c = s.get_char(i);
    if '0' <= c && c <= '9' {
        Some((c as u32 - '0' as u32) as i64)
    } else {
        None
    }
}

fn two(s: &str, i: usize) -> (r: Option<i64>)
    requires
        i < 24,
        i + 1 < s@.len(),
    ensures
        r is Some <==> is_digit_at(s@, i as int) && is_digit_at(s@, i + 1),
        r matches Some(v) ==> v == two_digits(s@, i as int) && 0 <= v <= 99,
{
    let a = digit(s, i)?;
    let b = digit(s, i + 1)?;
    Some(10 * a + b)
}

fn days_before_month_exec(m: i64, leap: bool) -> (r: i64)
    requires
        1 <= m <= 12,
    ensures
        r == days_before_month(m as int, leap),
        0 <= r <= 335,
{
    let base: i64 = if m == 1 { 0 }
        else if m == 2 { 31 }
        else if m == 3 { 59 }
        else if m == 4 { 90 }
        else if m == 5 { 120 }
        else if m == 6 { 151 }
        else if m == 7 { 181 }
        else if m == 8 { 212 }
        else if m == 9 { 243 }
        else if m == 10 { 273 }
        else if m == 11 { 304 }
        else { 334 };
    if leap && m > 2 { base + 1 } else { base }
}

/// The instant that the RFC 3339 date `s` names, in seconds since
/// 0000-01-01T00:00:00Z; `None` for text of another form.
pub fn instant_of(s: &str) -> (r: Option<i64>)
    ensures
        opt_int(r) == instant(s@),
{
    let n = s.unicode_len();
    let zulu = n == 20 && s.get_char(19) == 'Z';
    let offset: i64 = if zulu {
        0
    } else if n == 25 && (s.get_char(19) == '+' || s.get_char(19) == '-') && s.get_char(22) == ':' {
        let oh = two(s, 20)?;
        let om = two(s, 23)?;
        if s.get_char(19) == '-' { -(oh * 3600 + om * 60) } else { oh * 3600 + om * 60 }
    } else {
        return None;
    };
    let y1 = two(s, 0)?;
    let y2 = two(s, 2)?;
    if s.get_char(4) != '-' || s.get_char(7) != '-' || s.get_char(10) != 'T'
        || s.get_char(13) != ':' || s.get_char(16) != ':' {
        return None;
    }
    let month = two(s, 5)?;
    let day = two(s, 8)?;
    let hour = two(s, 11)?;
    let minute = two(s, 14)?;
    let second = two(s, 17)?;
    if month < 1 || month > 12 {
        return None;
    }
    let y = 100 * y1 + y2;
    let leap = y % 4 == 0 && (y % 100 != 0 || y % 400 == 0);
    let before: i64 = if y <= 0 { 0 } else { (y - 1) / 4 - (y - 1) / 100 + (y - 1) / 400 + 1 };
    let days = 365 * y + before + days_before_month_exec(month, leap) + day - 1;
    assert(is_rfc3339(s@));
    Some(days * 86400 + hour * 3600 + minute * 60 + second - offset)
}

/// `a` names a later instant than `b`; a date of no recognised form counts
/// as earlier than every recognised one.
pub open spec fn later(a: Option<int>, b: Option<int>) -> bool {
    match (a, b) {
        (Some(x), Some(y)) => x > y,
        (Some(_), None) => true,
        _ => false,
    }
}

/// Whether the date `a` is later than the date `b`, as `later` says of their instants.
pub fn is_later(a: Option<i64>, b: Option<i64>) -> (r: bool)
    ensures
        r == later(opt_int(a), opt_int(b)),
{
    match (a, b) {
        (Some(x), Some(y)) => x > y,
        (Some(_), None) => true,
        _ => false,
    }
}

} // verus!
