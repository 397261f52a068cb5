//! The wall clock, read through chrono.
use vstd::prelude::*;

verus! {

/// An ASCII decimal digit.
pub open spec fn ascii_digit(c: char) -> bool {
    '0' <= c && c <= '9'
}

/// The value of the two digits of `s` at `i` and `i + 1`, both digits and
/// the value within `lo..=hi`.
pub open spec fn two_digits(s: Seq<char>, i: int, lo: int, hi: int) -> bool {
    &&& 0 <= i && i + 1 < s.len()
    &&& ascii_digit(s[i])
    &&& ascii_digit(s[i + 1])
    &&& lo <= (s[i] as int - '0' as int) * 10 + (s[i + 1] as int - '0' as int) <= hi
}

/// A year as chrono's `%Y` writes it: at least four characters, digits, the
/// first of which may instead be a sign (for years outside 0 to 9999).
pub open spec fn year_text(y: Seq<char>) -> bool {
    &&& y.len() >= 4
    &&& (ascii_digit(y[0]) || y[0] == '+' || y[0] == '-')
    &&& forall|i: int| 1 <= i < y.len() ==> ascii_digit(#[trigger] y[i])
}

/// A date as `%Y%m%d` writes it: the year, then the month (01 to 12) and
/// the day (01 to 31) in two digits each.
pub open spec fn date_stamp(s: Seq<char>) -> bool {
    &&& s.len() >= 8
    &&& year_text(s.take(s.len() - 4))
    &&& two_digits(s, s.len() - 4, 1, 12)
    &&& two_digits(s, s.len() - 2, 1, 31)
}

/// A date and time written as the year, then `-MM-DD`, the separator `sep`,
/// and `HH:MM:SS`, with the month 01 to 12, the day 01 to 31, the hour 00 to
/// 23, the minute 00 to 59 and the second 00 to 60.
pub open spec fn date_time_text(s: Seq<char>, sep: char) -> bool {
    let n = s.len() as int;
    &&& n >= 19
    &&& year_text(s.take(n - 15))
    &&& s[n - 15] == '-'
    &&& two_digits(s, n - 14, 1, 12)
    &&& s[n - 12] == '-'
    &&& two_digits(s, n - 11, 1, 31)
    &&& s[n - 9] == sep
    &&& two_digits(s, n - 8, 0, 23)
    &&& s[n - 6] == ':'
    &&& two_digits(s, n - 5, 0, 59)
    &&& s[n - 3] == ':'
    &&& two_digits(s, n - 2, 0, 60)
}

/// A time as `%Y-%m-%d %H:%M:%S` writes it.
pub open spec fn time_stamp(s: Seq<char>) -> bool {
    date_time_text(s, ' ')
}

/// `s` is a date and time, `T` between them, followed by a `.` and `k - 1`
/// digits of a second's fraction.
pub open spec fn with_fraction(s: Seq<char>, k: int) -> bool {
    let n = s.len() as int;
    &&& n >= 19 + k
    &&& s[n - k] == '.'
    &&& forall|i: int| n - k < i < n ==> ascii_digit(#[trigger] s[i])
    &&& date_time_text(s.take(n - k), 'T')
}

/// A UTC time as chrono's `to_rfc3339` writes it: the date and time with a
/// `T` between them, no fraction of a second or one of 3, 6 or 9 digits, and
/// the offset `+00:00`.
pub open spec fn rfc3339_utc(s: Seq<char>) -> bool {
    let n = s.len() as int;
    let body = s.take(n - 6);
    &&& n >= 25
    &&& s[n - 6] == '+'
    &&& s[n - 5] == '0'
    &&& s[n - 4] == '0'
    &&& s[n - 3] == ':'
    &&& s[n - 2] == '0'
    &&& s[n - 1] == '0'
    &&& (date_time_text(body, 'T') || with_fraction(body, 4) || with_fraction(body, 7)
        || with_fraction(body, 10))
}

/// Calls `chrono::Utc::now()` and renders it with `to_rfc3339()`.
///
/// Which moment the result shows depends on when it is called, so the
/// contract states only its shape, as chrono writes it: the date and time
/// with a `T` between them, the year padded to four digits and signed
/// outside 0 to 9999, a fraction of a second only when it is not zero (3, 6
/// or 9 digits), and the offset `+00:00`. `Utc::now` panics when the system
/// clock reads earlier than 1970, a fault of the machine that no argument
/// can rule out.
#[verifier::external_body]
pub(crate) fn utc_now_rfc3339() -> (r: String)
    ensures
        rfc3339_utc(r@),
{
    chrono::Utc::now().to_rfc3339()
}

/// Calls `chrono::Local::now()` and renders it with `format(pattern)`.
///
/// The result is the current local time in the given strftime pattern. Which
/// time it is depends on the moment of the call and on the machine's time
/// zone, so the contract states only the shape that chrono's documentation
/// gives each specifier of the two patterns (`%Y` the year, padded to four
/// digits and signed outside 0 to 9999; `%m`, `%d`, `%H`, `%M`, `%S` two
/// digits in their ranges). Only these two patterns are admitted: chrono
/// panics while rendering a malformed pattern.
#[verifier::external_body]
pub(crate) fn local_now_formatted(pattern: &str) -> (r: String)
    requires
        pattern@ == "%Y%m%d"@ || pattern@ == "%Y-%m-%d %H:%M:%S"@,
    ensures
        pattern@ == "%Y%m%d"@ ==> date_stamp(r@),
        pattern@ == "%Y-%m-%d %H:%M:%S"@ ==> time_stamp(r@),
{
    chrono::Local::now().format(pattern).to_string()
}

} // verus!
