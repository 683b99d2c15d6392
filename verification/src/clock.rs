//! The current time, read through `chrono` and rendered as text.
use vstd::prelude::*;

verus! {

/// Whether `c` is an ASCII decimal digit.
pub open spec fn is_digit(c: char) -> bool {
    0x30 <= (c as u32) <= 0x39
}

/// Whether every character of `s` is a decimal digit.
pub open spec fn all_digits(s: Seq<char>) -> bool {
    forall|i: int| 0 <= i < s.len() ==> is_digit(#[trigger] s[i])
}

/// Whether `y` is a year as chrono writes it: four or more digits, with a
/// sign in front for years outside 0 to 9999.
pub open spec fn is_year_text(y: Seq<char>) -> bool {
    ||| (y.len() >= 4 && all_digits(y))
    ||| (y.len() >= 5 && (y[0] == '+' || y[0] == '-') && all_digits(y.drop_first()))
}

/// Whether `t` has the shape of `pattern`, in which each `9` stands for any
/// digit and every other character for itself.
pub open spec fn fits_pattern(t: Seq<char>, pattern: Seq<char>) -> bool {
    &&& t.len() == pattern.len()
    &&& forall|i: int|
        0 <= i < t.len() ==> if pattern[i] == '9' {
            is_digit(#[trigger] t[i])
        } else {
            t[i] == pattern[i]
        }
}

/// Whether `s` is a time written as `%Y-%m-%d %H:%M:%S UTC`: a year, then
/// two-digit month, day, hour, minute and second, then ` UTC`.
pub open spec fn is_display_time(s: Seq<char>) -> bool {
    &&& s.len() >= 23
    &&& is_year_text(s.take(s.len() - 19))
    &&& fits_pattern(s.skip(s.len() - 19), "-99-99 99:99:99 UTC"@)
}

/// Whether `s` is an RFC 3339 UTC time whose fraction of a second takes `f`
/// characters (none, or a point and 3, 6 or 9 digits).
pub open spec fn is_rfc3339_time_with(s: Seq<char>, f: int) -> bool {
    let n = s.len() as int;
    &&& n >= f + 25
    &&& is_year_text(s.take(n - 21 - f))
    &&& fits_pattern(s.subrange(n - 21 - f, n - 6 - f), "-99-99T99:99:99"@)
    &&& f == 0 || (f == 4 && fits_pattern(s.subrange(n - 6 - f, n - 6), ".999"@)) || (f == 7
        && fits_pattern(s.subrange(n - 6 - f, n - 6), ".999999"@)) || (f == 10 && fits_pattern(
        s.subrange(n - 6 - f, n - 6),
        ".999999999"@,
    ))
    &&& s.skip(n - 6) == "+00:00"@
}

/// Whether `s` is a time as `DateTime::<Utc>::to_rfc3339` writes it: a year,
/// `-MM-DDTHH:MM:SS`, the fraction of a second when it is not zero (3, 6 or 9
/// digits), and the offset `+00:00`.
pub open spec fn is_rfc3339_time(s: Seq<char>) -> bool {
    ||| is_rfc3339_time_with(s, 0)
    ||| is_rfc3339_time_with(s, 4)
    ||| is_rfc3339_time_with(s, 7)
    ||| is_rfc3339_time_with(s, 10)
}

/// The current time as `chrono::Utc::now()` reads it, rendered with the
/// format `%Y-%m-%d %H:%M:%S UTC`. The contract claims the shape that this
/// format gives (chrono pads each field to two digits and writes the year
/// with at least four); the time itself comes from the clock.
#[verifier::external_body]
pub(crate) fn utc_now_display() -> (s: String)
    ensures
        is_display_time(s@),
{
    chrono::Utc::now().format("%Y-%m-%d %H:%M:%S UTC").to_string()
}

/// The current time as `chrono::Utc::now()` reads it, rendered by
/// `DateTime::to_rfc3339`. The contract claims the shape that chrono writes
/// for a UTC time; the time itself comes from the clock.
#[verifier::external_body]
pub(crate) fn utc_now_rfc3339() -> (s: String)
    ensures
        is_rfc3339_time(s@),
{
    chrono::Utc::now().to_rfc3339()
}

} // verus!
