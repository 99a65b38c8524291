//! Clock readings.
use vstd::prelude::*;

verus! {

/// A reading of the monotonic clock.
#[verifier::external_type_specification]
#[verifier::external_body]
pub struct ExInstant(std::time::Instant);

/// `Instant::now` reads the monotonic clock; nothing is said of the reading.
pub assume_specification[ std::time::Instant::now ]() -> std::time::Instant
;

/// `Instant::elapsed`: the nanoseconds since a reading of the clock; nothing is said of how many
/// there are.
#[verifier::external_body]
pub(crate) fn nanos_since(reading: &std::time::Instant) -> (r: u128) {
    reading.elapsed().as_nanos()
}

/// Whether the characters from `i` to `j` are decimal digits.
pub open spec fn digits_between(s: Seq<char>, i: int, j: int) -> bool {
    forall|k: int| i <= k < j ==> crate::text::is_digit(#[trigger] s[k])
}

/// Whether a text has the form of a time of day, as in `08:15:00`.
pub open spec fn is_time_of_day(s: Seq<char>) -> bool {
    &&& s.len() == 8
    &&& digits_between(s, 0, 2)
    &&& s[2] == ':'
    &&& digits_between(s, 3, 5)
    &&& s[5] == ':'
    &&& digits_between(s, 6, 8)
}

/// `chrono::Local::now`, formatted as `%H:%M:%S`: the local time of day, each part in two
/// digits.  Which time it is depends on the clock.
#[verifier::external_body]
pub(crate) fn time_of_day() -> (r: String)
    ensures
        is_time_of_day(r@),
{
    chrono::Local::now().format("%H:%M:%S").to_string()
}

/// Whether the first characters of a text have the form of a year: four digits, or a sign and at
/// least four digits.
pub open spec fn starts_with_year(s: Seq<char>, n: int) -> bool {
    ||| n == 4 && digits_between(s, 0, 4)
    ||| n >= 5 && (s[0] == '+' || s[0] == '-') && digits_between(s, 1, n)
}

/// Whether a text has the form of a date and a time, as in `2024-03-01_081500`.
pub open spec fn is_file_stamp(s: Seq<char>) -> bool {
    let n = s.len() as int;
    &&& n >= 17
    &&& starts_with_year(s, n - 13)
    &&& s[n - 13] == '-'
    &&& digits_between(s, n - 12, n - 10)
    &&& s[n - 10] == '-'
    &&& digits_between(s, n - 9, n - 7)
    &&& s[n - 7] == '_'
    &&& digits_between(s, n - 6, n)
}

/// `chrono::Local::now`, formatted as `%Y-%m-%d_%H%M%S`: the local date and time, with four digits
/// for the years 0 to 9999, a sign and at least four digits for others, and two digits for each
/// other part.  Which time it is depends on the clock.
#[verifier::external_body]
pub(crate) fn file_stamp() -> (r: String)
    ensures
        is_file_stamp(r@),
{
    chrono::Local::now().format("%Y-%m-%d_%H%M%S").to_string()
}

} // verus!
