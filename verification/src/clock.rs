//! The local time of day, as text.

use chrono::Local;
use vstd::prelude::*;

verus! {

/// Layout of the timestamp that starts a debug or trace line: date, `T`,
/// time of day with milliseconds, offset from UTC.
pub open spec fn spec_timestamp_format() -> Seq<char> {
    "%Y-%m-%dT%H:%M:%S.%3f%z"@
}

pub fn timestamp_format() -> (r: &'static str)
    ensures
        r@ == spec_timestamp_format(),
{
    "%Y-%m-%dT%H:%M:%S.%3f%z"
}

/// A decimal digit.
pub open spec fn is_digit(c: char) -> bool {
    '0' <= c && c <= '9'
}

/// `s[from..to]` holds decimal digits only.
pub open spec fn all_digits(s: Seq<char>, from: int, to: int) -> bool {
    forall|i: int| from <= i < to ==> is_digit(#[trigger] s[i])
}

/// `s` is a point in time written in the layout above: the year, which has
/// four digits, or a plus sign and five or more where four do not hold it;
/// then month and day, `T`, hour, minute and second, each of two digits;
/// a point and three digits of milliseconds; and the offset from UTC as a
/// sign and four digits. `2024-05-06T07:08:09.123+0200` is one.
pub open spec fn is_timestamp(s: Seq<char>) -> bool {
    let y = s.len() - 24;
    &&& (y == 4 && all_digits(s, 0, 4)) || (y >= 6 && s[0] == '+' && all_digits(s, 1, y))
    &&& s[y] == '-' && all_digits(s, y + 1, y + 3)
    &&& s[y + 3] == '-' && all_digits(s, y + 4, y + 6)
    &&& s[y + 6] == 'T' && all_digits(s, y + 7, y + 9)
    &&& s[y + 9] == ':' && all_digits(s, y + 10, y + 12)
    &&& s[y + 12] == ':' && all_digits(s, y + 13, y + 15)
    &&& s[y + 15] == '.' && all_digits(s, y + 16, y + 19)
    &&& (s[y + 19] == '+' || s[y + 19] == '-') && all_digits(s, y + 20, y + 24)
}

/// `chrono`: `Local::now()`, formatted. Which time comes back depends on
/// the clock and the time zone of the machine; how it is written does not.
/// `chrono` pads the year to four digits and signs it beyond 9999, pads
/// month, day, hour, minute and second to two digits and the milliseconds to
/// three, and writes the offset as a sign, two digits of hours and two of
/// minutes. The layout is held to the one above, which `chrono` accepts;
/// `chrono` panics where the system clock stands before 1970.
#[verifier::external_body]
fn local_time(format: &str) -> (out: String)
    requires
        format@ == spec_timestamp_format(),
    ensures
        is_timestamp(out@),
{
    Local::now().format(format).to_string()
}

/// The current local time in the layout of `timestamp_format`.
pub fn local_timestamp() -> (out: String)
    ensures
        is_timestamp(out@),
{
    local_time(timestamp_format())
}

} // verus!
