//! The wall clock, as the processor sees it.

use vstd::prelude::*;

verus! {

/// Whether `c` is one of the ten decimal digits.
pub open spec fn is_digit(c: char) -> bool {
    '0' <= c <= '9'
}

/// Whether `s` holds decimal digits and nothing else.
pub open spec fn all_digits(s: Seq<char>) -> bool {
    forall|i: int| 0 <= i < s.len() ==> is_digit(#[trigger] s[i])
}

/// A year of the common era: four digits, or a plus sign before five
/// digits or more.
pub open spec fn is_year(s: Seq<char>) -> bool {
    ||| s.len() == 4 && all_digits(s)
    ||| s.len() >= 6 && s[0] == '+' && all_digits(s.subrange(1, s.len() as int))
}

/// What follows the year, down to the second: `-MM-DDTHH:MM:SS`, each
/// letter a digit.
pub open spec fn is_month_to_second(s: Seq<char>) -> bool {
    &&& s.len() == 15
    &&& s[0] == '-' && is_digit(s[1]) && is_digit(s[2])
    &&& s[3] == '-' && is_digit(s[4]) && is_digit(s[5])
    &&& s[6] == 'T' && is_digit(s[7]) && is_digit(s[8])
    &&& s[9] == ':' && is_digit(s[10]) && is_digit(s[11])
    &&& s[12] == ':' && is_digit(s[13]) && is_digit(s[14])
}

/// A fraction of a second with `digits` digits: nothing where `digits`
/// is zero, else a full stop and the digits.
pub open spec fn is_fraction(s: Seq<char>, digits: int) -> bool {
    if digits == 0 {
        s.len() == 0
    } else {
        s.len() == digits + 1 && s[0] == '.' && all_digits(s.subrange(1, s.len() as int))
    }
}

/// Whether `stamp` reads year, month to second, a fraction of `digits`
/// digits and the offset `+00:00`, in this order and with nothing else.
pub open spec fn is_utc_timestamp_with(stamp: Seq<char>, digits: int) -> bool {
    let fraction = if digits == 0 {
        0
    } else {
        digits + 1
    };
    let year = stamp.len() - 21 - fraction;
    &&& year >= 4
    &&& is_year(stamp.subrange(0, year))
    &&& is_month_to_second(stamp.subrange(year, year + 15))
    &&& is_fraction(stamp.subrange(year + 15, year + 15 + fraction), digits)
    &&& stamp.subrange(year + 15 + fraction, stamp.len() as int) == "+00:00"@
}

/// The shape of an instant of the common era written in UTC: a date and a
/// time of day joined by `T`, seconds whole or with three, six or nine
/// decimals, and a zero offset written as `+00:00`.
pub open spec fn is_utc_timestamp(stamp: Seq<char>) -> bool {
    ||| is_utc_timestamp_with(stamp, 0)
    ||| is_utc_timestamp_with(stamp, 3)
    ||| is_utc_timestamp_with(stamp, 6)
    ||| is_utc_timestamp_with(stamp, 9)
}

/// Trusted: calls `chrono::Utc::now` and renders the instant with
/// `chrono::DateTime::to_rfc3339`.
///
/// The instant is whatever the system clock says, so two calls may differ
/// and the digits are left open. What is claimed is the shape that
/// `to_rfc3339` gives to every instant that `Utc::now` can hand back: the
/// year in four digits (beyond 9999, a plus sign and all its digits), then
/// `-MM-DDTHH:MM:SS`, then no fraction or one of three, six or nine
/// digits, then the offset, which for UTC is always `+00:00`.
///
/// `Utc::now` does not return when the system clock stands before the Unix
/// epoch or beyond the years that `chrono` can represent.
#[verifier::external_body]
pub(crate) fn current_timestamp() -> (stamp: String)
    ensures
        is_utc_timestamp(stamp@),
{
    chrono::Utc::now().to_rfc3339()
}

} // verus!
