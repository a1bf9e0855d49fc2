//! The wall clock, read as text.

use crate::decimal::{all_digits, decimal_value};
use vstd::prelude::*;

verus! {

/// How a moment in UTC ends when it is written with its offset.
pub open spec fn utc_offset() -> Seq<char> {
    "+00:00"@
}

/// Whether `text` is made of exactly `count` decimal digits.
pub open spec fn is_digits(text: Seq<char>, count: nat) -> bool {
    text.len() == count && all_digits(text)
}

/// Whether `text` writes, in two digits, a number from `low` to `high`.
pub open spec fn is_two_digits_within(text: Seq<char>, low: nat, high: nat) -> bool {
    is_digits(text, 2) && low <= decimal_value(text) <= high
}

/// Whether `text` writes a year the way a timestamp does: in four digits or,
/// past the year 9999, as a plus sign and five digits or more.
pub open spec fn is_year(text: Seq<char>) -> bool {
    is_digits(text, 4) || (text.len() >= 6 && text[0] == '+' && all_digits(text.skip(1)))
}

/// Whether `text` writes a fraction of a second the way a timestamp does:
/// nothing at all, or a point and three, six or nine digits.
pub open spec fn is_fraction(text: Seq<char>) -> bool {
    text.len() == 0 || (text.len() >= 1 && text[0] == '.' && (is_digits(text.skip(1), 3)
        || is_digits(text.skip(1), 6) || is_digits(text.skip(1), 9)))
}

/// A date and time of day in UTC put together from its parts, as in
/// `2024-05-01T12:30:45.123+00:00`.
pub open spec fn timestamp_text(
    year: Seq<char>,
    month: Seq<char>,
    day: Seq<char>,
    hour: Seq<char>,
    minute: Seq<char>,
    second: Seq<char>,
    fraction: Seq<char>,
) -> Seq<char> {
    year + seq!['-'] + month + seq!['-'] + day + seq!['T'] + hour + seq![':'] + minute + seq![':']
        + second + fraction + utc_offset()
}

/// Whether `stamp` is written as an RFC 3339 date and time in UTC: a year; a
/// month from 01 to 12; a day from 01 to 31; an hour from 00 to 23; a minute
/// from 00 to 59; a second from 00 to 60, where 60 is a leap second; an
/// optional fraction of a second; and the offset `+00:00`.
///
/// It does not ask that the month has that many days.
pub open spec fn is_utc_timestamp(stamp: Seq<char>) -> bool {
    exists|
        year: Seq<char>,
        month: Seq<char>,
        day: Seq<char>,
        hour: Seq<char>,
        minute: Seq<char>,
        second: Seq<char>,
        fraction: Seq<char>,
    |
        is_year(year) && is_two_digits_within(month, 1, 12) && is_two_digits_within(day, 1, 31)
            && is_two_digits_within(hour, 0, 23) && is_two_digits_within(minute, 0, 59)
            && is_two_digits_within(second, 0, 60) && is_fraction(fraction) && stamp
            == #[trigger] timestamp_text(year, month, day, hour, minute, second, fraction)
}

/// A timestamp in UTC ends with the offset `+00:00`, after at least the
/// nineteen characters of a date and a time of day.
pub proof fn lemma_utc_timestamp_ends_with_offset(stamp: Seq<char>)
    requires
        is_utc_timestamp(stamp),
    ensures
        utc_offset().is_suffix_of(stamp),
        stamp.len() >= 25,
{
    reveal_strlit("+00:00");
    let (year, month, day, hour, minute, second, fraction) = choose|
        year: Seq<char>,
        month: Seq<char>,
        day: Seq<char>,
        hour: Seq<char>,
        minute: Seq<char>,
        second: Seq<char>,
        fraction: Seq<char>,
    |
        is_year(year) && is_two_digits_within(month, 1, 12) && is_two_digits_within(day, 1, 31)
            && is_two_digits_within(hour, 0, 23) && is_two_digits_within(minute, 0, 59)
            && is_two_digits_within(second, 0, 60) && is_fraction(fraction) && stamp
            == #[trigger] timestamp_text(year, month, day, hour, minute, second, fraction);
    assert(stamp.subrange(stamp.len() - 6, stamp.len() as int) =~= utc_offset());
}

/// The present moment in UTC as an RFC 3339 date and time, such as
/// `2024-05-01T12:30:45.123456789+00:00`.
///
/// This is `chrono::Utc::now()` rendered by `chrono::DateTime::to_rfc3339`,
/// and none of it is proved here. Which moment comes back depends on the
/// system clock, so the contract claims only how every reading is written.
/// `to_rfc3339` writes the year in four digits, or with a plus sign and more
/// digits past 9999; month, day, hour, minute and second in two digits each;
/// the nanoseconds, unless they are zero, as a point and three, six or nine
/// digits, whichever is the shortest that loses nothing; and the offset in
/// full, never as `Z`, which for UTC is `+00:00`. The ranges are those that
/// chrono documents for the month, day, hour, minute and second of its dates
/// and times, with the second one higher for a leap second. chrono stops the
/// program when the clock reads a moment before 1970 or one beyond the years
/// it can hold.
#[verifier::external_body]
pub(crate) fn utc_now_rfc3339() -> (stamp: String)
    ensures
        is_utc_timestamp(stamp@),
{
    chrono::Utc::now().to_rfc3339()
}

} // verus!
