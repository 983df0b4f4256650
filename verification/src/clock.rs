//! Time of day on a wall clock: where the local zone stands at an instant,
//! and the `HH:MM:SS` text of an instant under a given offset.

use crate::numeral::{digit, digit_text};
use chrono::TimeZone;
use vstd::prelude::*;

verus! {

/// Seconds in a day.
pub const DAY: i64 = 86_400;

/// The second of the day, from 0 to 86399, that the instant `secs` (Unix
/// seconds, UTC) falls on where clocks run `shift` seconds ahead of UTC.
pub open spec fn second_of_day(secs: int, shift: int) -> int {
    (secs + shift) % 86_400
}

/// `n`, from 0 to 99, in two digits.
pub open spec fn two_digits(n: int) -> Seq<char> {
    seq![digit(n / 10), digit(n % 10)]
}

/// The clock text `HH:MM:SS` of a second of the day.
pub open spec fn clock_of(second: int) -> Seq<char> {
    two_digits(second / 3600) + seq![':'] + two_digits(second / 60 % 60) + seq![':'] + two_digits(
        second % 60,
    )
}

/// The clock text of the instant `secs` under the offset `shift`.
pub open spec fn local_clock(secs: i64, shift: i32) -> Seq<char> {
    clock_of(second_of_day(secs as int, shift as int))
}

/// Whether `shift` is an offset that a time zone can have: less than a day
/// either way.
pub open spec fn shift_in_range(shift: i32) -> bool {
    -86_400 < shift < 86_400
}

/// The first instant that chrono has a date for: the start of the year
/// -262143, in Unix seconds.
pub const FIRST_INSTANT: i64 = -8_334_601_228_800;

/// The last instant that chrono has a date for: the end of the year 262142,
/// in Unix seconds.
pub const LAST_INSTANT: i64 = 8_210_266_876_799;

/// Whether chrono has a date for an instant.
pub open spec fn has_date(secs: i64) -> bool {
    FIRST_INSTANT <= secs <= LAST_INSTANT
}

/// `TimeZone::timestamp_opt` of `chrono::Local`, then `DateTime::offset` and
/// `FixedOffset::local_minus_utc`: how many seconds local clocks run ahead of
/// UTC at the instant `secs`. There is an answer exactly where
/// `DateTime::from_timestamp` has a date for the instant, which is where its
/// day falls in a year from `MIN_YEAR` to `MAX_YEAR` of chrono's dates. The
/// answer itself depends on the zone that the machine is set to, so only its
/// range is claimed, which `FixedOffset` keeps. Chrono panics on zone data
/// that holds an offset of a day or more, which no zone has.
#[verifier::external_body]
pub(crate) fn local_shift(secs: i64) -> (shift: Option<i32>)
    ensures
        shift is Some <==> has_date(secs),
        shift matches Some(s) ==> shift_in_range(s),
{
    match chrono::Local.timestamp_opt(secs, 0) {
        chrono::LocalResult::Single(moment) => Some(moment.offset().local_minus_utc()),
        chrono::LocalResult::Ambiguous(_, _) => None,
        chrono::LocalResult::None => None,
    }
}

/// Appends `n` in two digits.
fn push_two_digits(out: &mut String, n: u64)
    requires
        n < 100,
    ensures
        final(out)@ == old(out)@ + two_digits(n as int),
{
    out.append(digit_text(n / 10));
    out.append(digit_text(n % 10));
    assert(out@ =~= old(out)@ + two_digits(n as int));
}

/// The second of the day of an instant under an offset.
pub fn day_second(secs: i64, shift: i32) -> (second: u64)
    ensures
        second == second_of_day(secs as int, shift as int),
        second < 86_400,
{
    let base: i64 = match secs.checked_rem_euclid(DAY) {
        Some(r) => r,
        None => 0,
    };
    let lead: i64 = match (shift as i64).checked_rem_euclid(DAY) {
        Some(r) => r,
        None => 0,
    };
    let sum: i64 = base + lead;
    let second: i64 = if sum >= DAY {
        sum - DAY
    } else {
        sum
    };
    assert(second == (secs + shift) % 86_400) by {
        vstd::arithmetic::div_mod::lemma_add_mod_noop(secs as int, shift as int, 86_400);
    }
    second as u64
}

/// The clock text `HH:MM:SS` of the instant `secs` (Unix seconds, UTC) where
/// clocks run `shift` seconds ahead of UTC.
pub fn clock_text(secs: i64, shift: i32) -> (text: String)
    ensures
        text@ == local_clock(secs, shift),
        text@.len() == 8,
{
    let second: u64 = day_second(secs, shift);
    let mut text = String::new();
    push_two_digits(&mut text, second / 3600);
    text.append(":");
    push_two_digits(&mut text, second / 60 % 60);
    text.append(":");
    push_two_digits(&mut text, second % 60);
    proof {
        reveal_strlit(":");
        assert(":"@ =~= seq![':']);
        assert(text@ =~= local_clock(secs, shift));
    }
    text
}

} // verus!
