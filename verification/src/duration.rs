//! Unit conversion for the requested delay, and greedy decomposition of
//! a total-seconds value into days, hours, minutes and seconds.

use vstd::prelude::*;
use vstd::arithmetic::div_mod::{lemma_div_is_ordered, lemma_fundamental_div_mod, lemma_mod_bound};

verus! {

/// Total seconds named by the four inputs: one minute is 60 seconds,
/// one hour 3600, one day 86400.
pub open spec fn total_seconds(seconds: int, minutes: int, hours: int, days: int) -> int {
    seconds + 60 * minutes + 3600 * hours + 86400 * days
}

/// Resolves the four command-line inputs (seconds, minutes, hours,
/// days) into one total duration in whole seconds.
///
/// Inputs large enough to overflow 64 bits are left out by the
/// precondition; the caller checks the sum before calling.
pub fn parse_arguments(seconds: u64, minutes: u64, hours: u64, days: u64) -> (total: u64)
    requires
        total_seconds(seconds as int, minutes as int, hours as int, days as int) <= u64::MAX,
    ensures
        total as int == total_seconds(seconds as int, minutes as int, hours as int, days as int),
{
    seconds + minutes * 60 + hours * 3600 + days * 86400
}

/// Whole days in a total-seconds value, taken greedily first.
pub open spec fn days_part(total: int) -> int {
    total / 86400
}

/// Whole hours left after the days are taken.
pub open spec fn hours_part(total: int) -> int {
    total % 86400 / 3600
}

/// Whole minutes left after the days and hours are taken.
pub open spec fn minutes_part(total: int) -> int {
    total % 86400 % 3600 / 60
}

/// Seconds left after the days, hours and minutes are taken.
pub open spec fn seconds_part(total: int) -> int {
    total % 86400 % 3600 % 60
}

/// Splits a total-seconds value greedily into whole days, hours,
/// minutes and seconds, largest unit first, each remainder carried to
/// the next unit.
pub fn decompose(total: u64) -> (parts: (u64, u64, u64, u64))
    ensures
        parts.0 as int == days_part(total as int),
        parts.1 as int == hours_part(total as int),
        parts.2 as int == minutes_part(total as int),
        parts.3 as int == seconds_part(total as int),
        parts.1 < 24,
        parts.2 < 60,
        parts.3 < 60,
        total_seconds(parts.3 as int, parts.2 as int, parts.1 as int, parts.0 as int)
            == total as int,
{
    let days: u64 = total / 86400;
    let rest_of_day: u64 = total % 86400;
    let hours: u64 = rest_of_day / 3600;
    let rest_of_hour: u64 = rest_of_day % 3600;
    let minutes: u64 = rest_of_hour / 60;
    let seconds: u64 = rest_of_hour % 60;
    proof {
        lemma_decompose_roundtrip(total as int);
        lemma_part_bounds(total as int);
    }
    (days, hours, minutes, seconds)
}

/// Decomposition round-trip: recombining the greedy parts of any
/// non-negative total-seconds value reproduces that value exactly.
pub proof fn lemma_decompose_roundtrip(total: int)
    requires
        total >= 0,
    ensures
        total_seconds(
            seconds_part(total),
            minutes_part(total),
            hours_part(total),
            days_part(total),
        ) == total,
{
    lemma_fundamental_div_mod(total, 86400);
    lemma_fundamental_div_mod(total % 86400, 3600);
    lemma_fundamental_div_mod(total % 86400 % 3600, 60);
}

/// The hours, minutes and seconds parts stay below one of the next
/// larger unit: fewer than 24 hours, 60 minutes and 60 seconds.
pub proof fn lemma_part_bounds(total: int)
    requires
        total >= 0,
    ensures
        0 <= days_part(total),
        0 <= hours_part(total) < 24,
        0 <= minutes_part(total) < 60,
        0 <= seconds_part(total) < 60,
{
    lemma_mod_bound(total, 86400);
    lemma_mod_bound(total % 86400, 3600);
    lemma_mod_bound(total % 86400 % 3600, 60);
    lemma_div_is_ordered(total % 86400, 86399, 3600);
    lemma_div_is_ordered(total % 86400 % 3600, 3599, 60);
    lemma_div_is_ordered(0, total, 86400);
    lemma_div_is_ordered(0, total % 86400, 3600);
    lemma_div_is_ordered(0, total % 86400 % 3600, 60);
    assert(86399int / 3600 == 23) by (nonlinear_arith);
    assert(3599int / 60 == 59) by (nonlinear_arith);
}

} // verus!
