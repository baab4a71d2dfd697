//! Durations: constructing them from whole units and reading back their length.
use std::time::Duration;
use vstd::prelude::*;

verus! {

/// `Duration` is `Copy`: its clone is the same duration.
pub assume_specification[ <std::time::Duration as Clone>::clone ](d: &std::time::Duration) -> (r:
    std::time::Duration)
    ensures
        r == *d,
;

/// The length of `d` in nanoseconds, as `Duration::as_nanos` reports it.
pub uninterp spec fn duration_nanos(d: Duration) -> u128;

/// The length of `d` in nanoseconds.
///
/// Calls `Duration::as_nanos`; its result is named by [`duration_nanos`].
#[verifier::external_body]
pub(crate) fn duration_as_nanos(d: Duration) -> (r: u128)
    ensures
        r == duration_nanos(d),
{
    d.as_nanos()
}

/// The number of whole seconds in `d`.
///
/// Calls `Duration::as_secs`, which the standard library documents as the number of whole
/// seconds the duration contains: its nanoseconds divided by `10^9`, rounded down.
#[verifier::external_body]
pub(crate) fn duration_as_secs(d: Duration) -> (r: u64)
    ensures
        r == duration_nanos(d) / 1_000_000_000,
{
    d.as_secs()
}

/// The duration that `Duration::from_secs` makes of `secs`.
pub uninterp spec fn duration_of_secs(secs: u64) -> Duration;

/// The duration that `Duration::from_millis` makes of `millis`.
pub uninterp spec fn duration_of_millis(millis: u64) -> Duration;

/// A duration of `secs` seconds.
///
/// Calls `Duration::from_secs`, which the standard library documents as creating a duration
/// of that many whole seconds: `secs * 10^9` nanoseconds. Its result is named by
/// [`duration_of_secs`].
#[verifier::external_body]
pub(crate) fn duration_from_secs(secs: u64) -> (d: Duration)
    ensures
        d == duration_of_secs(secs),
        duration_nanos(d) == secs * 1_000_000_000,
{
    Duration::from_secs(secs)
}

/// A duration of `millis` milliseconds.
///
/// Calls `Duration::from_millis`, which the standard library documents as creating a
/// duration of that many milliseconds: `millis * 10^6` nanoseconds. Its result is named by
/// [`duration_of_millis`]. A `Duration` is documented as a whole number of seconds and a
/// fractional part in nanoseconds, so a whole number of seconds in milliseconds gives the
/// duration that `Duration::from_secs` makes of those seconds.
#[verifier::external_body]
pub(crate) fn duration_from_millis(millis: u64) -> (d: Duration)
    ensures
        d == duration_of_millis(millis),
        duration_nanos(d) == millis * 1_000_000,
        millis % 1000 == 0 ==> d == duration_of_secs((millis / 1000) as u64),
{
    Duration::from_millis(millis)
}

/// The length of `d` in nanoseconds, capped at `i64::MAX`, as Docker's API expects it.
pub fn nanos_capped(d: Duration) -> (r: i64)
    ensures
        r == (if duration_nanos(d) <= i64::MAX {
            duration_nanos(d) as int
        } else {
            i64::MAX as int
        }),
{
    let n = duration_as_nanos(d);
    if n <= i64::MAX as u128 {
        n as i64
    } else {
        i64::MAX
    }
}

} // verus!
