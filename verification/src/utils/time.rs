//! Durations as whole nanoseconds.

use vstd::prelude::*;
use core::time::Duration;

verus! {

/// Nanoseconds in a second.
pub open spec fn nanos_per_second() -> int {
    1_000_000_000
}

/// The whole nanoseconds of a duration, as `Duration::as_nanos` gives them.
pub uninterp spec fn duration_nanos(d: Duration) -> u128;

/// The most nanoseconds a duration holds: `u64::MAX` whole seconds and a
/// fraction of a second.
pub open spec fn max_duration_nanos() -> int {
    u64::MAX * nanos_per_second() + (nanos_per_second() - 1)
}

/// Wraps `Duration::as_nanos`: the result is named `duration_nanos`. A
/// duration is a `u64` count of seconds and nanoseconds below a second, so
/// the result is at most `max_duration_nanos`.
#[verifier::external_body]
pub(crate) fn as_nanos(d: &Duration) -> (n: u128)
    ensures
        n == duration_nanos(*d),
        n <= max_duration_nanos(),
{
    d.as_nanos()
}

/// Wraps `Duration::from_secs`: the duration of `secs` whole seconds, whose
/// nanoseconds are `secs` times a billion.
#[verifier::external_body]
pub(crate) fn duration_from_secs(secs: u64) -> (d: Duration)
    ensures
        duration_nanos(d) == secs * nanos_per_second(),
{
    Duration::from_secs(secs)
}

} // verus!
