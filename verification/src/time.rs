//! Durations, as far as the library's contracts speak of them.
use std::time::Duration;
use vstd::prelude::*;

verus! {

/// The length of a `Duration` in nanoseconds (what `Duration::as_nanos` reports).
pub uninterp spec fn duration_nanos(d: Duration) -> nat;

/// `Duration::from_secs`: a duration of `secs` whole seconds.
#[verifier::external_body]
pub fn seconds(secs: u64) -> (d: Duration)
    ensures
        duration_nanos(d) == secs * 1_000_000_000,
{
    Duration::from_secs(secs)
}

/// `Duration::from_millis`: a duration of `millis` milliseconds.
#[verifier::external_body]
pub fn milliseconds(millis: u64) -> (d: Duration)
    ensures
        duration_nanos(d) == millis * 1_000_000,
{
    Duration::from_millis(millis)
}

/// The length of `Duration::MAX` (`u64::MAX` seconds and 999 999 999 nanoseconds), in
/// nanoseconds.
pub open spec fn max_duration_nanos() -> int {
    u64::MAX as int * 1_000_000_000 + 999_999_999
}

/// `Duration::checked_mul`: `d` multiplied by `k`, or `None` where the product would
/// exceed `Duration::MAX`.
#[verifier::external_body]
pub fn checked_scale(d: Duration, k: u32) -> (r: Option<Duration>)
    ensures
        r is Some <==> duration_nanos(d) * k <= max_duration_nanos(),
        r matches Some(p) ==> duration_nanos(p) == duration_nanos(d) * k,
{
    d.checked_mul(k)
}

} // verus!
