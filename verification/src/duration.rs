//! `std::time::Duration`, seen through the number of nanoseconds it spans.

use std::time::Duration;
use vstd::prelude::*;

verus! {

/// Total nanoseconds spanned by a duration: the value `Duration::as_nanos`
/// returns.
pub uninterp spec fn duration_nanos(d: Duration) -> nat;

/// `Duration::as_nanos`: the total number of whole nanoseconds in `d`.
#[verifier::external_body]
pub(crate) fn nanos_of(d: Duration) -> (n: u128)
    ensures
        n == duration_nanos(d),
{
    d.as_nanos()
}

/// `Duration::from_millis`: a duration of exactly `millis` milliseconds.
#[verifier::external_body]
pub(crate) fn from_millis(millis: u64) -> (d: Duration)
    ensures
        duration_nanos(d) == millis * 1_000_000,
{
    Duration::from_millis(millis)
}

/// `Duration::from_secs`: a duration of exactly `secs` seconds.
#[verifier::external_body]
pub(crate) fn from_secs(secs: u64) -> (d: Duration)
    ensures
        duration_nanos(d) == secs * 1_000_000_000,
{
    Duration::from_secs(secs)
}

/// `Duration::saturating_sub`: `limit - elapsed`, or zero when `elapsed` is
/// at least `limit`.
#[verifier::external_body]
pub(crate) fn saturating_sub(limit: Duration, elapsed: Duration) -> (d: Duration)
    ensures
        duration_nanos(d) == if duration_nanos(limit) >= duration_nanos(elapsed) {
            duration_nanos(limit) - duration_nanos(elapsed)
        } else {
            0
        },
{
    limit.saturating_sub(elapsed)
}

/// The text `Duration`'s `Debug` format gives (such as `5s` or `250ms`).
pub uninterp spec fn duration_debug_text(d: Duration) -> Seq<char>;

/// `format!("{:?}", d)`: the `Debug` text of a duration.
#[verifier::external_body]
pub(crate) fn debug_text(d: Duration) -> (s: String)
    ensures
        s@ == duration_debug_text(d),
{
    format!("{:?}", d)
}

/// `Duration`'s `Clone`: a duration is `Copy`, and its clone is the same value.
pub assume_specification[ <Duration as Clone>::clone ](d: &Duration) -> (r: Duration)
    ensures
        r == *d,
;

/// Whether a duration spans no time (`Duration::is_zero`).
pub fn is_zero(d: Duration) -> (b: bool)
    ensures
        b == (duration_nanos(d) == 0),
{
    nanos_of(d) == 0
}

/// Whether `a` is strictly longer than `b` (`Duration`'s `>`).
pub fn longer_than(a: Duration, b: Duration) -> (r: bool)
    ensures
        r == (duration_nanos(a) > duration_nanos(b)),
{
    nanos_of(a) > nanos_of(b)
}

} // verus!
