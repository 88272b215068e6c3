//! When the credits are looked at next.

use vstd::prelude::*;

verus! {

/// The least that is added to the interval between two looks, in seconds.
pub const LEAST_JITTER_SECS: u64 = 300;

/// The most that is added to the interval between two looks, in seconds.
pub const MOST_JITTER_SECS: u64 = 600;

/// `fastrand::u64` on a range, both ends included: chance decides which number of the range
/// comes back. On an empty range `fastrand` panics.
#[verifier::external_body]
fn jitter(low: u64, high: u64) -> (r: u64)
    requires
        low <= high,
    ensures
        low <= r <= high,
{
    fastrand::u64(low..=high)
}

/// How long to wait for the next look, with a jitter that is given, in seconds.
pub fn poll_delay_with(base: u64, jitter: u64) -> (r: u64)
    requires
        base + jitter <= u64::MAX,
    ensures
        r == base + jitter,
{
    base + jitter
}

/// How long to wait for the next look, in seconds: the interval, and five to ten minutes
/// more, so that the service is not asked in a fixed beat.
pub fn poll_delay(base: u64) -> (r: u64)
    requires
        base <= u64::MAX - MOST_JITTER_SECS,
    ensures
        base + LEAST_JITTER_SECS <= r <= base + MOST_JITTER_SECS,
{
    poll_delay_with(base, jitter(LEAST_JITTER_SECS, MOST_JITTER_SECS))
}

} // verus!
