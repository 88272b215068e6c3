//! Moments in time, and the clock behind them.

use vstd::prelude::*;

verus! {

/// The last second that a calendar date is known for.
pub const LAST_SECOND: i64 = 8_210_266_876_799;

/// The nanoseconds of a second.
pub const NANOS_PER_SECOND: u32 = 1_000_000_000;

/// A moment: seconds since 1970 in UTC, and the nanoseconds since the last whole one.
#[derive(Debug, Clone, Copy, PartialEq, Eq, Structural)]
pub struct Moment {
    pub secs: i64,
    pub nanos: u32,
}

impl Moment {
    /// A moment that has a calendar date, none before 1970.
    pub open spec fn wf(self) -> bool {
        0 <= self.secs <= LAST_SECOND && self.nanos < NANOS_PER_SECOND
    }

    /// The nanoseconds since 1970.
    pub open spec fn instant(self) -> int {
        self.secs * NANOS_PER_SECOND + self.nanos
    }

    /// Whether the moment is another one or comes after it.
    pub fn reached(self, other: Moment) -> (r: bool)
        requires
            self.wf(),
            other.wf(),
        ensures
            r == (self.instant() >= other.instant()),
    {
        self.secs > other.secs || (self.secs == other.secs && self.nanos >= other.nanos)
    }

    /// The moment a number of seconds later.
    pub fn plus_seconds(self, seconds: i64) -> (r: Moment)
        requires
            self.wf(),
            0 <= seconds,
            self.secs + seconds <= LAST_SECOND,
        ensures
            r.wf(),
            r.secs == self.secs + seconds,
            r.nanos == self.nanos,
    {
        Moment { secs: self.secs + seconds, nanos: self.nanos }
    }

    /// The whole seconds from `earlier` to `self`, rounded towards zero.
    pub fn seconds_since(self, earlier: Moment) -> (r: i64)
        requires
            self.wf(),
            earlier.wf(),
        ensures
            r == whole_seconds(self.instant() - earlier.instant()),
    {
        let whole: i64 = self.secs - earlier.secs;
        if whole > 0 && self.nanos < earlier.nanos {
            whole - 1
        } else if whole < 0 && self.nanos > earlier.nanos {
            whole + 1
        } else {
            whole
        }
    }
}

/// A number of nanoseconds in whole seconds, rounded towards zero.
pub open spec fn whole_seconds(nanos: int) -> int {
    if nanos >= 0 {
        nanos / NANOS_PER_SECOND as int
    } else {
        -((-nanos) / NANOS_PER_SECOND as int)
    }
}

/// The text that `chrono` writes for a moment in UTC, in the form of RFC 3339.
pub uninterp spec fn rfc3339_text(secs: i64, nanos: u32) -> Seq<char>;

/// `chrono::Utc::now`, as its seconds since 1970 and the nanoseconds since the last
/// whole one. The clock decides which moment comes back. None is before 1970 or without a
/// calendar date, where `chrono` panics, and none is within a leap second.
#[verifier::external_body]
pub(crate) fn now() -> (r: Moment)
    ensures
        r.wf(),
{
    let now = chrono::Utc::now();
    Moment { secs: now.timestamp(), nanos: now.timestamp_subsec_nanos() }
}

/// `chrono::DateTime::to_rfc3339` of the moment that `chrono::DateTime::from_timestamp`
/// makes of the seconds and nanoseconds: the text is a function of the two, named
/// `rfc3339_text`.
#[verifier::external_body]
pub(crate) fn rfc3339(moment: Moment) -> (r: String)
    requires
        moment.wf(),
    ensures
        r@ == rfc3339_text(moment.secs, moment.nanos),
{
    chrono::DateTime::<chrono::Utc>::from_timestamp(moment.secs, moment.nanos).unwrap().to_rfc3339()
}

} // verus!
