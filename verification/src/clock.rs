//! Points in time, as the store keeps them.

use vstd::prelude::*;

verus! {

/// An instant on the UTC time line: whole seconds since the Unix epoch and
/// the nanoseconds past that second.
#[derive(Clone, Copy, Debug, PartialEq, Eq, Structural)]
pub struct Timestamp {
    pub secs: i64,
    pub nanos: u32,
}

/// The first second of the calendar: the start of the year 262144 BCE.
pub const MIN_SECS: i64 = -8_334_601_228_800;

/// The last second of the calendar: the end of the year 262142 CE.
pub const MAX_SECS: i64 = 8_210_266_876_799;

impl Timestamp {
    /// The instant is one that the calendar holds, and so one that can be
    /// written down as a date and a time of day: its second lies between
    /// `MIN_SECS` and `MAX_SECS`, and its nanoseconds stay under a second's
    /// worth, or, in the last second of a minute only, under two (a leap
    /// second).
    pub open spec fn spec_valid(self) -> bool {
        &&& MIN_SECS <= self.secs <= MAX_SECS
        &&& self.nanos < 2_000_000_000
        &&& self.nanos >= 1_000_000_000 ==> self.secs % 60 == 59
    }

    #[verifier::when_used_as_spec(spec_valid)]
    pub fn valid(self) -> (yes: bool)
        ensures
            yes == self.spec_valid(),
    {
        if self.secs < MIN_SECS || self.secs > MAX_SECS || self.nanos >= 2_000_000_000 {
            return false;
        }
        if self.nanos < 1_000_000_000 {
            return true;
        }
        let past: i64 = self.secs - MIN_SECS;
        assert(past % 60 == self.secs % 60);
        past % 60 == 59
    }

    /// The instant is one that the clock can show: on the calendar, not
    /// before the epoch, and with less than a second's worth of nanoseconds.
    pub open spec fn spec_reading(self) -> bool {
        self.spec_valid() && self.secs >= 0 && self.nanos < 1_000_000_000
    }

    /// `self` is the same instant as `other` or a later one.
    pub open spec fn spec_reached(self, other: Timestamp) -> bool {
        self.secs > other.secs || (self.secs == other.secs && self.nanos >= other.nanos)
    }

    #[verifier::when_used_as_spec(spec_reached)]
    pub fn reached(self, other: Timestamp) -> (yes: bool)
        ensures
            yes == self.spec_reached(other),
    {
        self.secs > other.secs || (self.secs == other.secs && self.nanos >= other.nanos)
    }
}

/// An optional deadline has passed at `now`: there is one, and `now` has
/// reached it. No deadline never passes.
pub open spec fn spec_expired(deadline: Option<Timestamp>, now: Timestamp) -> bool {
    deadline matches Some(limit) && now.spec_reached(limit)
}

#[verifier::when_used_as_spec(spec_expired)]
pub fn expired(deadline: Option<Timestamp>, now: Timestamp) -> (yes: bool)
    ensures
        yes == spec_expired(deadline, now),
{
    match deadline {
        Some(limit) => now.reached(limit),
        None => false,
    }
}

/// An optional deadline is on the calendar, where there is one.
pub open spec fn spec_valid_deadline(deadline: Option<Timestamp>) -> bool {
    deadline matches Some(limit) ==> limit.spec_valid()
}

#[verifier::when_used_as_spec(spec_valid_deadline)]
pub fn valid_deadline(deadline: Option<Timestamp>) -> (yes: bool)
    ensures
        yes == spec_valid_deadline(deadline),
{
    match deadline {
        Some(limit) => limit.valid(),
        None => true,
    }
}

/// Reads the system clock through `chrono::Utc::now`, and takes the instant
/// apart with `timestamp` and `timestamp_subsec_nanos`. Trusted: the instant
/// is a reading of the clock. It is on the calendar, as every instant is
/// that chrono hands out; it is not before the epoch, from which chrono
/// counts the system time; and its nanoseconds are those of a duration,
/// under a second's worth.
#[verifier::external_body]
pub(crate) fn utc_now() -> (now: Timestamp)
    ensures
        now.spec_reading(),
{
    let instant = chrono::Utc::now();
    Timestamp { secs: instant.timestamp(), nanos: instant.timestamp_subsec_nanos() }
}

} // verus!
