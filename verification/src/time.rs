//! Points in time, as the event loop reads them from its clock.

use vstd::prelude::*;

verus! {

/// Milliseconds in one second.
pub const MILLIS_PER_SECOND: u64 = 1000;

/// Milliseconds in half a second: what one second of time-to-live adds to a
/// renewal deadline.
pub const MILLIS_PER_HALF_SECOND: u64 = 500;

/// A point in time, in whole milliseconds since an origin that the event
/// loop chooses (its own start, say). A time-to-live comes in whole seconds,
/// so half of one is a whole number of milliseconds.
#[derive(Clone, Copy, Debug, PartialEq, Eq, Structural)]
pub struct Instant {
    pub millis: u64,
}

/// The deadline for renewing a registration that was granted at `granted_at`
/// for `ttl` seconds: half the time-to-live later, or the last instant there
/// is where that lies beyond it.
pub open spec fn renewal_deadline(granted_at: Instant, ttl: u64) -> Instant {
    let exact = granted_at.millis + MILLIS_PER_HALF_SECOND * ttl;
    Instant { millis: if exact <= u64::MAX { exact as u64 } else { u64::MAX } }
}

impl Instant {
    /// The instant `millis` milliseconds after the origin.
    pub fn from_millis(millis: u64) -> (t: Instant)
        ensures
            t.millis == millis,
    {
        Instant { millis }
    }

    /// The instant `secs` seconds after the origin; the last instant there
    /// is, where that many milliseconds do not fit.
    pub fn from_secs(secs: u64) -> (t: Instant)
        ensures
            t.millis == (if secs * MILLIS_PER_SECOND <= u64::MAX {
                secs * MILLIS_PER_SECOND
            } else {
                u64::MAX as int
            }),
    {
        if secs <= u64::MAX / MILLIS_PER_SECOND {
            Instant { millis: secs * MILLIS_PER_SECOND }
        } else {
            Instant { millis: u64::MAX }
        }
    }

    /// Milliseconds since the origin.
    pub fn as_millis(&self) -> (millis: u64)
        ensures
            millis == self.millis,
    {
        self.millis
    }

    /// Whether this instant lies at or after `deadline`.
    pub fn has_reached(&self, deadline: Instant) -> (reached: bool)
        ensures
            reached == (self.millis >= deadline.millis),
    {
        self.millis >= deadline.millis
    }

    /// The renewal deadline of a registration granted at this instant for
    /// `ttl` seconds.
    pub fn renewal_after(&self, ttl: u64) -> (deadline: Instant)
        ensures
            deadline == renewal_deadline(*self, ttl),
    {
        let room: u64 = (u64::MAX - self.millis) / MILLIS_PER_HALF_SECOND;
        if ttl <= room {
            assert(MILLIS_PER_HALF_SECOND * ttl <= u64::MAX - self.millis) by (nonlinear_arith)
                requires
                    ttl <= room,
                    room == (u64::MAX - self.millis) / 500,
                    MILLIS_PER_HALF_SECOND == 500,
            ;
            Instant { millis: self.millis + MILLIS_PER_HALF_SECOND * ttl }
        } else {
            assert(MILLIS_PER_HALF_SECOND * ttl > u64::MAX - self.millis) by (nonlinear_arith)
                requires
                    ttl > room,
                    room == (u64::MAX - self.millis) / 500,
                    MILLIS_PER_HALF_SECOND == 500,
            ;
            Instant { millis: u64::MAX }
        }
    }
}

} // verus!
