//! Whether activity is being tracked, and timed or indefinite pauses.
//!
//! Instants are monotonic nanoseconds; wall-clock times are Unix
//! milliseconds.
use vstd::prelude::*;

verus! {

/// Nanoseconds in a second.
pub const NANOS_PER_SEC: u128 = 1_000_000_000;

/// Milliseconds in a day.
pub const DAY_MS: i64 = 86_400_000;

/// Whether tracking is on, and until when it is paused.
#[derive(Debug, Clone, Copy, PartialEq, Eq, Structural)]
pub struct TrackingState {
    pub is_tracking: bool,
    /// The instant at which a timed pause ends; `None` while tracking or
    /// when the pause is indefinite.
    pub pause_until: Option<u128>,
}

/// The pause information shown to the user: `None` while tracking;
/// otherwise the whole seconds left of a timed pause (zero once it is over,
/// at most `u64::MAX`) and whether the pause is indefinite.
pub open spec fn pause_info_spec(s: TrackingState, now: u64) -> Option<(u64, bool)> {
    if s.is_tracking {
        None
    } else {
        match s.pause_until {
            Some(t) => {
                let secs = if t > now {
                    (t - now) / (NANOS_PER_SEC as int)
                } else {
                    0
                };
                Some((if secs > u64::MAX {
                    u64::MAX
                } else {
                    secs as u64
                }, false))
            },
            None => Some((0, true)),
        }
    }
}

/// The state after pausing at `now` for `d` seconds, or indefinitely.
pub open spec fn paused_state(now: u64, d: Option<u64>) -> TrackingState {
    TrackingState {
        is_tracking: false,
        pause_until: match d {
            Some(x) => Some((now + x * NANOS_PER_SEC) as u128),
            None => None,
        },
    }
}

/// The state after resuming: tracking, no pause pending.
pub open spec fn resumed_state() -> TrackingState {
    TrackingState { is_tracking: true, pause_until: None }
}

/// The state after toggling: tracking flipped, a pending pause end kept.
pub open spec fn toggled(s: TrackingState) -> TrackingState {
    TrackingState { is_tracking: !s.is_tracking, pause_until: s.pause_until }
}

impl TrackingState {
    /// Tracking on, not paused (the state at start-up).
    pub fn new() -> (res: Self)
        ensures
            res.is_tracking,
            res.pause_until is None,
    {
        TrackingState { is_tracking: true, pause_until: None }
    }

    /// Turns tracking on; a pending pause end is kept.
    pub fn start_tracking(&mut self)
        ensures
            final(self).is_tracking,
            final(self).pause_until == old(self).pause_until,
    {
        self.is_tracking = true;
    }

    /// Turns tracking off; a pending pause end is kept.
    pub fn stop_tracking(&mut self)
        ensures
            !final(self).is_tracking,
            final(self).pause_until == old(self).pause_until,
    {
        self.is_tracking = false;
    }

    /// Whether tracking is on.
    pub fn get_tracking_status(&self) -> (res: bool)
        ensures
            res == self.is_tracking,
    {
        self.is_tracking
    }

    /// Pauses tracking at `now`: for `duration_seconds`, or indefinitely.
    pub fn pause_tracking(&mut self, now: u64, duration_seconds: Option<u64>)
        ensures
            *final(self) == paused_state(now, duration_seconds),
    {
        self.is_tracking = false;
        self.pause_until = match duration_seconds {
            Some(d) => {
                assert(d * NANOS_PER_SEC <= u64::MAX * NANOS_PER_SEC) by (nonlinear_arith);
                Some(now as u128 + (d as u128) * NANOS_PER_SEC)
            },
            None => None,
        };
    }

    /// Pauses tracking indefinitely.
    pub fn pause_tracking_indefinitely(&mut self, now: u64)
        ensures
            !final(self).is_tracking,
            final(self).pause_until is None,
    {
        self.pause_tracking(now, None)
    }

    /// Resumes tracking and forgets any pause.
    pub fn resume_tracking(&mut self)
        ensures
            *final(self) == resumed_state(),
    {
        self.is_tracking = true;
        self.pause_until = None;
    }

    /// Stops tracking if it is on, starts it otherwise.
    pub fn toggle_tracking(&mut self)
        ensures
            *final(self) == toggled(*old(self)),
    {
        if self.is_tracking {
            self.stop_tracking();
        } else {
            self.start_tracking();
        }
    }

    /// The pause information at `now`.
    pub fn pause_info(&self, now: u64) -> (res: Option<(u64, bool)>)
        ensures
            res == pause_info_spec(*self, now),
    {
        if self.is_tracking {
            return None;
        }
        match self.pause_until {
            Some(t) => {
                let secs: u128 = if t > now as u128 {
                    (t - now as u128) / NANOS_PER_SEC
                } else {
                    0
                };
                let capped: u64 = if secs > u64::MAX as u128 {
                    u64::MAX
                } else {
                    secs as u64
                };
                Some((capped, false))
            },
            None => Some((0, true)),
        }
    }

    /// At `now`, ends a timed pause that is over: tracking resumes and the
    /// result is true. Otherwise nothing changes and the result is false.
    pub fn resume_if_pause_expired(&mut self, now: u64) -> (res: bool)
        ensures
            res == (match old(self).pause_until {
                Some(t) => now >= t,
                None => false,
            }),
            res ==> *final(self) == resumed_state(),
            !res ==> *final(self) == *old(self),
    {
        match self.pause_until {
            Some(t) => if now as u128 >= t {
                self.pause_until = None;
                self.is_tracking = true;
                true
            } else {
                false
            },
            None => false,
        }
    }
}

/// Seconds from `now_ms` (Unix milliseconds) to the next midnight UTC: the
/// whole seconds of the time left in the current day, so between 0 and
/// 86400.
pub open spec fn seconds_until_tomorrow_spec(now_ms: i64) -> int {
    (DAY_MS - (now_ms % DAY_MS)) / 1000
}

/// Seconds from `now_ms` (Unix milliseconds) to the next midnight UTC.
pub fn seconds_until_tomorrow(now_ms: i64) -> (res: u64)
    ensures
        res == seconds_until_tomorrow_spec(now_ms),
        res <= 86_400,
{
    let r: i64 = match now_ms.checked_rem_euclid(DAY_MS) {
        Some(v) => v,
        None => 0,
    };
    assert(r == now_ms % DAY_MS);
    ((DAY_MS - r) / 1000) as u64
}

/// How often (ms) the tracking loop looks at the front application: twice
/// a second in focus mode, every five seconds otherwise.
pub fn check_interval_ms(focus_enabled: bool) -> (res: u64)
    ensures
        res == (if focus_enabled {
            500u64
        } else {
            5000u64
        }),
{
    if focus_enabled {
        500
    } else {
        5000
    }
}

} // verus!
