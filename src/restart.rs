use vstd::prelude::*;

use crate::session::MILLIS_PER_SECOND;

verus! {

/// Seconds between the completion of a session and its automatic restart.
pub const RESTART_DELAY_SECONDS: u64 = 3;

/// Whole seconds from `armed_at` to `now`, or zero if `now` is earlier.
pub open spec fn seconds_since(armed_at: u64, now: u64) -> int {
    if now >= armed_at {
        (now - armed_at) / (MILLIS_PER_SECOND as int)
    } else {
        0
    }
}

/// The countdown to an automatic restart: disarmed, or armed at an instant
/// (milliseconds on the caller's clock).
pub struct RestartTimer {
    pub armed_at: Option<u64>,
}

impl RestartTimer {
    pub fn new() -> (r: RestartTimer)
        ensures
            r.armed_at is None,
    {
        RestartTimer { armed_at: None }
    }

    /// The whole seconds left before the restart, while some are left.
    pub fn countdown(&self, now: u64) -> (r: Option<u64>)
        ensures
            r == match self.armed_at {
                Some(t) => if seconds_since(t, now) < RESTART_DELAY_SECONDS {
                    Some((RESTART_DELAY_SECONDS - seconds_since(t, now)) as u64)
                } else {
                    None::<u64>
                },
                None => None::<u64>,
            },
    {
        match self.armed_at {
            Some(t) => {
                let elapsed = if now >= t { (now - t) / MILLIS_PER_SECOND } else { 0 };
                if elapsed < RESTART_DELAY_SECONDS {
                    Some(RESTART_DELAY_SECONDS - elapsed)
                } else {
                    None
                }
            },
            None => None,
        }
    }

    /// A keystroke was accepted: the countdown stops.
    pub fn cancel(&mut self)
        ensures
            final(self).armed_at is None,
    {
        self.armed_at = None;
    }

    /// One turn of the control loop at `now`: arms the countdown when the
    /// session is `done` and it is disarmed; then, once the delay has passed,
    /// disarms it and returns true, meaning the session is to restart.
    pub fn step(&mut self, done: bool, now: u64) -> (r: bool)
        ensures
            ({
                let armed = if done && old(self).armed_at is None {
                    Some(now)
                } else {
                    old(self).armed_at
                };
                &&& r == (armed is Some && seconds_since(armed->0, now) >= RESTART_DELAY_SECONDS)
                &&& final(self).armed_at == if r {
                    None::<u64>
                } else {
                    armed
                }
            }),
    {
        if done && self.armed_at.is_none() {
            self.armed_at = Some(now);
        }
        match self.armed_at {
            Some(t) => {
                let elapsed = if now >= t { (now - t) / MILLIS_PER_SECOND } else { 0 };
                if elapsed >= RESTART_DELAY_SECONDS {
                    self.armed_at = None;
                    true
                } else {
                    false
                }
            },
            None => false,
        }
    }
}

} // verus!
