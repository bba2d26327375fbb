use vstd::prelude::*;

verus! {

/// A point in time, in milliseconds on the host's monotonic clock.
pub type Millis = u64;

/// Milliseconds passed between `since` and `now`; zero if `now` is not later.
pub open spec fn elapsed_between(since: Millis, now: Millis) -> int {
    if now >= since {
        now - since
    } else {
        0
    }
}

/// Decides when the displayed picture is due to be replaced: the time of the
/// last swap, and the interval in seconds that has to pass before the next.
#[derive(Clone, Copy, Debug, PartialEq, Eq, Structural)]
pub struct RotationTimer {
    pub interval_secs: u64,
    pub last_swap: Millis,
}

impl RotationTimer {
    /// Milliseconds since the last swap.
    pub open spec fn elapsed(&self, now: Millis) -> int {
        elapsed_between(self.last_swap, now)
    }

    /// The interval has passed in full: the boundary itself counts as due.
    pub open spec fn is_due(&self, now: Millis) -> bool {
        self.elapsed(now) >= self.interval_secs * 1000
    }

    /// The timer right after a swap at `now`.
    pub open spec fn restarted(self, now: Millis) -> RotationTimer {
        RotationTimer { interval_secs: self.interval_secs, last_swap: now }
    }

    /// A timer whose interval runs from `now`.
    pub fn new(interval_secs: u64, now: Millis) -> (timer: RotationTimer)
        ensures
            timer == (RotationTimer { interval_secs, last_swap: now }),
    {
        RotationTimer { interval_secs, last_swap: now }
    }

    /// Whether a swap is due at `now`.
    pub fn due(&self, now: Millis) -> (due: bool)
        ensures
            due == self.is_due(now),
    {
        let elapsed: u64 = if now >= self.last_swap {
            now - self.last_swap
        } else {
            0
        };
        elapsed / 1000 >= self.interval_secs
    }

    /// Makes `now` the baseline from which the interval is measured.
    pub fn reset(&mut self, now: Millis)
        ensures
            *final(self) == old(self).restarted(now),
            final(self).elapsed(now) == 0,
    {
        self.last_swap = now;
    }
}

/// The cadence at which a redraw is requested from the window system: a fixed
/// interval, armed again each time it fires.
#[derive(Clone, Copy, Debug, PartialEq, Eq, Structural)]
pub struct RedrawTimer {
    pub interval_ms: u64,
    pub last_fired: Millis,
}

impl RedrawTimer {
    /// The time at which the timer fires next.
    pub open spec fn deadline(&self) -> int {
        self.last_fired + self.interval_ms
    }

    /// The timer armed at `now`.
    pub open spec fn armed(self, now: Millis) -> RedrawTimer {
        RedrawTimer { interval_ms: self.interval_ms, last_fired: now }
    }

    /// A timer of the given interval, counted as last fired at `now`.
    pub fn new(interval_ms: u64, now: Millis) -> (timer: RedrawTimer)
        ensures
            timer == (RedrawTimer { interval_ms, last_fired: now }),
    {
        RedrawTimer { interval_ms, last_fired: now }
    }

    /// Arms the timer at `now` and returns the timeout to wait for.
    pub fn arm(&mut self, now: Millis) -> (timeout_ms: u64)
        ensures
            *final(self) == old(self).armed(now),
            timeout_ms == old(self).interval_ms,
            final(self).deadline() == now + timeout_ms,
    {
        self.last_fired = now;
        self.interval_ms
    }
}

} // verus!
