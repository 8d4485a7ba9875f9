//! The trial clock.
//!
//! Time reaches the engine as the microseconds that have passed since the
//! host last asked. A repeating clock turns them into trial ticks, one per
//! period; a one-shot timer tells when a stimulus that was shown has been on
//! display long enough.

use vstd::prelude::*;

verus! {

/// Microseconds between two trial ticks: three seconds.
pub const TRIAL_PERIOD: u64 = 3_000_000;

/// Microseconds a location stays on display: half a second.
pub const DISPLAY_DURATION: u64 = 500_000;

/// A repeating clock with a fixed period.
#[derive(Clone, Copy, Debug, PartialEq, Eq, Structural)]
pub struct TrialClock {
    /// Microseconds from one tick to the next.
    pub period: u64,
    /// Microseconds since the last tick.
    pub elapsed: u64,
}

/// A one-shot timer for the display of one stimulus.
#[derive(Clone, Copy, Debug, PartialEq, Eq, Structural)]
pub struct DisplayTimer {
    /// Microseconds the stimulus still stays on display; 0 when the timer
    /// does not run.
    pub remaining: u64,
}

impl TrialClock {
    /// The period is positive and the time since the last tick is less than
    /// a period.
    pub open spec fn wf(self) -> bool {
        0 <= self.elapsed < self.period
    }

    /// A clock with the given period that has just ticked, or `None` for a
    /// period of zero.
    pub fn new(period: u64) -> (clock: Option<TrialClock>)
        ensures
            clock == if period > 0 {
                Some(TrialClock { period, elapsed: 0 })
            } else {
                None
            },
            clock matches Some(c) ==> c.wf(),
    {
        if period > 0 {
            Some(TrialClock { period, elapsed: 0 })
        } else {
            None
        }
    }

    /// Lets `delta` microseconds pass and returns the ticks that fall into
    /// them: one for every full period since the last tick.
    pub fn advance(&mut self, delta: u64) -> (ticks: u64)
        requires
            old(self).wf(),
        ensures
            final(self).wf(),
            final(self).period == old(self).period,
            ticks == (old(self).elapsed + delta) / (old(self).period as int),
            final(self).elapsed == (old(self).elapsed + delta) % (old(self).period as int),
    {
        let passed: u128 = self.elapsed as u128 + delta as u128;
        let period: u128 = self.period as u128;
        let ticks: u128 = passed / period;
        let rest: u128 = passed % period;
        assert(ticks <= delta) by (nonlinear_arith)
            requires
                ticks == passed / period,
                period >= 1,
                0 <= passed < period + delta,
        ;
        self.elapsed = rest as u64;
        ticks as u64
    }
}

impl DisplayTimer {
    /// A timer that does not run.
    pub fn idle() -> (timer: DisplayTimer)
        ensures
            timer.remaining == 0,
    {
        DisplayTimer { remaining: 0 }
    }

    /// A timer that runs for `duration` microseconds.
    pub fn start(duration: u64) -> (timer: DisplayTimer)
        ensures
            timer.remaining == duration,
    {
        DisplayTimer { remaining: duration }
    }

    /// Whether the stimulus is still on display.
    pub fn is_running(&self) -> (running: bool)
        ensures
            running == (self.remaining > 0),
    {
        self.remaining > 0
    }

    /// Lets `delta` microseconds pass. Returns `true` exactly when the timer
    /// was running and runs out in them: the moment to hide the stimulus.
    pub fn advance(&mut self, delta: u64) -> (expired: bool)
        ensures
            final(self).remaining == if delta >= old(self).remaining {
                0
            } else {
                old(self).remaining - delta
            },
            expired == (old(self).remaining > 0 && delta >= old(self).remaining),
    {
        if delta >= self.remaining {
            let expired = self.remaining > 0;
            self.remaining = 0;
            expired
        } else {
            self.remaining = self.remaining - delta;
            false
        }
    }
}

} // verus!
