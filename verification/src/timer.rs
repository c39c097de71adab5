//! The clock the client consults. Timing is injected through a trait so
//! the protocol logic never touches a wall clock itself: a harness supplies
//! a deterministic timer, a front-end supplies a real one.
//!
//! The model is a fuel of queries: between two looks at the clock some time
//! has passed, so a deadline can be consulted only finitely often before it
//! reports expiry. That is what lets the line-reading loop terminate.
use vstd::prelude::*;

verus! {

pub trait Timer {
    /// How often the deadline can still be consulted before it must report
    /// expiry. The default models no budget at all; a verified clock that
    /// ever answers "not yet" has to supply a real measure.
    open spec fn budget(&self) -> nat {
        0
    }

    /// Begins a new measurement, as taking a fresh timestamp does.
    fn restart(&mut self);

    /// Whether at least `timeout_ms` milliseconds have passed since the
    /// last restart. Every query that answers no consumes budget.
    fn expired(&mut self, timeout_ms: u64) -> (r: bool)
        ensures
            !r ==> final(self).budget() < old(self).budget(),
    ;

    /// Pauses the caller for `duration_ms` milliseconds.
    fn sleep_ms(&mut self, duration_ms: u64);
}

/// A deterministic timer: every query advances it by a fixed step, and
/// sleeps are recorded instead of performed. It is the library's own
/// verified clock, and what the tests run the client against.
pub struct SteppingTimer {
    /// How far one query advances the clock, in milliseconds. A step of
    /// zero is treated as one.
    pub step_ms: u64,
    /// Milliseconds since the last restart.
    pub elapsed_ms: u64,
    /// Total milliseconds of sleep requested so far.
    pub slept_ms: u64,
}

impl SteppingTimer {
    pub fn new(step_ms: u64) -> (t: SteppingTimer)
        ensures
            t.step_ms == step_ms,
            t.elapsed_ms == 0,
            t.slept_ms == 0,
    {
        SteppingTimer { step_ms, elapsed_ms: 0, slept_ms: 0 }
    }
}

impl Timer for SteppingTimer {
    open spec fn budget(&self) -> nat {
        (u64::MAX - self.elapsed_ms) as nat
    }

    fn restart(&mut self) {
        self.elapsed_ms = 0;
    }

    fn expired(&mut self, timeout_ms: u64) -> (r: bool) {
        let step: u64 = if self.step_ms == 0 {
            1
        } else {
            self.step_ms
        };
        if self.elapsed_ms <= u64::MAX - step {
            self.elapsed_ms = self.elapsed_ms + step;
        } else {
            self.elapsed_ms = u64::MAX;
        }
        self.elapsed_ms >= timeout_ms
    }

    fn sleep_ms(&mut self, duration_ms: u64) {
        if self.slept_ms <= u64::MAX - duration_ms {
            self.slept_ms = self.slept_ms + duration_ms;
        } else {
            self.slept_ms = u64::MAX;
        }
    }
}

} // verus!
