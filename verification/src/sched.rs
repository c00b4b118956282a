//! Adaptive poll scheduler: the device waits `sleep_ms` between polls,
//! backing off exponentially (1 → 10 → 100 → 250ms, capped) after every ten
//! consecutive idle ticks, and snapping back to the 1ms minimum the moment a
//! kick is observed. Host requests are assumed to arrive in bursts, so after
//! any activity the device stays at minimum latency until a sustained quiet
//! period has passed.

use vstd::prelude::*;
use crate::{MIN_SLEEP_MS, MAX_SLEEP_MS, IDLE_TICKS_PER_BACKOFF, INITIAL_SLEEP_MS};

verus! {

/// Scheduler state: the current idle interval and how many consecutive idle
/// ticks have elapsed since the interval last changed.
#[derive(Clone, Copy, PartialEq, Eq, Structural, Debug)]
pub struct Scheduler {
    pub sleep_ms: u32,
    pub sleeps: u32,
}

impl Scheduler {
    /// The state a fresh scheduler starts in.
    pub open spec fn spec_initial() -> Scheduler {
        Scheduler { sleep_ms: INITIAL_SLEEP_MS, sleeps: 0u32 }
    }

    /// The interval stays within [1, 250]ms and the tick count below the
    /// backoff threshold.
    pub open spec fn wf(&self) -> bool {
        &&& MIN_SLEEP_MS <= self.sleep_ms <= MAX_SLEEP_MS
        &&& self.sleeps < IDLE_TICKS_PER_BACKOFF
    }

    /// A fresh scheduler starts at the coarse ceiling: nothing has happened
    /// yet, so there is no latency to chase.
    pub fn new() -> (s: Scheduler)
        ensures
            s == Scheduler::spec_initial(),
            s.wf(),
    {
        Scheduler { sleep_ms: INITIAL_SLEEP_MS, sleeps: 0 }
    }

    /// One idle tick: nothing was pending after a wait.
    pub fn note_idle(&mut self)
        requires
            old(self).wf(),
        ensures
            *final(self) == spec_idle_tick(*old(self)),
            final(self).wf(),
    {
        self.sleeps = self.sleeps + 1;
        if self.sleeps == IDLE_TICKS_PER_BACKOFF {
            self.sleep_ms = if self.sleep_ms * 10 <= MAX_SLEEP_MS {
                self.sleep_ms * 10
            } else {
                MAX_SLEEP_MS
            };
            self.sleeps = 0;
        }
    }

    /// A kick was observed: snap back to minimum latency and restart the
    /// quiet-period count.
    pub fn note_kick(&mut self)
        ensures
            *final(self) == (Scheduler { sleep_ms: MIN_SLEEP_MS, sleeps: 0u32 }),
            final(self).wf(),
    {
        self.sleep_ms = MIN_SLEEP_MS;
        self.sleeps = 0;
    }
}

/// Tenfold backoff, capped at the 250ms ceiling.
pub open spec fn capped_tenfold(ms: u32) -> u32 {
    if ms * 10 <= MAX_SLEEP_MS { (ms * 10) as u32 } else { MAX_SLEEP_MS }
}

/// Effect of one idle tick: count it, and on every tenth consecutive one
/// stretch the interval tenfold (capped) and restart the count.
pub open spec fn spec_idle_tick(s: Scheduler) -> Scheduler {
    if s.sleeps + 1 == IDLE_TICKS_PER_BACKOFF {
        Scheduler { sleep_ms: capped_tenfold(s.sleep_ms), sleeps: 0u32 }
    } else {
        Scheduler { sleep_ms: s.sleep_ms, sleeps: (s.sleeps + 1) as u32 }
    }
}

/// `n` consecutive idle ticks with no kick in between.
pub open spec fn spec_idle_run(s: Scheduler, n: nat) -> Scheduler
    decreases n,
{
    if n == 0 {
        s
    } else {
        spec_idle_tick(spec_idle_run(s, (n - 1) as nat))
    }
}

} // verus!
