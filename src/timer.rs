//! Timer primitives, described by the number of seconds they wait.
//!
//! The values here say when a timer fires; the event loop that owns the
//! actual clock turns them into deadlines.
use vstd::prelude::*;

verus! {

/// The interval that follows `interval` when a backoff timer restarts:
/// doubled, but never past `ceiling`.
pub open spec fn doubled_capped(interval: int, ceiling: int) -> int {
    if 2 * interval <= ceiling {
        2 * interval
    } else {
        ceiling
    }
}

/// The interval of a backoff timer made with `initial` and `ceiling` after
/// `restarts` restarts.
pub open spec fn backoff_interval(initial: int, ceiling: int, restarts: nat) -> int
    decreases restarts,
{
    if restarts == 0 {
        initial
    } else {
        doubled_capped(backoff_interval(initial, ceiling, (restarts - 1) as nat), ceiling)
    }
}

/// Binary exponential backoff timer: it waits `interval` seconds, and each
/// restart doubles the wait up to `ceiling`.
#[derive(Clone, Copy, Debug, PartialEq, Eq, Structural)]
pub struct Backoff {
    pub initial: u64,
    pub interval: u64,
    pub ceiling: u64,
}

impl Backoff {
    /// A timer armed with `initial` seconds.
    pub fn new(initial: u64, ceiling: u64) -> (r: Backoff)
        ensures
            r.initial == initial,
            r.interval == initial,
            r.ceiling == ceiling,
    {
        Backoff { initial, interval: initial, ceiling }
    }

    /// Seconds the timer waits before it fires.
    pub fn timeout(&self) -> (r: u64)
        ensures
            r == self.interval,
    {
        self.interval
    }

    /// Rearms the timer with the doubled interval, capped at the ceiling.
    pub fn restart(&mut self)
        ensures
            final(self).initial == old(self).initial,
            final(self).ceiling == old(self).ceiling,
            final(self).interval == doubled_capped(old(self).interval as int, old(self).ceiling as int),
    {
        if self.interval <= self.ceiling && self.interval <= self.ceiling - self.interval {
            self.interval = self.interval * 2;
        } else {
            self.interval = self.ceiling;
        }
    }
}

/// Restarting a backoff timer never takes its interval past the ceiling
/// nor below the initial interval, provided the initial interval does not
/// exceed the ceiling; each restart doubles the interval until the ceiling
/// is reached.
pub proof fn lemma_backoff_bounded(initial: int, ceiling: int, restarts: nat)
    requires
        0 <= initial <= ceiling,
    ensures
        initial <= backoff_interval(initial, ceiling, restarts) <= ceiling,
        backoff_interval(initial, ceiling, restarts + 1) == doubled_capped(
            backoff_interval(initial, ceiling, restarts),
            ceiling,
        ),
    decreases restarts,
{
    if restarts > 0 {
        lemma_backoff_bounded(initial, ceiling, (restarts - 1) as nat);
    }
}

/// Floor-guarded single-shot timer: it fires once, after `duration`
/// seconds but never sooner than `floor` seconds.
#[derive(Clone, Copy, Debug, PartialEq, Eq, Structural)]
pub struct Forthon {
    pub duration: u64,
    pub floor: u64,
}

/// The larger of two seconds counts.
pub open spec fn max_secs(a: u64, b: u64) -> u64 {
    if a >= b {
        a
    } else {
        b
    }
}

impl Forthon {
    /// A timer for `duration` seconds guarded by `floor`.
    pub fn new(duration: u64, floor: u64) -> (r: Forthon)
        ensures
            r.duration == duration,
            r.floor == floor,
    {
        Forthon { duration, floor }
    }

    /// Seconds after arming at which the timer fires.
    pub fn fires_after(&self) -> (r: u64)
        ensures
            r == max_secs(self.duration, self.floor),
            r >= self.floor,
            r >= self.duration,
    {
        if self.duration >= self.floor {
            self.duration
        } else {
            self.floor
        }
    }

    /// The retransmission timer of the RENEWING and REBINDING states:
    /// half of the `remaining` seconds until the next deadline, never
    /// shorter than `floor`.
    pub fn retransmission(remaining: u64, floor: u64) -> (r: Forthon)
        ensures
            r.duration == remaining / 2,
            r.floor == floor,
    {
        Forthon::new(remaining / 2, floor)
    }
}

/// Plain deadline timer: it fires once, `after` seconds after arming.
#[derive(Clone, Copy, Debug, PartialEq, Eq, Structural)]
pub struct Deadline {
    pub after: u64,
}

impl Deadline {
    /// A deadline `after` seconds from arming.
    pub fn new(after: u64) -> (r: Deadline)
        ensures
            r.after == after,
    {
        Deadline { after }
    }
}

} // verus!
