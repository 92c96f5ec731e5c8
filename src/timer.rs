use vstd::prelude::*;
use vstd::arithmetic::div_mod::lemma_div_is_ordered_by_denominator;

verus! {

/// Nanoseconds in one minute.
pub const NANOS_PER_MINUTE: u64 = 60_000_000_000;

/// How far short of a full interval a freshly started timer is left, so that
/// the first click comes on the next tick rather than an interval later.
pub const START_MARGIN: u64 = 1_000;

/// Length of one beat at `bpm` beats per minute, in nanoseconds (rounded down).
pub open spec fn interval_of(bpm: int) -> int {
    NANOS_PER_MINUTE as int / bpm
}

/// Where a timer with interval `duration` stands right after it is started.
pub open spec fn primed_elapsed(duration: int) -> int {
    if duration > START_MARGIN {
        duration - START_MARGIN
    } else {
        0
    }
}

/// The length of one beat at `bpm` beats per minute, in nanoseconds.
pub fn interval_nanos(bpm: u16) -> (r: u64)
    requires
        bpm > 0,
    ensures
        r == interval_of(bpm as int),
        r > START_MARGIN,
{
    proof {
        lemma_div_is_ordered_by_denominator(NANOS_PER_MINUTE as int, bpm as int, u16::MAX as int);
    }
    NANOS_PER_MINUTE / (bpm as u64)
}

/// A repeating timer: progress accumulates while it runs, and each time it
/// reaches `duration` it wraps around and counts one completed interval.
#[derive(Clone, Copy, Debug, PartialEq, Eq, Structural)]
pub struct IntervalTimer {
    pub duration: u64,
    pub elapsed: u64,
    pub paused: bool,
}

impl IntervalTimer {
    pub open spec fn wf(self) -> bool {
        self.duration > 0
    }

    /// How many intervals complete when `delta` nanoseconds pass.
    pub open spec fn crossings(self, delta: int) -> int {
        if self.paused {
            0
        } else {
            (self.elapsed + delta) / (self.duration as int)
        }
    }

    /// The timer after `delta` nanoseconds pass.
    pub open spec fn ticked(self, delta: int) -> IntervalTimer {
        if self.paused {
            self
        } else {
            IntervalTimer {
                duration: self.duration,
                elapsed: ((self.elapsed + delta) % (self.duration as int)) as u64,
                paused: false,
            }
        }
    }

    /// The timer with a new interval; progress is kept.
    pub open spec fn with_duration(self, duration: u64) -> IntervalTimer {
        IntervalTimer { duration, elapsed: self.elapsed, paused: self.paused }
    }

    /// The timer started afresh, just short of its first completed interval.
    pub open spec fn started(self) -> IntervalTimer {
        IntervalTimer {
            duration: self.duration,
            elapsed: primed_elapsed(self.duration as int) as u64,
            paused: false,
        }
    }

    /// The timer stopped; progress is kept.
    pub open spec fn stopped(self) -> IntervalTimer {
        IntervalTimer { duration: self.duration, elapsed: self.elapsed, paused: true }
    }

    /// A stopped timer with no progress.
    pub fn new_paused(duration: u64) -> (r: IntervalTimer)
        requires
            duration > 0,
        ensures
            r.wf(),
            r == (IntervalTimer { duration, elapsed: 0, paused: true }),
    {
        IntervalTimer { duration, elapsed: 0, paused: true }
    }

    /// Lets `delta` nanoseconds pass and returns how many intervals completed.
    /// A paused timer does not move.
    pub fn tick(&mut self, delta: u64) -> (fired: u128)
        requires
            old(self).wf(),
        ensures
            *final(self) == old(self).ticked(delta as int),
            fired == old(self).crossings(delta as int),
            final(self).wf(),
            !final(self).paused ==> final(self).elapsed < final(self).duration,
    {
        if self.paused {
            return 0;
        }
        let total: u128 = self.elapsed as u128 + delta as u128;
        let d: u128 = self.duration as u128;
        let fired: u128 = total / d;
        self.elapsed = (total % d) as u64;
        fired
    }

    /// Changes the interval without touching the progress made so far.
    pub fn set_duration(&mut self, duration: u64)
        requires
            duration > 0,
        ensures
            *final(self) == old(self).with_duration(duration),
            final(self).wf(),
    {
        self.duration = duration;
    }

    /// Starts the timer from zero and advances it to just short of one
    /// interval, so that the next tick of at least `START_MARGIN` completes it.
    pub fn start(&mut self)
        ensures
            *final(self) == old(self).started(),
    {
        self.paused = false;
        self.elapsed = 0;
        if self.duration > START_MARGIN {
            self.elapsed = self.duration - START_MARGIN;
        }
    }

    /// Stops the timer; the progress is kept for when it runs again.
    pub fn pause(&mut self)
        ensures
            *final(self) == old(self).stopped(),
    {
        self.paused = true;
    }
}

} // verus!
