use vstd::prelude::*;
use crate::settings::Settings;
use crate::timer::{interval_nanos, interval_of, IntervalTimer};

verus! {

/// What the timer becomes when the settings move from `prev` to `cur`.
/// Unchanged settings leave it alone. A new tempo changes the interval but not
/// the progress. Starting restarts it just short of a click. Stopping pauses
/// it with its progress kept.
pub open spec fn reconciled_timer(prev: Settings, cur: Settings, t: IntervalTimer) -> IntervalTimer {
    if prev == cur {
        t
    } else {
        let t1 = if cur.bpm != prev.bpm {
            t.with_duration(interval_of(cur.bpm as int) as u64)
        } else {
            t
        };
        if cur.play != prev.play {
            if cur.play {
                t1.started()
            } else {
                t1.stopped()
            }
        } else {
            t1
        }
    }
}

/// Detects changes to the settings by comparing them with the last ones it
/// saw, and turns each change into a change of the timer.
#[derive(Clone, Copy, Debug, PartialEq, Eq, Structural)]
pub struct Reconciler {
    pub previous: Settings,
}

impl Reconciler {
    /// A reconciler that has seen `settings` last.
    pub fn new(settings: Settings) -> (r: Reconciler)
        ensures
            r.previous == settings,
    {
        Reconciler { previous: settings }
    }

    /// Brings `timer` in line with `settings` and remembers them; returns
    /// whether they differed from the last ones seen.
    pub fn reconcile(&mut self, settings: Settings, timer: &mut IntervalTimer) -> (changed: bool)
        requires
            settings.bpm > 0,
            old(timer).wf(),
        ensures
            changed == (old(self).previous != settings),
            *final(timer) == reconciled_timer(old(self).previous, settings, *old(timer)),
            final(self).previous == settings,
            final(timer).wf(),
    {
        if settings == self.previous {
            return false;
        }
        if settings.bpm != self.previous.bpm {
            let d = interval_nanos(settings.bpm);
            timer.set_duration(d);
        }
        if settings.play != self.previous.play {
            if settings.play {
                timer.start();
            } else {
                timer.pause();
            }
        }
        self.previous = settings;
        true
    }
}

} // verus!
