use vstd::prelude::*;
use crate::beat::{beat_after, sounds_after, BeatState, Sound};
use crate::reconciler::{reconciled_timer, Reconciler};
use crate::settings::{bpm_in_range, default_settings, Settings, DEFAULT_BPM};
use crate::timer::{interval_nanos, interval_of, IntervalTimer};

verus! {

/// Everything the metronome keeps between frames: the settings that input
/// changes, the beat counter, the timer, and the last settings reconciled.
#[derive(Clone, Copy, Debug, PartialEq, Eq, Structural)]
pub struct Metronome {
    pub settings: Settings,
    pub state: BeatState,
    pub timer: IntervalTimer,
    pub reconciler: Reconciler,
}

impl Metronome {
    /// The timer runs at the interval of the last reconciled tempo, which is in
    /// range, and it is paused exactly when those settings say stop.
    pub open spec fn wf(self) -> bool {
        &&& self.timer.wf()
        &&& bpm_in_range(self.reconciler.previous.bpm as int)
        &&& self.timer.duration == interval_of(self.reconciler.previous.bpm as int)
        &&& self.timer.paused == !self.reconciler.previous.play
    }

    /// The timer once this frame's settings, clamped, have been reconciled.
    pub open spec fn prepared_timer(self) -> IntervalTimer {
        reconciled_timer(self.reconciler.previous, self.settings.clamped(), self.timer)
    }

    /// How many clicks a frame in which `delta` nanoseconds passed plays.
    pub open spec fn frame_clicks(self, delta: int) -> int {
        self.prepared_timer().crossings(delta)
    }

    /// Default settings, no beat yet, and a stopped timer at the default tempo.
    pub fn new() -> (r: Metronome)
        ensures
            r.wf(),
            r.settings == default_settings(),
            r.reconciler.previous == r.settings,
            r.state.beat == 0,
            r.timer == (IntervalTimer { duration: interval_of(DEFAULT_BPM as int) as u64, elapsed: 0, paused: true }),
    {
        let settings = Settings::default();
        Metronome {
            settings,
            state: BeatState::new(),
            timer: IntervalTimer::new_paused(interval_nanos(DEFAULT_BPM)),
            reconciler: Reconciler::new(settings),
        }
    }

    /// The current beat of the measure.
    pub fn beat(&self) -> (r: u8)
        ensures
            r == self.state.beat,
    {
        self.state.beat
    }

    /// One frame in which `delta` nanoseconds passed, after input has changed
    /// the settings: clamps the tempo, reconciles the timer with the settings,
    /// ticks it, and advances the beat once per completed interval. Returns
    /// the clicks to play, in order.
    pub fn frame(&mut self, delta: u64) -> (sounds: Vec<Sound>)
        requires
            old(self).wf(),
        ensures
            final(self).wf(),
            final(self).settings == old(self).settings.clamped(),
            final(self).reconciler.previous == old(self).settings.clamped(),
            final(self).timer == old(self).prepared_timer().ticked(delta as int),
            final(self).state.beat == beat_after(
                old(self).state.beat as int,
                old(self).settings.max_beats as int,
                old(self).frame_clicks(delta as int) as nat,
            ),
            sounds@ == sounds_after(
                old(self).state.beat as int,
                old(self).settings.max_beats as int,
                old(self).frame_clicks(delta as int) as nat,
            ),
    {
        self.settings.limit_bpm();
        let settings = self.settings;
        self.reconciler.reconcile(settings, &mut self.timer);
        let count = self.timer.tick(delta);
        self.state.advance(settings.max_beats, count)
    }
}

} // verus!
