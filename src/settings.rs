use vstd::prelude::*;

verus! {

/// Tempo a fresh metronome starts with.
pub const DEFAULT_BPM: u16 = 120;

/// Slowest tempo the clamping pass lets through.
pub const MIN_BPM: u16 = 60;

/// Fastest tempo the clamping pass lets through.
pub const MAX_BPM: u16 = 300;

/// Beats per measure a fresh metronome starts with.
pub const DEFAULT_MAX_BEATS: u8 = 4;

/// The user-controlled state: tempo, whether the metronome runs, and how many
/// beats make a measure (0 turns the accent off).
#[derive(Clone, Copy, Debug, PartialEq, Eq, Structural)]
pub struct Settings {
    pub bpm: u16,
    pub play: bool,
    pub max_beats: u8,
}

/// 120 BPM, stopped, four beats to the measure.
pub open spec fn default_settings() -> Settings {
    Settings { bpm: DEFAULT_BPM, play: false, max_beats: DEFAULT_MAX_BEATS }
}

/// The nearest tempo within `[MIN_BPM, MAX_BPM]`.
pub open spec fn clamp_bpm(bpm: int) -> int {
    if bpm < MIN_BPM {
        MIN_BPM as int
    } else if bpm > MAX_BPM {
        MAX_BPM as int
    } else {
        bpm
    }
}

pub open spec fn bpm_in_range(bpm: int) -> bool {
    MIN_BPM <= bpm <= MAX_BPM
}

/// `v` pushed into the range of `u16`.
pub open spec fn saturate_u16(v: int) -> int {
    if v < 0 {
        0
    } else if v > u16::MAX {
        u16::MAX as int
    } else {
        v
    }
}

/// `v` pushed into the range of `u8`.
pub open spec fn saturate_u8(v: int) -> int {
    if v < 0 {
        0
    } else if v > u8::MAX {
        u8::MAX as int
    } else {
        v
    }
}

/// The keys that went down during one frame, already mapped to their meaning.
#[derive(Clone, Copy, Debug, PartialEq, Eq, Structural)]
pub struct KeyPresses {
    pub toggle_play: bool,
    pub bpm_up_one: bool,
    pub bpm_down_one: bool,
    pub bpm_up_ten: bool,
    pub bpm_down_ten: bool,
    pub beats_up: bool,
    pub beats_down: bool,
}

pub open spec fn flag(b: bool, weight: int) -> int {
    if b {
        weight
    } else {
        0
    }
}

/// Net change of the tempo asked for by one frame's keys.
pub open spec fn bpm_step(k: KeyPresses) -> int {
    flag(k.bpm_up_one, 1) - flag(k.bpm_down_one, 1) + flag(k.bpm_up_ten, 10) - flag(
        k.bpm_down_ten,
        10,
    )
}

/// Net change of the beats per measure asked for by one frame's keys.
pub open spec fn beats_step(k: KeyPresses) -> int {
    flag(k.beats_up, 1) - flag(k.beats_down, 1)
}

impl Settings {
    /// The same settings with the tempo clamped into range.
    pub open spec fn clamped(self) -> Settings {
        Settings { bpm: clamp_bpm(self.bpm as int) as u16, play: self.play, max_beats: self.max_beats }
    }

    /// The settings after one frame's keys, before clamping.
    pub open spec fn after_keys(self, k: KeyPresses) -> Settings {
        Settings {
            bpm: saturate_u16(self.bpm + bpm_step(k)) as u16,
            play: if k.toggle_play {
                !self.play
            } else {
                self.play
            },
            max_beats: saturate_u8(self.max_beats + beats_step(k)) as u8,
        }
    }

    /// Changes the tempo by `delta`, saturating at the bounds of `u16`; the
    /// clamping pass brings it into range afterwards.
    pub fn adjust_bpm(&mut self, delta: i32)
        ensures
            final(self).bpm == saturate_u16(old(self).bpm + delta),
            final(self).play == old(self).play,
            final(self).max_beats == old(self).max_beats,
    {
        let v: i64 = self.bpm as i64 + delta as i64;
        self.bpm = if v < 0 {
            0
        } else if v > u16::MAX as i64 {
            u16::MAX
        } else {
            v as u16
        };
    }

    /// Changes the beats per measure by `delta`, saturating at 0 and `u8::MAX`.
    pub fn adjust_max_beats(&mut self, delta: i32)
        ensures
            final(self).max_beats == saturate_u8(old(self).max_beats + delta),
            final(self).bpm == old(self).bpm,
            final(self).play == old(self).play,
    {
        let v: i64 = self.max_beats as i64 + delta as i64;
        self.max_beats = if v < 0 {
            0
        } else if v > u8::MAX as i64 {
            u8::MAX
        } else {
            v as u8
        };
    }

    /// Starts a stopped metronome or stops a running one.
    pub fn toggle_play(&mut self)
        ensures
            final(self).play == !old(self).play,
            final(self).bpm == old(self).bpm,
            final(self).max_beats == old(self).max_beats,
    {
        self.play = !self.play;
    }

    /// Applies one frame's keys: a toggle of `play`, the net tempo change and
    /// the net change of beats per measure.
    pub fn apply_keys(&mut self, keys: KeyPresses)
        ensures
            *final(self) == old(self).after_keys(keys),
    {
        if keys.toggle_play {
            self.toggle_play();
        }
        let mut bpm_delta: i32 = 0;
        if keys.bpm_up_one {
            bpm_delta = bpm_delta + 1;
        }
        if keys.bpm_down_one {
            bpm_delta = bpm_delta - 1;
        }
        if keys.bpm_down_ten {
            bpm_delta = bpm_delta - 10;
        }
        if keys.bpm_up_ten {
            bpm_delta = bpm_delta + 10;
        }
        self.adjust_bpm(bpm_delta);
        let mut beats_delta: i32 = 0;
        if keys.beats_up {
            beats_delta = beats_delta + 1;
        }
        if keys.beats_down {
            beats_delta = beats_delta - 1;
        }
        self.adjust_max_beats(beats_delta);
    }

    /// The label of the button that toggles `play`: what pressing it will do.
    pub fn play_label(&self) -> (r: &'static str)
        ensures
            self.play ==> r@ == "Stop"@,
            !self.play ==> r@ == "Play"@,
    {
        if self.play {
            "Stop"
        } else {
            "Play"
        }
    }

    /// The clamping pass: forces the tempo into `[MIN_BPM, MAX_BPM]`, leaving
    /// everything else as it is. Running it twice changes nothing more.
    pub fn limit_bpm(&mut self)
        ensures
            *final(self) == old(self).clamped(),
            bpm_in_range(final(self).bpm as int),
    {
        if self.bpm < MIN_BPM {
            self.bpm = MIN_BPM;
        }
        if self.bpm > MAX_BPM {
            self.bpm = MAX_BPM;
        }
    }
}

impl Default for Settings {
    fn default() -> (r: Settings)
        ensures
            r == default_settings(),
    {
        Settings { bpm: DEFAULT_BPM, play: false, max_beats: DEFAULT_MAX_BEATS }
    }
}

} // verus!
