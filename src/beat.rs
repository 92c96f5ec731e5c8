use vstd::prelude::*;

verus! {

/// Which click to play: the accented one on the first beat of a measure, the
/// plain one on every other beat.
#[derive(Clone, Copy, Debug, PartialEq, Eq, Structural)]
pub enum Sound {
    Strong,
    Weak,
}

/// Position within the measure: `1..=max_beats` once a beat has sounded, and
/// 0 before the first beat or while measures are switched off.
#[derive(Clone, Copy, Debug, PartialEq, Eq, Structural)]
pub struct BeatState {
    pub beat: u8,
}

/// The beat that follows `beat` in a measure of `max_beats`.
pub open spec fn next_beat(beat: int, max_beats: int) -> int {
    if max_beats > 0 {
        beat % max_beats + 1
    } else {
        0
    }
}

/// The click that sounds on `beat`.
pub open spec fn sound_of(beat: int) -> Sound {
    if beat == 1 {
        Sound::Strong
    } else {
        Sound::Weak
    }
}

/// The beat after `k` completed intervals, starting from `beat`.
pub open spec fn beat_after(beat: int, max_beats: int, k: nat) -> int
    decreases k,
{
    if k == 0 {
        beat
    } else {
        next_beat(beat_after(beat, max_beats, (k - 1) as nat), max_beats)
    }
}

/// The clicks of `k` completed intervals, starting from `beat`, in order.
pub open spec fn sounds_after(beat: int, max_beats: int, k: nat) -> Seq<Sound>
    decreases k,
{
    if k == 0 {
        Seq::empty()
    } else {
        sounds_after(beat, max_beats, (k - 1) as nat).push(
            sound_of(beat_after(beat, max_beats, k)),
        )
    }
}

/// Every beat reached from a beat that fits a `u8` fits one too.
pub proof fn lemma_beat_after_bounded(beat: int, max_beats: int, k: nat)
    requires
        0 <= beat <= u8::MAX,
        0 <= max_beats <= u8::MAX,
    ensures
        0 <= beat_after(beat, max_beats, k) <= u8::MAX,
        k > 0 && max_beats > 0 ==> 1 <= beat_after(beat, max_beats, k) <= max_beats,
        k > 0 && max_beats == 0 ==> beat_after(beat, max_beats, k) == 0,
    decreases k,
{
    if k > 0 {
        lemma_beat_after_bounded(beat, max_beats, (k - 1) as nat);
        let prev = beat_after(beat, max_beats, (k - 1) as nat);
        if max_beats > 0 {
            assert(0 <= prev % max_beats < max_beats) by (nonlinear_arith)
                requires
                    prev >= 0,
                    max_beats > 0,
            ;
        }
    }
}

impl BeatState {
    /// No beat has sounded yet.
    pub fn new() -> (r: BeatState)
        ensures
            r.beat == 0,
    {
        BeatState { beat: 0 }
    }

    /// One completed interval: moves to the next beat of the measure and
    /// returns the click for it.
    pub fn on_interval(&mut self, max_beats: u8) -> (s: Sound)
        ensures
            final(self).beat == next_beat(old(self).beat as int, max_beats as int),
            s == sound_of(final(self).beat as int),
    {
        if max_beats > 0 {
            self.beat = self.beat % max_beats + 1;
        } else {
            self.beat = 0;
        }
        if self.beat == 1 {
            Sound::Strong
        } else {
            Sound::Weak
        }
    }

    /// `count` completed intervals: advances the beat once for each and
    /// returns their clicks in order.
    pub fn advance(&mut self, max_beats: u8, count: u128) -> (sounds: Vec<Sound>)
        ensures
            final(self).beat == beat_after(old(self).beat as int, max_beats as int, count as nat),
            sounds@ == sounds_after(old(self).beat as int, max_beats as int, count as nat),
    {
        let ghost start = self.beat as int;
        let mut sounds: Vec<Sound> = Vec::new();
        let mut i: u128 = 0;
        while i < count
            invariant
                i <= count,
                self.beat == beat_after(start, max_beats as int, i as nat),
                sounds@ == sounds_after(start, max_beats as int, i as nat),
            decreases count - i,
        {
            let s = self.on_interval(max_beats);
            sounds.push(s);
            i = i + 1;
        }
        sounds
    }
}

} // verus!
