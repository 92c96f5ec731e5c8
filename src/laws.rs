use vstd::prelude::*;
use vstd::arithmetic::div_mod::{lemma_div_is_ordered_by_denominator, lemma_fundamental_div_mod};
use crate::beat::{
    beat_after, lemma_beat_after_bounded, next_beat, sound_of, sounds_after, Sound,
};
use crate::metronome::Metronome;
use crate::settings::{bpm_in_range, clamp_bpm, saturate_u16, MAX_BPM, MIN_BPM};
use crate::timer::{interval_of, primed_elapsed, NANOS_PER_MINUTE, START_MARGIN};

verus! {

/// The tempo after applying `deltas` one by one to `start`, each change
/// saturating at the bounds of `u16`, as `Settings::adjust_bpm` does.
pub open spec fn bpm_after_adjustments(start: int, deltas: Seq<i32>) -> int
    decreases deltas.len(),
{
    if deltas.len() == 0 {
        start
    } else {
        saturate_u16(bpm_after_adjustments(start, deltas.drop_last()) + deltas.last() as int)
    }
}

/// After any run of tempo changes, clamping yields a tempo in range; a tempo
/// below the range becomes the lower bound, one above it the upper bound, and
/// either is the closest value in range. Clamping again changes nothing.
pub proof fn lemma_clamp_picks_nearest_bound(start: u16, deltas: Seq<i32>)
    ensures
        ({
            let v = bpm_after_adjustments(start as int, deltas);
            &&& bpm_in_range(clamp_bpm(v))
            &&& v < MIN_BPM ==> clamp_bpm(v) == MIN_BPM
            &&& v > MAX_BPM ==> clamp_bpm(v) == MAX_BPM
            &&& bpm_in_range(v) ==> clamp_bpm(v) == v
            &&& forall|x: int|
                bpm_in_range(x) ==> #[trigger] (x - v) * (x - v) >= (clamp_bpm(v) - v) * (
                clamp_bpm(v) - v)
            &&& clamp_bpm(clamp_bpm(v)) == clamp_bpm(v)
        }),
{
    let v = bpm_after_adjustments(start as int, deltas);
    let c = clamp_bpm(v);
    assert forall|x: int| bpm_in_range(x) implies #[trigger] (x - v) * (x - v) >= (c - v) * (c - v) by {
        if v < MIN_BPM {
            assert((x - v) * (x - v) >= (c - v) * (c - v)) by (nonlinear_arith)
                requires
                    x >= c,
                    c > v,
            ;
        } else if v > MAX_BPM {
            assert((x - v) * (x - v) >= (c - v) * (c - v)) by (nonlinear_arith)
                requires
                    x <= c,
                    c < v,
            ;
        } else {
            assert((x - v) * (x - v) >= (c - v) * (c - v)) by (nonlinear_arith)
                requires
                    c == v,
            ;
        }
    }
}

/// Every tempo in range has an interval longer than the start margin.
pub proof fn lemma_interval_exceeds_margin(bpm: int)
    requires
        bpm_in_range(bpm),
    ensures
        interval_of(bpm) >= interval_of(MAX_BPM as int),
        interval_of(bpm) > START_MARGIN,
{
    lemma_div_is_ordered_by_denominator(NANOS_PER_MINUTE as int, bpm, MAX_BPM as int);
}

/// One beat lasts sixty seconds divided by the tempo: exactly, in
/// nanoseconds, whenever the tempo divides a minute, and otherwise rounded
/// down by less than a nanosecond.
pub proof fn lemma_interval_is_a_minute_over_bpm(bpm: u16)
    requires
        bpm_in_range(bpm as int),
    ensures
        interval_of(bpm as int) * bpm <= NANOS_PER_MINUTE,
        NANOS_PER_MINUTE < (interval_of(bpm as int) + 1) * bpm,
        NANOS_PER_MINUTE as int % bpm as int == 0 ==> interval_of(bpm as int) * bpm
            == NANOS_PER_MINUTE,
{
    let n = NANOS_PER_MINUTE as int;
    let b = bpm as int;
    lemma_fundamental_div_mod(n, b);
    let q = n / b;
    let r = n % b;
    assert(q * b <= n && n < (q + 1) * b) by (nonlinear_arith)
        requires
            n == b * q + r,
            0 <= r < b,
    ;
}

/// The clicks of `k` intervals are, one for each, the click of the beat that
/// interval reaches.
pub proof fn lemma_sounds_follow_beats(beat: int, max_beats: int, k: nat)
    ensures
        sounds_after(beat, max_beats, k).len() == k,
        forall|i: int|
            0 <= i < k ==> #[trigger] sounds_after(beat, max_beats, k)[i] == sound_of(
                beat_after(beat, max_beats, (i + 1) as nat),
            ),
    decreases k,
{
    if k > 0 {
        lemma_sounds_follow_beats(beat, max_beats, (k - 1) as nat);
    }
}

/// With a measure of `max_beats > 0`, every completed interval lands on a beat
/// in `1..=max_beats`; beats count up by one and wrap from `max_beats` to 1;
/// and the accented click sounds exactly on beat 1.
pub proof fn lemma_beats_cycle(beat: u8, max_beats: u8, k: nat)
    requires
        max_beats > 0,
        k >= 1,
    ensures
        1 <= beat_after(beat as int, max_beats as int, k) <= max_beats,
        beat_after(beat as int, max_beats as int, k + 1) == if beat_after(
            beat as int,
            max_beats as int,
            k,
        ) == max_beats {
            1
        } else {
            beat_after(beat as int, max_beats as int, k) + 1
        },
        (sounds_after(beat as int, max_beats as int, k)[k - 1] == Sound::Strong) <==> (
        beat_after(beat as int, max_beats as int, k) == 1),
{
    let m = max_beats as int;
    lemma_beat_after_bounded(beat as int, m, k);
    lemma_sounds_follow_beats(beat as int, m, k);
    let x = beat_after(beat as int, m, k);
    assert(beat_after(beat as int, m, k + 1) == next_beat(x, m));
    if x == m {
        assert(x % m == 0) by (nonlinear_arith)
            requires
                x == m,
                m > 0,
        ;
    } else {
        assert(x % m == x) by (nonlinear_arith)
            requires
                0 <= x < m,
        ;
    }
}

/// With measures switched off (`max_beats == 0`), every completed interval
/// leaves the beat at 0 and plays the plain click.
pub proof fn lemma_no_measure_means_no_accent(beat: u8, k: nat)
    requires
        k >= 1,
    ensures
        beat_after(beat as int, 0, k) == 0,
        sounds_after(beat as int, 0, k).len() == k,
        forall|i: int| 0 <= i < k ==> #[trigger] sounds_after(beat as int, 0, k)[i] == Sound::Weak,
{
    lemma_sounds_follow_beats(beat as int, 0, k);
    assert forall|i: int| 0 <= i < k implies #[trigger] sounds_after(beat as int, 0, k)[i]
        == Sound::Weak by {
        lemma_beat_after_bounded(beat as int, 0, (i + 1) as nat);
    }
}

/// Switching a stopped metronome on makes the very frame that sees it click
/// once, as soon as at least the start margin and less than one interval has
/// passed, instead of a whole interval later.
pub proof fn lemma_starting_clicks_at_once(m: Metronome, delta: u64)
    requires
        m.wf(),
        !m.reconciler.previous.play,
        m.settings.play,
        START_MARGIN <= delta < interval_of(clamp_bpm(m.settings.bpm as int)),
    ensures
        m.frame_clicks(delta as int) == 1,
{
    let cur = m.settings.clamped();
    let t = m.prepared_timer();
    let d = interval_of(cur.bpm as int);
    lemma_interval_exceeds_margin(cur.bpm as int);
    assert(t.duration == d);
    assert(t.elapsed == d - START_MARGIN);
    let total = t.elapsed + delta;
    assert(total / d == 1) by (nonlinear_arith)
        requires
            d <= total < 2 * d,
    ;
}

/// Switching a running metronome off pauses its timer with the progress made
/// so far, and while it stays off no frame clicks or moves that progress.
pub proof fn lemma_stopping_keeps_progress(m: Metronome, delta: u64)
    requires
        m.wf(),
        !m.settings.play,
    ensures
        m.prepared_timer().paused,
        m.prepared_timer().elapsed == m.timer.elapsed,
        m.frame_clicks(delta as int) == 0,
        m.prepared_timer().ticked(delta as int) == m.prepared_timer(),
{
}

/// Switching the metronome on discards the progress made before: whatever the
/// timer held, it restarts just short of one interval at the current tempo.
pub proof fn lemma_starting_resets_progress(m: Metronome)
    requires
        m.wf(),
        !m.reconciler.previous.play,
        m.settings.play,
    ensures
        !m.prepared_timer().paused,
        m.prepared_timer().duration == interval_of(clamp_bpm(m.settings.bpm as int)),
        m.prepared_timer().elapsed == primed_elapsed(interval_of(clamp_bpm(m.settings.bpm as int))),
{
}

/// A frame whose settings, once clamped, equal the last ones reconciled
/// leaves the timer exactly as it was before it ticks.
pub proof fn lemma_unchanged_settings_leave_timer(m: Metronome)
    requires
        m.settings.clamped() == m.reconciler.previous,
    ensures
        m.prepared_timer() == m.timer,
{
}

} // verus!
