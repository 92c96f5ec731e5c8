use metronome::{
    interval_nanos, BeatState, IntervalTimer, KeyPresses, Metronome, Reconciler, Settings, Sound,
    DEFAULT_BPM, MAX_BPM, MIN_BPM, START_MARGIN,
};

fn no_keys() -> KeyPresses {
    KeyPresses {
        toggle_play: false,
        bpm_up_one: false,
        bpm_down_one: false,
        bpm_up_ten: false,
        bpm_down_ten: false,
        beats_up: false,
        beats_down: false,
    }
}

#[test]
fn defaults() {
    let s = Settings::default();
    assert_eq!(s, Settings { bpm: 120, play: false, max_beats: 4 });
    let m = Metronome::new();
    assert_eq!(m.beat(), 0);
    assert_eq!(m.timer, IntervalTimer { duration: 500_000_000, elapsed: 0, paused: true });
    assert_eq!(m.reconciler.previous, s);
    assert_eq!(DEFAULT_BPM, 120);
}

#[test]
fn interval_is_a_minute_over_bpm() {
    assert_eq!(interval_nanos(120), 500_000_000);
    assert_eq!(interval_nanos(60), 1_000_000_000);
    assert_eq!(interval_nanos(300), 200_000_000);
    // 60 s / 70 = 857142857.14... ns, rounded down
    assert_eq!(interval_nanos(70), 857_142_857);
}

#[test]
fn clamping_picks_nearest_bound() {
    let mut s = Settings { bpm: 65, play: false, max_beats: 4 };
    for _ in 0..3 {
        s.adjust_bpm(-10);
    }
    assert_eq!(s.bpm, 35);
    s.limit_bpm();
    assert_eq!(s.bpm, MIN_BPM);
    s.limit_bpm();
    assert_eq!(s.bpm, MIN_BPM);

    let mut s = Settings { bpm: 295, play: true, max_beats: 4 };
    s.adjust_bpm(10);
    s.adjust_bpm(1);
    s.limit_bpm();
    assert_eq!(s, Settings { bpm: MAX_BPM, play: true, max_beats: 4 });

    let mut s = Settings { bpm: 150, play: false, max_beats: 4 };
    s.limit_bpm();
    assert_eq!(s.bpm, 150);
}

#[test]
fn adjustments_saturate() {
    let mut s = Settings { bpm: 5, play: false, max_beats: 0 };
    s.adjust_bpm(-10);
    assert_eq!(s.bpm, 0);
    s.adjust_max_beats(-1);
    assert_eq!(s.max_beats, 0);
    let mut s = Settings { bpm: 65_530, play: false, max_beats: 255 };
    s.adjust_bpm(10);
    assert_eq!(s.bpm, 65_535);
    s.adjust_max_beats(1);
    assert_eq!(s.max_beats, 255);
}

#[test]
fn keys_change_settings() {
    let mut s = Settings::default();
    let mut k = no_keys();
    k.toggle_play = true;
    k.bpm_up_ten = true;
    k.bpm_down_one = true;
    k.beats_up = true;
    s.apply_keys(k);
    assert_eq!(s, Settings { bpm: 129, play: true, max_beats: 5 });
    s.apply_keys(no_keys());
    assert_eq!(s, Settings { bpm: 129, play: true, max_beats: 5 });
    let mut k = no_keys();
    k.toggle_play = true;
    k.bpm_down_ten = true;
    k.bpm_up_one = true;
    k.beats_down = true;
    s.apply_keys(k);
    assert_eq!(s, Settings { bpm: 120, play: false, max_beats: 4 });
}

#[test]
fn beats_cycle_with_accent_on_one() {
    let mut st = BeatState::new();
    let mut seen = Vec::new();
    for _ in 0..7 {
        let sound = st.on_interval(3);
        seen.push((st.beat, sound));
    }
    assert_eq!(
        seen,
        vec![
            (1, Sound::Strong),
            (2, Sound::Weak),
            (3, Sound::Weak),
            (1, Sound::Strong),
            (2, Sound::Weak),
            (3, Sound::Weak),
            (1, Sound::Strong),
        ]
    );
}

#[test]
fn beat_beyond_a_shrunk_measure_wraps() {
    let mut st = BeatState { beat: 4 };
    assert_eq!(st.on_interval(3), Sound::Weak);
    assert_eq!(st.beat, 2);
}

#[test]
fn no_measure_means_beat_zero_and_plain_click() {
    let mut st = BeatState { beat: 3 };
    let sounds = st.advance(0, 4);
    assert_eq!(sounds, vec![Sound::Weak; 4]);
    assert_eq!(st.beat, 0);
}

#[test]
fn advance_plays_one_click_per_interval() {
    let mut st = BeatState { beat: 2 };
    let sounds = st.advance(4, 5);
    assert_eq!(sounds, vec![Sound::Weak, Sound::Weak, Sound::Strong, Sound::Weak, Sound::Weak]);
    assert_eq!(st.beat, 3);
    assert_eq!(st.advance(4, 0), vec![]);
    assert_eq!(st.beat, 3);
}

#[test]
fn timer_counts_every_crossing() {
    let mut t = IntervalTimer::new_paused(100);
    assert_eq!(t.tick(1_000), 0);
    assert_eq!(t.elapsed, 0);
    t.start();
    assert_eq!(t.elapsed, 0);
    assert!(!t.paused);
    assert_eq!(t.tick(250), 2);
    assert_eq!(t.elapsed, 50);
    t.set_duration(40);
    assert_eq!(t.elapsed, 50);
    assert_eq!(t.tick(0), 1);
    assert_eq!(t.elapsed, 10);
    t.pause();
    assert_eq!(t.tick(500), 0);
    assert_eq!(t.elapsed, 10);
}

#[test]
fn start_primes_just_short_of_an_interval() {
    let mut t = IntervalTimer::new_paused(500_000_000);
    t.start();
    assert_eq!(t.elapsed, 500_000_000 - START_MARGIN);
    assert_eq!(t.tick(START_MARGIN - 1), 0);
    assert_eq!(t.tick(1), 1);
    assert_eq!(t.elapsed, 0);
}

#[test]
fn reconciler_reports_changes() {
    let mut r = Reconciler::new(Settings::default());
    let mut t = IntervalTimer::new_paused(500_000_000);
    assert!(!r.reconcile(Settings::default(), &mut t));
    assert_eq!(t, IntervalTimer::new_paused(500_000_000));
    let faster = Settings { bpm: 240, play: false, max_beats: 4 };
    assert!(r.reconcile(faster, &mut t));
    assert_eq!(t, IntervalTimer { duration: 250_000_000, elapsed: 0, paused: true });
    assert_eq!(r.previous, faster);
}

#[test]
fn starting_clicks_on_the_next_frame() {
    let mut m = Metronome::new();
    m.settings.toggle_play();
    let sounds = m.frame(16_000_000);
    assert_eq!(sounds, vec![Sound::Strong]);
    assert_eq!(m.beat(), 1);
}

#[test]
fn end_to_end_at_120_bpm() {
    let mut m = Metronome::new();
    assert_eq!(m.timer.duration, 500_000_000);
    m.settings.play = true;
    assert_eq!(m.frame(499_900_000), vec![Sound::Strong]);
    assert_eq!(m.beat(), 1);
    assert_eq!(m.frame(100_000), vec![]);
    assert_eq!(m.beat(), 1);
    assert_eq!(m.frame(500_000_000), vec![Sound::Weak]);
    assert_eq!(m.beat(), 2);
}

#[test]
fn stopping_keeps_progress_and_restart_discards_it() {
    let mut m = Metronome::new();
    m.settings.play = true;
    assert_eq!(m.frame(1_000), vec![Sound::Strong]);
    assert_eq!(m.frame(200_000_000), vec![]);
    assert_eq!(m.timer.elapsed, 200_000_000);
    m.settings.play = false;
    assert_eq!(m.frame(100_000_000), vec![]);
    assert!(m.timer.paused);
    assert_eq!(m.timer.elapsed, 200_000_000);
    assert_eq!(m.frame(900_000_000), vec![]);
    assert_eq!(m.timer.elapsed, 200_000_000);
    m.settings.play = true;
    assert_eq!(m.frame(START_MARGIN), vec![Sound::Weak]);
    assert_eq!(m.timer.elapsed, 0);
    assert_eq!(m.beat(), 2);
}

#[test]
fn unchanged_frames_leave_timer_alone() {
    let mut m = Metronome::new();
    m.settings.play = true;
    m.frame(1_000);
    let before = m.clone();
    m.frame(0);
    assert_eq!(m, before);
    m.frame(0);
    assert_eq!(m.reconciler.previous, before.reconciler.previous);
    assert_eq!(m.timer, before.timer);
}

#[test]
fn tempo_change_keeps_progress() {
    let mut m = Metronome::new();
    m.settings.play = true;
    m.frame(1_000);
    m.frame(100_000_000);
    m.settings.adjust_bpm(-60);
    m.frame(0);
    assert_eq!(m.timer.duration, 1_000_000_000);
    assert_eq!(m.timer.elapsed, 100_000_000);
}

#[test]
fn frame_clamps_out_of_range_tempo() {
    let mut m = Metronome::new();
    m.settings.bpm = 1_000;
    m.frame(0);
    assert_eq!(m.settings.bpm, MAX_BPM);
    assert_eq!(m.timer.duration, interval_nanos(MAX_BPM));
    m.settings.bpm = 0;
    m.frame(0);
    assert_eq!(m.settings.bpm, MIN_BPM);
    assert_eq!(m.timer.duration, 1_000_000_000);
}

#[test]
fn lag_plays_every_missed_click() {
    let mut m = Metronome::new();
    m.settings.play = true;
    m.settings.max_beats = 2;
    let sounds = m.frame(START_MARGIN + 1_500_000_000);
    assert_eq!(sounds, vec![Sound::Strong, Sound::Weak, Sound::Strong, Sound::Weak]);
    assert_eq!(m.beat(), 2);
}

#[test]
fn play_button_label_names_the_next_action() {
    let mut s = Settings::default();
    assert_eq!(s.play_label(), "Play");
    s.toggle_play();
    assert_eq!(s.play_label(), "Stop");
}
