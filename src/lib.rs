//! A metronome core: tempo settings, an interval timer in nanoseconds, a beat
//! counter with accented downbeats, and the per-frame logic that ties them.

pub mod settings;
pub mod timer;
pub mod beat;
pub mod reconciler;
pub mod metronome;
pub mod laws;

pub use beat::{BeatState, Sound};
pub use metronome::Metronome;
pub use reconciler::Reconciler;
pub use settings::{KeyPresses, Settings, DEFAULT_BPM, DEFAULT_MAX_BEATS, MAX_BPM, MIN_BPM};
pub use timer::{interval_nanos, IntervalTimer, NANOS_PER_MINUTE, START_MARGIN};
