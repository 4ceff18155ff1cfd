//! Per-voice minimum gaps between cues.
use vstd::prelude::*;

use crate::event::Voice;

verus! {

/// Per-voice minimum gap, in seconds.
///
/// A new cue for a voice is only emitted if at least this many seconds
/// have elapsed since the previous cue for the same voice; otherwise
/// the event is silently dropped.
///
/// | voice   | default seconds |
/// |---------|----------------:|
/// | chime   |               4 |
/// | piano   |               8 |
/// | settle  |              30 |
/// | grain   |              15 |
/// | silence |             300 |
/// | drift   |             120 |
/// | poly    |              30 |
#[derive(Debug, Clone, Copy, PartialEq, Eq, Structural)]
pub struct Throttle {
    /// Minimum seconds between `chime` cues.
    pub chime_secs: u64,
    /// Minimum seconds between `piano` cues.
    pub piano_secs: u64,
    /// Minimum seconds between `settle` cues.
    pub settle_secs: u64,
    /// Minimum seconds between `grain` cues.
    pub grain_secs: u64,
    /// Minimum seconds between `silence` cues.
    pub silence_secs: u64,
    /// Minimum seconds between `drift` cues.
    pub drift_secs: u64,
    /// Minimum seconds between `poly` cues.
    pub poly_secs: u64,
}

/// The default gaps of the table above.
pub open spec fn default_throttle() -> Throttle {
    Throttle {
        chime_secs: 4,
        piano_secs: 8,
        settle_secs: 30,
        grain_secs: 15,
        silence_secs: 300,
        drift_secs: 120,
        poly_secs: 30,
    }
}

impl Throttle {
    /// The gap configured for `voice`.
    pub open spec fn gap(self, voice: Voice) -> u64 {
        match voice {
            Voice::Chime => self.chime_secs,
            Voice::Piano => self.piano_secs,
            Voice::Settle => self.settle_secs,
            Voice::Grain => self.grain_secs,
            Voice::Silence => self.silence_secs,
            Voice::Drift => self.drift_secs,
            Voice::Poly => self.poly_secs,
        }
    }

    /// Default throttle gaps.
    pub fn defaults() -> (t: Self)
        ensures
            t == default_throttle(),
    {
        Self {
            chime_secs: 4,
            piano_secs: 8,
            settle_secs: 30,
            grain_secs: 15,
            silence_secs: 300,
            drift_secs: 120,
            poly_secs: 30,
        }
    }

    /// Look up the gap (in seconds) for a given voice.
    pub fn gap_for(&self, voice: Voice) -> (g: u64)
        ensures
            g == self.gap(voice),
    {
        match voice {
            Voice::Chime => self.chime_secs,
            Voice::Piano => self.piano_secs,
            Voice::Settle => self.settle_secs,
            Voice::Grain => self.grain_secs,
            Voice::Silence => self.silence_secs,
            Voice::Drift => self.drift_secs,
            Voice::Poly => self.poly_secs,
        }
    }
}

impl Default for Throttle {
    fn default() -> (t: Self)
        ensures
            t == default_throttle(),
    {
        Self::defaults()
    }
}

/// Each voice's gap is exactly its own field, whatever every field holds:
/// an override of one voice's gap is used as given and touches no other
/// voice.
pub proof fn law_gap_is_the_voice_field(t: Throttle)
    ensures
        t.gap(Voice::Chime) == t.chime_secs,
        t.gap(Voice::Piano) == t.piano_secs,
        t.gap(Voice::Settle) == t.settle_secs,
        t.gap(Voice::Grain) == t.grain_secs,
        t.gap(Voice::Silence) == t.silence_secs,
        t.gap(Voice::Drift) == t.drift_secs,
        t.gap(Voice::Poly) == t.poly_secs,
{
}

/// The default gaps, in seconds: chime 4, piano 8, settle 30, grain 15,
/// silence 300, drift 120, poly 30.
pub proof fn law_default_gaps()
    ensures
        default_throttle().chime_secs == 4,
        default_throttle().piano_secs == 8,
        default_throttle().settle_secs == 30,
        default_throttle().grain_secs == 15,
        default_throttle().silence_secs == 300,
        default_throttle().drift_secs == 120,
        default_throttle().poly_secs == 30,
{
}

} // verus!
