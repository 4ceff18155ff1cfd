//! Telemetry events and the sonic voices they drive.
use vstd::prelude::*;

verus! {

/// The seven sonic voices the engine emits.
///
/// Each event kind maps to exactly one voice.
#[derive(Debug, Clone, Copy, PartialEq, Eq, Hash, Structural)]
pub enum Voice {
    /// Soft, key-aligned chime. Driven by `file_save`.
    Chime,
    /// Stretched high-register piano note. Driven by `file_create`.
    Piano,
    /// Low harmonic resolution. Driven by `build_pass`.
    Settle,
    /// Grain decay. Driven by `build_fail`.
    Grain,
    /// Actual silence. Driven by `idle`.
    Silence,
    /// Slow tonic slide. Driven by `high_focus`.
    Drift,
    /// Polyrhythmic layering. Driven by `fragmentation`.
    Poly,
}

impl Voice {
    /// All seven voices, in declaration order.
    pub const ALL: [Voice; 7] = [
        Voice::Chime,
        Voice::Piano,
        Voice::Settle,
        Voice::Grain,
        Voice::Silence,
        Voice::Drift,
        Voice::Poly,
    ];

    /// The wire name of the voice.
    pub open spec fn name(self) -> Seq<char> {
        match self {
            Voice::Chime => "chime"@,
            Voice::Piano => "piano"@,
            Voice::Settle => "settle"@,
            Voice::Grain => "grain"@,
            Voice::Silence => "silence"@,
            Voice::Drift => "drift"@,
            Voice::Poly => "poly"@,
        }
    }

    /// Position of the voice in declaration order.
    pub open spec fn slot(self) -> int {
        match self {
            Voice::Chime => 0,
            Voice::Piano => 1,
            Voice::Settle => 2,
            Voice::Grain => 3,
            Voice::Silence => 4,
            Voice::Drift => 5,
            Voice::Poly => 6,
        }
    }

    /// The wire-format string representation.
    pub fn as_str(self) -> (s: &'static str)
        ensures
            s@ == self.name(),
    {
        match self {
            Voice::Chime => "chime",
            Voice::Piano => "piano",
            Voice::Settle => "settle",
            Voice::Grain => "grain",
            Voice::Silence => "silence",
            Voice::Drift => "drift",
            Voice::Poly => "poly",
        }
    }

    /// Index into the engine's per-voice last-emit table.
    pub(crate) fn index(self) -> (i: usize)
        ensures
            i == self.slot(),
            i < 7,
    {
        match self {
            Voice::Chime => 0,
            Voice::Piano => 1,
            Voice::Settle => 2,
            Voice::Grain => 3,
            Voice::Silence => 4,
            Voice::Drift => 5,
            Voice::Poly => 6,
        }
    }
}

/// The seven event kinds of the telemetry stream.
///
/// Only the fields the orchestrator uses are carried.
#[derive(Debug, Clone, PartialEq, Eq, Structural)]
pub enum Event {
    /// A file was saved.
    FileSave {
        /// Unix timestamp (seconds since epoch).
        unix: i64,
    },
    /// A new file was created.
    FileCreate {
        /// Unix timestamp.
        unix: i64,
    },
    /// A build succeeded.
    BuildPass {
        /// Unix timestamp.
        unix: i64,
    },
    /// A build failed.
    BuildFail {
        /// Unix timestamp.
        unix: i64,
    },
    /// Long idle period.
    Idle {
        /// Unix timestamp.
        unix: i64,
    },
    /// Sustained focus on a single project.
    ///
    /// The longer the run, the steeper the downstream drift slope.
    HighFocus {
        /// Unix timestamp.
        unix: i64,
        /// Duration of the focus run in seconds.
        run_seconds: u64,
    },
    /// Context fragmentation.
    ///
    /// The more switches, the denser the downstream polyrhythmic layer.
    Fragmentation {
        /// Unix timestamp.
        unix: i64,
        /// Number of distinct project switches in the window.
        switch_count: u64,
    },
}

impl Event {
    /// The timestamp that every variant carries.
    pub open spec fn timestamp(self) -> i64 {
        match self {
            Event::FileSave { unix } => unix,
            Event::FileCreate { unix } => unix,
            Event::BuildPass { unix } => unix,
            Event::BuildFail { unix } => unix,
            Event::Idle { unix } => unix,
            Event::HighFocus { unix, .. } => unix,
            Event::Fragmentation { unix, .. } => unix,
        }
    }

    /// The voice table: each kind drives exactly one voice.
    pub open spec fn voice_of(self) -> Voice {
        match self {
            Event::FileSave { .. } => Voice::Chime,
            Event::FileCreate { .. } => Voice::Piano,
            Event::BuildPass { .. } => Voice::Settle,
            Event::BuildFail { .. } => Voice::Grain,
            Event::Idle { .. } => Voice::Silence,
            Event::HighFocus { .. } => Voice::Drift,
            Event::Fragmentation { .. } => Voice::Poly,
        }
    }

    /// The wire `kind` discriminator of the event.
    pub open spec fn kind_name(self) -> Seq<char> {
        match self {
            Event::FileSave { .. } => "file_save"@,
            Event::FileCreate { .. } => "file_create"@,
            Event::BuildPass { .. } => "build_pass"@,
            Event::BuildFail { .. } => "build_fail"@,
            Event::Idle { .. } => "idle"@,
            Event::HighFocus { .. } => "high_focus"@,
            Event::Fragmentation { .. } => "fragmentation"@,
        }
    }

    /// The intensity payload: the run length of a focus run, the switch
    /// count of a fragmentation window, and nothing for the other kinds.
    pub open spec fn intensity_of(self) -> Option<u64> {
        match self {
            Event::HighFocus { run_seconds, .. } => Some(run_seconds),
            Event::Fragmentation { switch_count, .. } => Some(switch_count),
            _ => None,
        }
    }

    /// Returns the Unix timestamp carried by every variant.
    pub fn unix(&self) -> (t: i64)
        ensures
            t == self.timestamp(),
    {
        match *self {
            Event::FileSave { unix } => unix,
            Event::FileCreate { unix } => unix,
            Event::BuildPass { unix } => unix,
            Event::BuildFail { unix } => unix,
            Event::Idle { unix } => unix,
            Event::HighFocus { unix, .. } => unix,
            Event::Fragmentation { unix, .. } => unix,
        }
    }

    /// The voice this event maps to per the voice table.
    pub fn voice(&self) -> (v: Voice)
        ensures
            v == self.voice_of(),
    {
        match *self {
            Event::FileSave { .. } => Voice::Chime,
            Event::FileCreate { .. } => Voice::Piano,
            Event::BuildPass { .. } => Voice::Settle,
            Event::BuildFail { .. } => Voice::Grain,
            Event::Idle { .. } => Voice::Silence,
            Event::HighFocus { .. } => Voice::Drift,
            Event::Fragmentation { .. } => Voice::Poly,
        }
    }

    /// The wire-format kind string (matches the input `kind`
    /// discriminator and is carried over to the emitted cue).
    pub fn kind_str(&self) -> (k: &'static str)
        ensures
            k@ == self.kind_name(),
    {
        match *self {
            Event::FileSave { .. } => "file_save",
            Event::FileCreate { .. } => "file_create",
            Event::BuildPass { .. } => "build_pass",
            Event::BuildFail { .. } => "build_fail",
            Event::Idle { .. } => "idle",
            Event::HighFocus { .. } => "high_focus",
            Event::Fragmentation { .. } => "fragmentation",
        }
    }

    /// The intensity payload that the cue for this event carries.
    pub(crate) fn intensity(&self) -> (i: Option<u64>)
        ensures
            i == self.intensity_of(),
    {
        match *self {
            Event::HighFocus { run_seconds, .. } => Some(run_seconds),
            Event::Fragmentation { switch_count, .. } => Some(switch_count),
            _ => None,
        }
    }
}

/// Each event kind drives exactly one voice and no two kinds share one:
/// two events have the same voice exactly when they have the same `kind`.
pub proof fn law_voice_table(a: Event, b: Event)
    ensures
        a.voice_of() == b.voice_of() <==> a.kind_name() == b.kind_name(),
{
    reveal_strlit("file_save");
    reveal_strlit("file_create");
    reveal_strlit("build_pass");
    reveal_strlit("build_fail");
    reveal_strlit("idle");
    reveal_strlit("high_focus");
    reveal_strlit("fragmentation");
    let (x, y) = (a.kind_name(), b.kind_name());
    assert(x == y ==> x.len() == y.len() && x[0] == y[0] && x[6] == y[6]);
}

/// The wire names of the voices tell them apart.
pub proof fn law_voice_names_distinct(v: Voice, w: Voice)
    ensures
        v.name() == w.name() <==> v == w,
{
    reveal_strlit("chime");
    reveal_strlit("piano");
    reveal_strlit("settle");
    reveal_strlit("grain");
    reveal_strlit("silence");
    reveal_strlit("drift");
    reveal_strlit("poly");
    let (x, y) = (v.name(), w.name());
    assert(x == y ==> x.len() == y.len() && x[0] == y[0]);
}

/// Every kind carries its own `unix` field as the event's time,
/// unchanged, whatever its value.
pub proof fn law_timestamp_is_the_unix_field(unix: i64, run_seconds: u64, switch_count: u64)
    ensures
        (Event::FileSave { unix }).timestamp() == unix,
        (Event::FileCreate { unix }).timestamp() == unix,
        (Event::BuildPass { unix }).timestamp() == unix,
        (Event::BuildFail { unix }).timestamp() == unix,
        (Event::Idle { unix }).timestamp() == unix,
        (Event::HighFocus { unix, run_seconds }).timestamp() == unix,
        (Event::Fragmentation { unix, switch_count }).timestamp() == unix,
{
}

/// The intensity of a focus run is its whole run length, that of a
/// fragmentation window its whole switch count, for every value; the other
/// kinds carry none.
pub proof fn law_intensity_is_the_payload(unix: i64, run_seconds: u64, switch_count: u64)
    ensures
        (Event::HighFocus { unix, run_seconds }).intensity_of() == Some(run_seconds),
        (Event::Fragmentation { unix, switch_count }).intensity_of() == Some(switch_count),
        (Event::FileSave { unix }).intensity_of() is None,
        (Event::FileCreate { unix }).intensity_of() is None,
        (Event::BuildPass { unix }).intensity_of() is None,
        (Event::BuildFail { unix }).intensity_of() is None,
        (Event::Idle { unix }).intensity_of() is None,
{
}

/// The voice table, entry by entry: which voice and which wire kind each
/// event has, whatever its fields hold.
pub proof fn law_voice_table_entries(unix: i64, run_seconds: u64, switch_count: u64)
    ensures
        (Event::FileSave { unix }).voice_of() == Voice::Chime,
        (Event::FileCreate { unix }).voice_of() == Voice::Piano,
        (Event::BuildPass { unix }).voice_of() == Voice::Settle,
        (Event::BuildFail { unix }).voice_of() == Voice::Grain,
        (Event::Idle { unix }).voice_of() == Voice::Silence,
        (Event::HighFocus { unix, run_seconds }).voice_of() == Voice::Drift,
        (Event::Fragmentation { unix, switch_count }).voice_of() == Voice::Poly,
        (Event::FileSave { unix }).kind_name() == "file_save"@,
        (Event::FileCreate { unix }).kind_name() == "file_create"@,
        (Event::BuildPass { unix }).kind_name() == "build_pass"@,
        (Event::BuildFail { unix }).kind_name() == "build_fail"@,
        (Event::Idle { unix }).kind_name() == "idle"@,
        (Event::HighFocus { unix, run_seconds }).kind_name() == "high_focus"@,
        (Event::Fragmentation { unix, switch_count }).kind_name() == "fragmentation"@,
{
}

/// The wire names of the voices, and their positions in declaration
/// order.
pub proof fn law_voice_names_and_slots()
    ensures
        Voice::Chime.name() == "chime"@ && Voice::Chime.slot() == 0,
        Voice::Piano.name() == "piano"@ && Voice::Piano.slot() == 1,
        Voice::Settle.name() == "settle"@ && Voice::Settle.slot() == 2,
        Voice::Grain.name() == "grain"@ && Voice::Grain.slot() == 3,
        Voice::Silence.name() == "silence"@ && Voice::Silence.slot() == 4,
        Voice::Drift.name() == "drift"@ && Voice::Drift.slot() == 5,
        Voice::Poly.name() == "poly"@ && Voice::Poly.slot() == 6,
{
}

} // verus!
