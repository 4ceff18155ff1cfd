//! Telemetry-driven parameter orchestrator for a generative ambient piece.
//!
//! Laptop telemetry events come in, one per line; each accepted event
//! becomes a parameter-bus cue for one of seven voices, and per-voice
//! throttle gaps keep a burst of one kind of event from turning into a
//! burst of cues.
use vstd::prelude::*;

pub mod engine;
pub mod event;
pub mod line;
pub mod stream;
pub mod throttle;

pub use engine::{Cue, Engine};
pub use event::{Event, Voice};
pub use line::{event_payload, ParseError};
pub use stream::{LineOutcome, StreamState};
pub use throttle::Throttle;

verus! {

} // verus!
