# ambient

A telemetry-driven parameter orchestrator for a generative ambient piece:
NDJSON telemetry events in, NDJSON parameter-bus cues out. Each of seven
event kinds drives one voice, and per-voice minimum gaps drop events that
arrive inside a voice's throttle window.

Layout:

- `src/` — the library, verified with Verus.
  - `event.rs`: event kinds, voices, the voice table.
  - `throttle.rs`: per-voice gaps and their defaults.
  - `engine.rs`: the throttling engine, its abstract state, and the laws
    of the throttle window.
  - `line.rs`: a line's JSON text (blank lines are an error of their own).
  - `stream.rs`: the per-line decisions of a run and the counts it keeps.
- `app/` — the command-line program: argument parsing, reading stdin,
  JSON decoding and encoding, writing stdout and stderr.
- `tests/` — tests of the library.
