//! The streaming orchestrator: from events to throttled cues.
use vstd::prelude::*;

use crate::event::{Event, Voice};
use crate::throttle::Throttle;

verus! {

/// An emitted parameter-bus cue.
///
/// `voice`, `kind`, and `unix` are always present; `intensity` carries
/// the per-event intensity payload for `high_focus` (`run_seconds`) and
/// `fragmentation` (`switch_count`) and is absent for the other kinds.
#[derive(Debug, Clone, PartialEq, Eq)]
pub struct Cue {
    /// The voice this cue addresses.
    pub voice: Voice,
    /// The originating event kind.
    pub kind: &'static str,
    /// Unix timestamp from the originating event.
    pub unix: i64,
    /// Optional intensity scalar.
    pub intensity: Option<u64>,
}

/// The cue `c` is the one that event `e` produces.
pub open spec fn cue_describes(c: Cue, e: Event) -> bool {
    &&& c.voice == e.voice_of()
    &&& c.kind@ == e.kind_name()
    &&& c.unix == e.timestamp()
    &&& c.intensity == e.intensity_of()
}

/// Abstract state of an [`Engine`]: its gaps, and the timestamp of the
/// last cue of each voice that has fired.
pub struct EngineView {
    pub throttle: Throttle,
    pub last_cue: Map<Voice, i64>,
}

impl EngineView {
    /// A new engine: no voice has fired yet.
    pub open spec fn fresh(throttle: Throttle) -> EngineView {
        EngineView { throttle, last_cue: Map::empty() }
    }

    /// Whether `e` is outside its voice's throttle window (or its voice
    /// has never fired), so that it yields a cue: at least the voice's gap
    /// has elapsed since that voice's last cue.
    pub open spec fn admits(self, e: Event) -> bool {
        let v = e.voice_of();
        ||| !self.last_cue.contains_key(v)
        ||| e.timestamp() - self.last_cue[v] >= self.throttle.gap(v)
    }

    /// The state after handling `e`: a cue records its timestamp for its
    /// voice, a suppressed event changes nothing.
    pub open spec fn step(self, e: Event) -> EngineView {
        if self.admits(e) {
            EngineView {
                throttle: self.throttle,
                last_cue: self.last_cue.insert(e.voice_of(), e.timestamp()),
            }
        } else {
            self
        }
    }

    /// The state after handling `events` in order.
    pub open spec fn run(self, events: Seq<Event>) -> EngineView
        decreases events.len(),
    {
        if events.len() == 0 {
            self
        } else {
            self.run(events.drop_last()).step(events.last())
        }
    }

    /// The events among `events` that yield a cue, in order: one for each
    /// cue the stream produces.
    pub open spec fn fired(self, events: Seq<Event>) -> Seq<Event>
        decreases events.len(),
    {
        if events.len() == 0 {
            Seq::empty()
        } else if self.run(events.drop_last()).admits(events.last()) {
            self.fired(events.drop_last()).push(events.last())
        } else {
            self.fired(events.drop_last())
        }
    }

    /// Whether the `i`-th of `events` yields a cue when the stream is fed
    /// from this state.
    pub open spec fn emits_at(self, events: Seq<Event>, i: int) -> bool {
        self.run(events.take(i)).admits(events[i])
    }

    /// The index of the last of the first `k` events that yielded a cue
    /// for voice `v`, if any did.
    pub open spec fn last_emission(self, events: Seq<Event>, v: Voice, k: nat) -> Option<int>
        decreases k,
    {
        if k == 0 {
            None
        } else if events[k - 1].voice_of() == v && self.emits_at(events, k - 1) {
            Some(k - 1)
        } else {
            self.last_emission(events, v, (k - 1) as nat)
        }
    }
}

/// Streaming orchestrator.
///
/// Holds the throttle configuration and the last-emit timestamp per
/// voice. `Engine::handle` is the only mutation point.
#[derive(Debug, Clone)]
pub struct Engine {
    throttle: Throttle,
    last_emit: [Option<i64>; 7],
}

impl View for Engine {
    type V = EngineView;

    closed spec fn view(&self) -> EngineView {
        EngineView {
            throttle: self.throttle,
            last_cue: Map::new(
                |v: Voice| self.last_emit@[v.slot()] is Some,
                |v: Voice| self.last_emit@[v.slot()]->0,
            ),
        }
    }
}

impl Engine {
    /// Construct an engine with the given throttle gaps.
    ///
    /// No prior emit history; every voice is "ready" until its first
    /// cue.
    pub fn new(throttle: Throttle) -> (e: Self)
        ensures
            e@ == EngineView::fresh(throttle),
    {
        let e = Self { throttle, last_emit: [None, None, None, None, None, None, None] };
        assert(e@.last_cue =~= Map::<Voice, i64>::empty());
        e
    }

    /// The current throttle configuration.
    pub fn throttle(&self) -> (t: Throttle)
        ensures
            t == self@.throttle,
    {
        self.throttle
    }

    /// Handle one event.
    ///
    /// Returns `Some(Cue)` if the event's voice is outside its throttle
    /// window (or has never fired), `None` if the event is suppressed.
    ///
    /// Throttling honors the event's own `unix` timestamp rather than
    /// wall-clock time, so a replay of an archived event stream produces
    /// the same cue stream it produced live: the new state and the result
    /// are functions of the old state and the event alone.
    pub fn handle(&mut self, event: &Event) -> (cue: Option<Cue>)
        ensures
            final(self)@ == old(self)@.step(*event),
            cue is Some <==> old(self)@.admits(*event),
            cue matches Some(c) ==> cue_describes(c, *event),
    {
        let voice = event.voice();
        let now = event.unix();
        let idx = voice.index();
        let gap = self.throttle.gap_for(voice);
        let slot = self.last_emit[idx];
        if let Some(last) = slot {
            // Elapsed time and gap compared as exact integers: neither the
            // difference of two `i64` nor a `u64` gap can overflow `i128`.
            let elapsed: i128 = now as i128 - last as i128;
            if elapsed < gap as i128 {
                return None;
            }
        }
        let ghost pre = self@;
        self.last_emit[idx] = Some(now);
        assert(self@.last_cue =~= pre.last_cue.insert(voice, now));
        let intensity = event.intensity();
        Some(Cue { voice, kind: event.kind_str(), unix: now, intensity })
    }
}

/// Handling events never changes the gaps.
proof fn lemma_run_keeps_throttle(start: EngineView, events: Seq<Event>)
    ensures
        start.run(events).throttle == start.throttle,
    decreases events.len(),
{
    if events.len() > 0 {
        lemma_run_keeps_throttle(start, events.drop_last());
    }
}

/// Running one more event of the stream is one more step.
proof fn lemma_run_take_next(start: EngineView, events: Seq<Event>, k: int)
    requires
        0 <= k < events.len(),
    ensures
        start.run(events.take(k + 1)) == start.run(events.take(k)).step(events[k]),
{
    assert(events.take(k + 1).drop_last() =~= events.take(k));
}

/// After the first `k` events, the last cue recorded for `v` is the one of
/// the last event of voice `v` among them that yielded a cue, or else the
/// one the start state held.
proof fn lemma_last_cue_tracks_emissions(start: EngineView, events: Seq<Event>, v: Voice, k: nat)
    requires
        k <= events.len(),
    ensures
        ({
            let after = start.run(events.take(k as int));
            match start.last_emission(events, v, k) {
                Some(i) => 0 <= i < k && after.last_cue.contains_key(v) && after.last_cue[v]
                    == events[i].timestamp(),
                None => after.last_cue.contains_key(v) == start.last_cue.contains_key(v)
                    && (start.last_cue.contains_key(v) ==> after.last_cue[v] == start.last_cue[v]),
            }
        }),
    decreases k,
{
    if k == 0 {
        assert(events.take(0) =~= Seq::<Event>::empty());
    } else {
        let j = (k - 1) as int;
        lemma_last_cue_tracks_emissions(start, events, v, (k - 1) as nat);
        lemma_run_take_next(start, events, j);
    }
}

/// Between two cues of the same voice, with no cue of that voice between
/// them, the later event fires exactly when it is at least the voice's gap
/// after the earlier cue: two successive cues of a voice are never closer
/// than its gap.
pub proof fn law_throttle_window(start: EngineView, events: Seq<Event>, i: int, j: int)
    requires
        0 <= i < j < events.len(),
        events[i].voice_of() == events[j].voice_of(),
        start.emits_at(events, i),
        forall|k: int|
            i < k < j && #[trigger] events[k].voice_of() == events[i].voice_of() ==> !start.emits_at(
                events,
                k,
            ),
    ensures
        start.emits_at(events, j) <==> events[j].timestamp() - events[i].timestamp()
            >= start.throttle.gap(events[i].voice_of()),
{
    let v = events[i].voice_of();
    assert forall|k: nat| i < k <= j implies start.last_emission(events, v, k) == Some(i) by {
        lemma_last_emission_holds(start, events, v, i, j, k);
    }
    lemma_last_cue_tracks_emissions(start, events, v, j as nat);
    lemma_run_keeps_throttle(start, events.take(j));
}

/// Helper for the throttle window: while no later event of voice `v`
/// fires, the last emission of `v` stays at `i`.
proof fn lemma_last_emission_holds(
    start: EngineView,
    events: Seq<Event>,
    v: Voice,
    i: int,
    j: int,
    k: nat,
)
    requires
        0 <= i < j < events.len(),
        events[i].voice_of() == v,
        start.emits_at(events, i),
        forall|m: int| i < m < j && #[trigger] events[m].voice_of() == v ==> !start.emits_at(events, m),
        i < k <= j,
    ensures
        start.last_emission(events, v, k) == Some(i),
    decreases k,
{
    if k > i + 1 {
        lemma_last_emission_holds(start, events, v, i, j, (k - 1) as nat);
    }
}

/// An event that arrives inside its voice's gap after that voice's last
/// cue is dropped.
pub proof fn law_burst_is_dropped(start: EngineView, events: Seq<Event>, i: int, j: int)
    requires
        0 <= i < j < events.len(),
        events[i].voice_of() == events[j].voice_of(),
        start.emits_at(events, i),
        forall|k: int|
            i < k < j && #[trigger] events[k].voice_of() == events[i].voice_of() ==> !start.emits_at(
                events,
                k,
            ),
        events[j].timestamp() - events[i].timestamp() < start.throttle.gap(events[i].voice_of()),
    ensures
        !start.emits_at(events, j),
{
    law_throttle_window(start, events, i, j);
}

/// Events of other voices do not matter to a voice: while no earlier
/// event of its voice came, an event fires exactly as it would as the
/// first event of the stream.
pub proof fn law_other_voices_do_not_matter(start: EngineView, events: Seq<Event>, j: int)
    requires
        0 <= j < events.len(),
        forall|k: int| 0 <= k < j ==> #[trigger] events[k].voice_of() != events[j].voice_of(),
    ensures
        start.emits_at(events, j) == start.admits(events[j]),
{
    let v = events[j].voice_of();
    assert forall|k: nat| k <= j implies start.last_emission(events, v, k) is None by {
        lemma_no_emission_before(start, events, v, j, k);
    }
    lemma_last_cue_tracks_emissions(start, events, v, j as nat);
    lemma_run_keeps_throttle(start, events.take(j));
}

/// Every voice is ready until its first cue: on a new engine, the first
/// event of each voice yields a cue, whatever its timestamp.
pub proof fn law_first_event_of_voice_fires(throttle: Throttle, events: Seq<Event>, j: int)
    requires
        0 <= j < events.len(),
        forall|k: int| 0 <= k < j ==> #[trigger] events[k].voice_of() != events[j].voice_of(),
    ensures
        EngineView::fresh(throttle).emits_at(events, j),
{
    law_other_voices_do_not_matter(EngineView::fresh(throttle), events, j);
}

/// Helper: with no event of voice `v` among the first `k`, none of them
/// was a cue of `v`.
proof fn lemma_no_emission_before(start: EngineView, events: Seq<Event>, v: Voice, j: int, k: nat)
    requires
        0 <= j < events.len(),
        forall|m: int| 0 <= m < j ==> #[trigger] events[m].voice_of() != v,
        k <= j,
    ensures
        start.last_emission(events, v, k) is None,
    decreases k,
{
    if k > 0 {
        lemma_no_emission_before(start, events, v, j, (k - 1) as nat);
    }
}

/// A cue for an event carries that event's own fields: its voice from the
/// voice table, its wire kind, its `unix` field unchanged, the whole run
/// length of a focus run or switch count of a fragmentation window as the
/// intensity, and no intensity for the other kinds.
pub proof fn law_cue_carries_the_event(c: Cue, unix: i64, run_seconds: u64, switch_count: u64)
    ensures
        cue_describes(c, Event::FileSave { unix }) ==> c.voice == Voice::Chime && c.kind@
            == "file_save"@ && c.unix == unix && c.intensity is None,
        cue_describes(c, Event::FileCreate { unix }) ==> c.voice == Voice::Piano && c.kind@
            == "file_create"@ && c.unix == unix && c.intensity is None,
        cue_describes(c, Event::BuildPass { unix }) ==> c.voice == Voice::Settle && c.kind@
            == "build_pass"@ && c.unix == unix && c.intensity is None,
        cue_describes(c, Event::BuildFail { unix }) ==> c.voice == Voice::Grain && c.kind@
            == "build_fail"@ && c.unix == unix && c.intensity is None,
        cue_describes(c, Event::Idle { unix }) ==> c.voice == Voice::Silence && c.kind@
            == "idle"@ && c.unix == unix && c.intensity is None,
        cue_describes(c, Event::HighFocus { unix, run_seconds }) ==> c.voice == Voice::Drift
            && c.kind@ == "high_focus"@ && c.unix == unix && c.intensity == Some(run_seconds),
        cue_describes(c, Event::Fragmentation { unix, switch_count }) ==> c.voice == Voice::Poly
            && c.kind@ == "fragmentation"@ && c.unix == unix && c.intensity == Some(
            switch_count,
        ),
{
}

/// Handling one event from a state: a voice that has never fired is
/// ready, and otherwise the event passes exactly when at least the voice's
/// gap has elapsed since its last cue; a cue records the event's time for
/// its voice alone, and a dropped event changes nothing.
pub proof fn law_one_step(s: EngineView, e: Event, w: Voice)
    ensures
        !s.last_cue.contains_key(e.voice_of()) ==> s.admits(e),
        s.last_cue.contains_key(e.voice_of()) ==> (s.admits(e) <==> e.timestamp()
            - s.last_cue[e.voice_of()] >= s.throttle.gap(e.voice_of())),
        s.step(e).throttle == s.throttle,
        s.admits(e) ==> s.step(e).last_cue.contains_key(e.voice_of()) && s.step(e).last_cue[e.voice_of()]
            == e.timestamp(),
        s.admits(e) && w != e.voice_of() ==> (s.step(e).last_cue.contains_key(w)
            == s.last_cue.contains_key(w) && s.step(e).last_cue[w] == s.last_cue[w]),
        !s.admits(e) ==> s.step(e) == s,
        EngineView::fresh(s.throttle).last_cue.dom().len() == 0,
{
    assert(EngineView::fresh(s.throttle).last_cue.dom() =~= Set::<Voice>::empty());
}

} // verus!
