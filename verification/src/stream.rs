//! The decisions of a whole run over a telemetry stream.
//!
//! The caller reads each line, decodes it, and hands the result here;
//! the stream state decides what becomes of the line and keeps the
//! counts. Blank and malformed lines are skipped, never fatal.
use vstd::prelude::*;

use crate::engine::{cue_describes, Cue, Engine, EngineView};
use crate::event::Event;
use crate::line::ParseError;
use crate::throttle::Throttle;

verus! {

/// What becomes of one line of the stream.
#[derive(Debug, Clone, PartialEq, Eq)]
pub enum LineOutcome {
    /// The line's event yields this cue, to be written out.
    Cue(Cue),
    /// The line's event fell inside its voice's throttle window.
    Suppressed,
    /// The line was blank; it is skipped silently.
    Blank,
    /// The line did not decode; it is skipped and reported under its
    /// 1-based line number.
    Malformed {
        /// 1-based position of the line in the stream.
        line_number: usize,
    },
}

/// `n + 1`, saturating at `usize::MAX`.
pub open spec fn bump_usize(n: usize) -> usize {
    if n < usize::MAX {
        (n + 1) as usize
    } else {
        n
    }
}

/// `n + 1`, saturating at `u64::MAX`.
pub open spec fn bump_u64(n: u64) -> u64 {
    if n < u64::MAX {
        (n + 1) as u64
    } else {
        n
    }
}

/// Abstract state of a run: the engine, the number of cues emitted, and
/// the number of lines seen.
pub struct StreamView {
    pub engine: EngineView,
    pub emitted: u64,
    pub lines: usize,
}

impl StreamView {
    /// The state before the first line.
    pub open spec fn start(throttle: Throttle) -> StreamView {
        StreamView { engine: EngineView::fresh(throttle), emitted: 0, lines: 0 }
    }

    /// Whether the decoded line `item` yields a cue in this state.
    pub open spec fn yields_cue(self, item: Result<Event, ParseError>) -> bool {
        match item {
            Ok(e) => self.engine.admits(e),
            Err(_) => false,
        }
    }

    /// The state after one more line.
    pub open spec fn feed(self, item: Result<Event, ParseError>) -> StreamView {
        StreamView {
            engine: match item {
                Ok(e) => self.engine.step(e),
                Err(_) => self.engine,
            },
            emitted: if self.yields_cue(item) {
                bump_u64(self.emitted)
            } else {
                self.emitted
            },
            lines: bump_usize(self.lines),
        }
    }

    /// The state after the lines `items`, in order.
    pub open spec fn feed_all(self, items: Seq<Result<Event, ParseError>>) -> StreamView
        decreases items.len(),
    {
        if items.len() == 0 {
            self
        } else {
            self.feed_all(items.drop_last()).feed(items.last())
        }
    }

    /// The events of the lines among `items` that yield a cue, in order:
    /// one for each cue the run writes.
    pub open spec fn fired(self, items: Seq<Result<Event, ParseError>>) -> Seq<Event>
        decreases items.len(),
    {
        if items.len() == 0 {
            Seq::empty()
        } else {
            match items.last() {
                Ok(e) => if self.feed_all(items.drop_last()).yields_cue(items.last()) {
                    self.fired(items.drop_last()).push(e)
                } else {
                    self.fired(items.drop_last())
                },
                Err(_) => self.fired(items.drop_last()),
            }
        }
    }
}

/// The events of the lines that decoded, in order.
pub open spec fn events_of(items: Seq<Result<Event, ParseError>>) -> Seq<Event>
    decreases items.len(),
{
    if items.len() == 0 {
        Seq::empty()
    } else {
        match items.last() {
            Ok(e) => events_of(items.drop_last()).push(e),
            Err(_) => events_of(items.drop_last()),
        }
    }
}

/// State of a run over a telemetry stream.
#[derive(Debug, Clone)]
pub struct StreamState {
    engine: Engine,
    emitted: u64,
    lines: usize,
}

impl View for StreamState {
    type V = StreamView;

    closed spec fn view(&self) -> StreamView {
        StreamView { engine: self.engine@, emitted: self.emitted, lines: self.lines }
    }
}

impl StreamState {
    /// A run that has seen no line yet, throttled by `throttle`.
    pub fn new(throttle: Throttle) -> (s: Self)
        ensures
            s@ == StreamView::start(throttle),
    {
        StreamState { engine: Engine::new(throttle), emitted: 0, lines: 0 }
    }

    /// The number of cues emitted so far.
    pub fn emitted(&self) -> (n: u64)
        ensures
            n == self@.emitted,
    {
        self.emitted
    }

    /// Decide what becomes of the next line, given what decoding it gave.
    ///
    /// An event goes through the engine; a blank line is skipped
    /// silently; a line that did not decode is skipped and reported
    /// under its 1-based line number. No line ends the run.
    pub fn next_line(&mut self, item: &Result<Event, ParseError>) -> (o: LineOutcome)
        ensures
            final(self)@ == old(self)@.feed(*item),
            o is Cue <==> old(self)@.yields_cue(*item),
            match *item {
                Ok(e) => (o matches LineOutcome::Cue(c) ==> cue_describes(c, e)) && (o is Cue
                    || o is Suppressed),
                Err(ParseError::Empty) => o is Blank,
                Err(ParseError::Decode(_)) => o matches LineOutcome::Malformed { line_number }
                    && line_number == bump_usize(old(self)@.lines),
            },
    {
        let line_number = self.lines.saturating_add(1);
        self.lines = line_number;
        match item {
            Ok(event) => match self.engine.handle(event) {
                Some(cue) => {
                    self.emitted = self.emitted.saturating_add(1);
                    LineOutcome::Cue(cue)
                },
                None => LineOutcome::Suppressed,
            },
            Err(ParseError::Empty) => LineOutcome::Blank,
            Err(ParseError::Decode(_)) => LineOutcome::Malformed { line_number },
        }
    }
}

/// The count of emitted cues is the number of lines that yielded a cue,
/// saturating at `u64::MAX`.
pub proof fn law_emitted_counts_cues(start: StreamView, items: Seq<Result<Event, ParseError>>)
    ensures
        start.feed_all(items).emitted == if start.emitted + start.fired(items).len() <= u64::MAX {
            start.emitted + start.fired(items).len()
        } else {
            u64::MAX as int
        },
    decreases items.len(),
{
    if items.len() > 0 {
        law_emitted_counts_cues(start, items.drop_last());
    }
}

/// Blank and malformed lines leave the throttle state untouched: after
/// any lines, the engine is where the decoded events alone would have
/// brought it.
pub proof fn law_skipped_lines_do_not_throttle(
    start: StreamView,
    items: Seq<Result<Event, ParseError>>,
)
    ensures
        start.feed_all(items).engine == start.engine.run(events_of(items)),
    decreases items.len(),
{
    if items.len() > 0 {
        law_skipped_lines_do_not_throttle(start, items.drop_last());
        let prefix = events_of(items.drop_last());
        match items.last() {
            Ok(e) => {
                assert(prefix.push(e).drop_last() =~= prefix);
            },
            Err(_) => {},
        }
    }
}

/// A run yields the cues that its engine alone, fed the decoded events in
/// order, would yield: blank and malformed lines neither add nor remove a
/// cue.
pub proof fn law_cues_are_the_engines(start: StreamView, items: Seq<Result<Event, ParseError>>)
    ensures
        start.fired(items) == start.engine.fired(events_of(items)),
    decreases items.len(),
{
    if items.len() > 0 {
        let prefix = items.drop_last();
        law_cues_are_the_engines(start, prefix);
        law_skipped_lines_do_not_throttle(start, prefix);
        match items.last() {
            Ok(e) => {
                assert(events_of(prefix).push(e).drop_last() =~= events_of(prefix));
            },
            Err(_) => {},
        }
    }
}

/// Lines are numbered from 1 in the order they come: on a new run, the
/// line after the first `j` is reported as line `j + 1`.
pub proof fn law_line_numbers(throttle: Throttle, items: Seq<Result<Event, ParseError>>, j: int)
    requires
        0 <= j <= items.len(),
        j < usize::MAX,
    ensures
        bump_usize(StreamView::start(throttle).feed_all(items.take(j)).lines) == j + 1,
    decreases j,
{
    lemma_lines_seen(StreamView::start(throttle), items.take(j));
}

/// Helper: from a new run, the line count is the number of lines fed,
/// as long as it fits.
proof fn lemma_lines_seen(start: StreamView, items: Seq<Result<Event, ParseError>>)
    requires
        start.lines == 0,
        items.len() < usize::MAX,
    ensures
        start.feed_all(items).lines == items.len(),
    decreases items.len(),
{
    if items.len() > 0 {
        lemma_lines_seen(start, items.drop_last());
    }
}

} // verus!
