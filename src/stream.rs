use vstd::prelude::*;
use crate::chunker::{
    feed_spec, finish_spec, join_with, opt_view, separator, ChunkerView, SentenceChunker,
};

verus! {

/// What one poll of a generation stream produced.
pub enum StreamEvent {
    /// A piece of generated text.
    Delta(String),
    /// A message that carried no text.
    NoContent,
    /// Nothing available yet.
    Empty,
    /// The backend closed the stream.
    Disconnected,
    /// The backend failed or sent something malformed.
    Failed,
}

pub enum EventView {
    Delta(Seq<char>),
    NoContent,
    Empty,
    Disconnected,
    Failed,
}

impl View for StreamEvent {
    type V = EventView;

    open spec fn view(&self) -> EventView {
        match self {
            StreamEvent::Delta(t) => EventView::Delta(t@),
            StreamEvent::NoContent => EventView::NoContent,
            StreamEvent::Empty => EventView::Empty,
            StreamEvent::Disconnected => EventView::Disconnected,
            StreamEvent::Failed => EventView::Failed,
        }
    }
}

/// What the caller does after one step.
pub enum IngestAction {
    /// Append `text` to the display surface, then hand `chunk` to narration.
    Show { text: String, chunk: Option<String> },
    /// Nothing to display; poll again at once.
    Skip,
    /// Sleep for the poll interval, then poll again.
    Wait,
    /// The stream is over: hand `chunk`, what was still pending, to narration
    /// and stop polling.
    Finish { chunk: Option<String> },
    /// The stream was already over; nothing to do.
    Stopped,
}

pub enum ActionView {
    Show(Seq<char>, Option<Seq<char>>),
    Skip,
    Wait,
    Finish(Option<Seq<char>>),
    Stopped,
}

impl View for IngestAction {
    type V = ActionView;

    open spec fn view(&self) -> ActionView {
        match self {
            IngestAction::Show { text, chunk } => ActionView::Show(text@, opt_view(*chunk)),
            IngestAction::Skip => ActionView::Skip,
            IngestAction::Wait => ActionView::Wait,
            IngestAction::Finish { chunk } => ActionView::Finish(opt_view(*chunk)),
            IngestAction::Stopped => ActionView::Stopped,
        }
    }
}

pub struct IngestView {
    pub chunker: ChunkerView,
    pub narrate: bool,
    pub finished: bool,
}

/// The state after an event, and what the caller is to do.
pub open spec fn step_spec(s: IngestView, e: EventView) -> (IngestView, ActionView) {
    if s.finished {
        (s, ActionView::Stopped)
    } else {
        match e {
            EventView::Delta(t) => if s.narrate {
                let (c, out) = feed_spec(s.chunker, t);
                (IngestView { chunker: c, ..s }, ActionView::Show(t, out))
            } else {
                (s, ActionView::Show(t, None))
            },
            EventView::NoContent => (s, ActionView::Skip),
            EventView::Empty => (s, ActionView::Wait),
            _ => {
                let (c, out) = finish_spec(s.chunker);
                (IngestView { chunker: c, finished: true, ..s }, ActionView::Finish(out))
            },
        }
    }
}

/// The actions produced by a run of events, in order.
pub open spec fn run(s: IngestView, events: Seq<EventView>) -> Seq<ActionView>
    decreases events.len(),
{
    if events.len() == 0 {
        Seq::empty()
    } else {
        let (s1, a) = step_spec(s, events[0]);
        seq![a] + run(s1, events.drop_first())
    }
}

/// The action hands a chunk to narration.
pub open spec fn dispatches(a: ActionView) -> bool {
    match a {
        ActionView::Show(_, Some(_)) => true,
        ActionView::Finish(Some(_)) => true,
        _ => false,
    }
}

/// Reads one generation stream: shows each delta and cuts narration chunks.
pub struct StreamIngestor {
    chunker: SentenceChunker,
    narrate: bool,
    finished: bool,
}

impl View for StreamIngestor {
    type V = IngestView;

    closed spec fn view(&self) -> IngestView {
        IngestView { chunker: self.chunker@, narrate: self.narrate, finished: self.finished }
    }
}

impl StreamIngestor {
    /// An ingestor for one stream; `narrate` is the narration flag read when
    /// the request started.
    pub fn new(narrate: bool, min_fragments: usize) -> (r: Self)
        ensures
            r@.chunker.pending.len() == 0,
            r@.chunker.min_fragments == min_fragments,
            r@.chunker.terminators == seq!['.', '。'],
            r@.narrate == narrate,
            !r@.finished,
    {
        StreamIngestor { chunker: SentenceChunker::new(min_fragments), narrate, finished: false }
    }

    pub fn is_finished(&self) -> (r: bool)
        ensures
            r == self@.finished,
    {
        self.finished
    }

    /// Handles one event of the stream.
    pub fn step(&mut self, event: StreamEvent) -> (r: IngestAction)
        ensures
            (final(self)@, r@) == step_spec(old(self)@, event@),
    {
        if self.finished {
            return IngestAction::Stopped;
        }
        match event {
            StreamEvent::Delta(text) => {
                if self.narrate {
                    let chunk = self.chunker.feed(text.clone());
                    IngestAction::Show { text, chunk }
                } else {
                    IngestAction::Show { text, chunk: None }
                }
            },
            StreamEvent::NoContent => IngestAction::Skip,
            StreamEvent::Empty => IngestAction::Wait,
            _ => {
                let chunk = self.chunker.finish();
                self.finished = true;
                IngestAction::Finish { chunk }
            },
        }
    }
}

/// Once a stream has ended, no event produces an action but `Stopped`.
pub proof fn lemma_finished_stays_stopped(s: IngestView, events: Seq<EventView>)
    requires
        s.finished,
    ensures
        run(s, events).len() == events.len(),
        forall|i: int| 0 <= i < events.len() ==> run(s, events)[i] == ActionView::Stopped,
    decreases events.len(),
{
    if events.len() > 0 {
        lemma_finished_stays_stopped(s, events.drop_first());
    }
}

/// A disconnection or a failure mid-stream ends the stream: what was pending
/// goes out joined, as one chunk, exactly when something was pending (only
/// ever with narration on), and after it no event dispatches anything.
pub proof fn lemma_end_flushes_once(s: IngestView, end: EventView, later: Seq<EventView>)
    requires
        !s.finished,
        end is Disconnected || end is Failed,
    ensures
        s.chunker.pending.len() > 0 ==> run(s, seq![end] + later)[0] == ActionView::Finish(
            Some(join_with(s.chunker.pending, separator())),
        ),
        s.chunker.pending.len() == 0 ==> run(s, seq![end] + later)[0] == ActionView::Finish(None),
        forall|i: int|
            0 <= i < (seq![end] + later).len() ==> (dispatches(#[trigger] run(s, seq![end] + later)[i])
                <==> (i == 0 && s.chunker.pending.len() > 0)),
{
    let evs = seq![end] + later;
    let (s1, a) = step_spec(s, end);
    assert(evs[0] == end);
    assert(evs.drop_first() =~= later);
    lemma_finished_stays_stopped(s1, later);
    assert(run(s, evs) == seq![a] + run(s1, later));
}

/// With narration off nothing is accumulated, so a stream hands no chunk to
/// narration, whatever its events.
pub proof fn lemma_silent_stream_dispatches_nothing(s: IngestView, events: Seq<EventView>)
    requires
        !s.narrate,
        s.chunker.pending.len() == 0,
    ensures
        run(s, events).len() == events.len(),
        forall|i: int| 0 <= i < events.len() ==> !dispatches(#[trigger] run(s, events)[i]),
    decreases events.len(),
{
    if events.len() > 0 {
        let (s1, a) = step_spec(s, events[0]);
        lemma_silent_stream_dispatches_nothing(s1, events.drop_first());
        assert forall|i: int| 0 <= i < events.len() implies !dispatches(#[trigger] run(s, events)[i]) by {
            if i > 0 {
                assert(run(s, events)[i] == run(s1, events.drop_first())[i - 1]);
            }
        }
    }
}

} // verus!
