//! The line reader and the output multiplexer, as decision logic: what
//! one read observation makes the reader emit, and what an interleaving
//! of two readers' emissions can look like on the shared channel.

use vstd::prelude::*;

use crate::event::CommandEvent;
use crate::event::StreamKind;
use crate::event::no_terminated;
use crate::event::tag_line;

verus! {

/// What one attempt to read the next line of a pipe observed.
#[derive(Clone, Debug, PartialEq)]
pub enum ReadOutcome {
    /// A full line, with the newline already stripped.
    Line(String),
    /// The pipe is exhausted without error.
    EndOfStream,
    /// The pipe failed mid-stream; the description of the failure.
    ReadError(String),
}

/// The event a reader emits for one observation, if any: a tagged line,
/// one error event on failure, and nothing at end of stream.
pub open spec fn read_emission(kind: StreamKind, o: ReadOutcome) -> Option<CommandEvent> {
    match o {
        ReadOutcome::Line(s) => Some(
            if kind is Stdout {
                CommandEvent::Stdout(s)
            } else {
                CommandEvent::Stderr(s)
            },
        ),
        ReadOutcome::EndOfStream => None,
        ReadOutcome::ReadError(e) => Some(CommandEvent::Error(e)),
    }
}

/// Whether the reader keeps going after the observation: only after a
/// successful line; end of stream and errors both end its job.
pub open spec fn read_continues(o: ReadOutcome) -> bool {
    o is Line
}

/// One step of the reader loop: the event to put on the shared channel,
/// and whether to read again.
pub fn read_step(kind: StreamKind, outcome: ReadOutcome) -> (r: (Option<CommandEvent>, bool))
    ensures
        r.0 == read_emission(kind, outcome),
        r.1 == read_continues(outcome),
        r.0 matches Some(e) ==> !(e is Terminated),
{
    match outcome {
        ReadOutcome::Line(s) => (Some(tag_line(kind, s)), true),
        ReadOutcome::EndOfStream => (None, false),
        ReadOutcome::ReadError(e) => (Some(CommandEvent::Error(e)), false),
    }
}

/// Everything a reader emits over a whole run: observations are
/// consumed in order until the first one that ends the loop.
pub open spec fn reader_events(kind: StreamKind, outcomes: Seq<ReadOutcome>) -> Seq<CommandEvent>
    decreases outcomes.len(),
{
    if outcomes.len() == 0 {
        Seq::empty()
    } else {
        let rest = if read_continues(outcomes[0]) {
            reader_events(kind, outcomes.drop_first())
        } else {
            Seq::empty()
        };
        match read_emission(kind, outcomes[0]) {
            Some(e) => seq![e] + rest,
            None => rest,
        }
    }
}

/// A reader never emits the terminal event, whatever it observes.
pub proof fn lemma_reader_never_terminal(kind: StreamKind, outcomes: Seq<ReadOutcome>)
    ensures
        no_terminated(reader_events(kind, outcomes)),
    decreases outcomes.len(),
{
    if outcomes.len() > 0 {
        lemma_reader_never_terminal(kind, outcomes.drop_first());
    }
}

/// The drain barrier the readers run under: each active reader holds a
/// registration, and a shutdown sequencer may reclaim resources only
/// once the count has fallen back to zero.  Its exclusive side is not
/// exercised by the supervisor itself; whether a downstream owner
/// awaits the drain is left open.
pub struct DrainBarrier {
    pub readers: u64,
}

impl DrainBarrier {
    pub fn new() -> (b: Self)
        ensures
            b.readers == 0,
    {
        DrainBarrier { readers: 0 }
    }

    /// A reader registers before its first read.
    pub fn register(&mut self)
        requires
            old(self).readers < u64::MAX,
        ensures
            final(self).readers == old(self).readers + 1,
    {
        self.readers = self.readers + 1;
    }

    /// A reader deregisters when its job ends, however it ends.
    pub fn deregister(&mut self)
        requires
            old(self).readers > 0,
        ensures
            final(self).readers == old(self).readers - 1,
    {
        self.readers = self.readers - 1;
    }

    /// Whether all output has drained: no reader is active, so a
    /// shutdown sequencer may proceed.
    pub fn drained(&self) -> (r: bool)
        ensures
            r == (self.readers == 0),
    {
        self.readers == 0
    }
}

/// `m` is one of the ways the shared channel can order the two readers'
/// emissions: each reader's own order is kept; their relative order is
/// arbitrary.
pub open spec fn is_interleaving(
    m: Seq<CommandEvent>,
    a: Seq<CommandEvent>,
    b: Seq<CommandEvent>,
) -> bool
    decreases m.len(),
{
    if a.len() == 0 && b.len() == 0 {
        m.len() == 0
    } else {
        m.len() > 0 && ((a.len() > 0 && m[0] == a[0] && is_interleaving(
            m.drop_first(),
            a.drop_first(),
            b,
        )) || (b.len() > 0 && m[0] == b[0] && is_interleaving(m.drop_first(), a, b.drop_first())))
    }
}

/// Multiplexing keeps the channel free of terminal events as long as
/// both inputs are.
pub proof fn lemma_interleaving_no_terminal(
    m: Seq<CommandEvent>,
    a: Seq<CommandEvent>,
    b: Seq<CommandEvent>,
)
    requires
        is_interleaving(m, a, b),
        no_terminated(a),
        no_terminated(b),
    ensures
        no_terminated(m),
    decreases m.len(),
{
    if !(a.len() == 0 && b.len() == 0) {
        if a.len() > 0 && m[0] == a[0] && is_interleaving(m.drop_first(), a.drop_first(), b) {
            assert(no_terminated(a.drop_first()));
            lemma_interleaving_no_terminal(m.drop_first(), a.drop_first(), b);
        } else {
            assert(no_terminated(b.drop_first()));
            lemma_interleaving_no_terminal(m.drop_first(), a, b.drop_first());
        }
        assert forall|i: int| 0 <= i < m.len() implies !(#[trigger] m[i] is Terminated) by {
            if i > 0 {
                assert(m[i] == m.drop_first()[i - 1]);
            }
        }
    }
}

} // verus!
