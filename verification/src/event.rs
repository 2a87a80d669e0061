//! The event model: everything a consumer of a supervised process
//! observes is one of these values.

use vstd::prelude::*;

verus! {

/// Which output pipe of the child a line was read from.
#[derive(Clone, Copy, Debug, PartialEq, Eq, Structural)]
pub enum StreamKind {
    Stdout,
    Stderr,
}

/// The normalized outcome of a terminated process: an exit code when it
/// exited normally, a signal number when a signal killed it (never both).
#[derive(Clone, Copy, Debug, PartialEq, Eq)]
pub struct TerminatedPayload {
    pub code: Option<i32>,
    pub signal: Option<i32>,
}

/// One observation from a supervised process: a line of output, a local
/// failure, or the single terminal event.
#[derive(Clone, Debug, PartialEq)]
pub enum CommandEvent {
    Stdout(String),
    Stderr(String),
    Error(String),
    Terminated(TerminatedPayload),
}

/// The text carried by an output-line event; `None` for the others.
pub open spec fn event_line(e: CommandEvent) -> Option<Seq<char>> {
    match e {
        CommandEvent::Stdout(s) => Some(s@),
        CommandEvent::Stderr(s) => Some(s@),
        _ => None,
    }
}

/// How many terminal events a sequence holds.
pub open spec fn count_terminated(s: Seq<CommandEvent>) -> nat
    decreases s.len(),
{
    if s.len() == 0 {
        0
    } else {
        count_terminated(s.drop_last()) + if s.last() is Terminated {
            1nat
        } else {
            0nat
        }
    }
}

/// No event of the sequence is terminal.
pub open spec fn no_terminated(s: Seq<CommandEvent>) -> bool {
    forall|i: int| 0 <= i < s.len() ==> !(#[trigger] s[i] is Terminated)
}

/// A sequence without terminal events counts zero of them.
pub proof fn lemma_no_terminated_count(s: Seq<CommandEvent>)
    requires
        no_terminated(s),
    ensures
        count_terminated(s) == 0,
    decreases s.len(),
{
    if s.len() > 0 {
        assert(!(s[s.len() - 1] is Terminated));
        assert(no_terminated(s.drop_last()));
        lemma_no_terminated_count(s.drop_last());
    }
}

/// Prepending one event adds its own contribution to the count.
pub proof fn lemma_count_cons(e: CommandEvent, s: Seq<CommandEvent>)
    ensures
        count_terminated(seq![e] + s) == count_terminated(s) + if e is Terminated {
            1nat
        } else {
            0nat
        },
    decreases s.len(),
{
    if s.len() == 0 {
        assert(seq![e] + s =~= seq![e]);
        assert((seq![e]).drop_last() =~= Seq::<CommandEvent>::empty());
        assert(count_terminated(Seq::<CommandEvent>::empty()) == 0);
        assert((seq![e]).last() == e);
        assert(count_terminated(seq![e]) == count_terminated((seq![e]).drop_last()) + if (seq![e]).last() is Terminated {
            1nat
        } else {
            0nat
        });
    } else {
        lemma_count_cons(e, s.drop_last());
        assert((seq![e] + s).drop_last() =~= seq![e] + s.drop_last());
        assert((seq![e] + s).last() == s.last());
        assert(count_terminated(seq![e] + s) == count_terminated((seq![e] + s).drop_last()) + if (
        seq![e] + s).last() is Terminated {
            1nat
        } else {
            0nat
        });
        assert(count_terminated(s) == count_terminated(s.drop_last()) + if s.last() is Terminated {
            1nat
        } else {
            0nat
        });
    }
}

/// Tags a line of text with the pipe it came from, as the line readers
/// do before handing it to the shared channel.
pub fn tag_line(kind: StreamKind, text: String) -> (e: CommandEvent)
    ensures
        kind is Stdout ==> e == CommandEvent::Stdout(text),
        kind is Stderr ==> e == CommandEvent::Stderr(text),
        !(e is Terminated),
        event_line(e) == Some(text@),
{
    match kind {
        StreamKind::Stdout => CommandEvent::Stdout(text),
        StreamKind::Stderr => CommandEvent::Stderr(text),
    }
}

} // verus!
