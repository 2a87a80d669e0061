//! The serve specialization's consumer role: drains the event sequence,
//! forwards lines and errors to a logging sink, and resolves a single
//! one-shot completion notice the first time the terminal event is
//! observed.

use vstd::prelude::*;

use crate::event::CommandEvent;
use crate::event::TerminatedPayload;
use crate::event::no_terminated;

verus! {

/// A single-producer, single-consumer, single-fire completion signal:
/// the first send resolves it, every later send is ignored.
pub struct TerminationNotice {
    pub fired: bool,
    pub payload: Option<TerminatedPayload>,
}

impl TerminationNotice {
    pub fn new() -> (n: Self)
        ensures
            !n.fired,
            n.payload is None,
    {
        TerminationNotice { fired: false, payload: None }
    }

    /// Resolves the notice; reports whether this send was the one that
    /// fired it.  A fired notice never changes again.
    pub fn send(&mut self, p: TerminatedPayload) -> (accepted: bool)
        ensures
            accepted == !old(self).fired,
            final(self).fired,
            accepted ==> final(self).payload == Some(p),
            !accepted ==> final(self).payload == old(self).payload,
    {
        if self.fired {
            false
        } else {
            self.fired = true;
            self.payload = Some(p);
            true
        }
    }
}

/// What the consumer does with one event.
#[derive(Clone, Debug, PartialEq)]
pub enum ServeAction {
    /// Forward an output line to the logging sink.
    LogLine(String),
    /// Forward a local failure to the logging sink.
    LogError(String),
    /// Resolve the completion notice with the terminal payload.
    Resolve(TerminatedPayload),
    /// A terminal event after the notice already fired: ignored.
    Ignore,
}

/// The consumer draining the event sequence for the serve case.
pub struct ServeConsumer {
    pub notice: TerminationNotice,
}

impl ServeConsumer {
    /// The action one event calls for, given whether the notice fired.
    pub open spec fn action_for(fired: bool, e: CommandEvent) -> ServeAction {
        match e {
            CommandEvent::Stdout(s) => ServeAction::LogLine(s),
            CommandEvent::Stderr(s) => ServeAction::LogLine(s),
            CommandEvent::Error(s) => ServeAction::LogError(s),
            CommandEvent::Terminated(p) => if fired {
                ServeAction::Ignore
            } else {
                ServeAction::Resolve(p)
            },
        }
    }

    pub fn new() -> (c: Self)
        ensures
            !c.notice.fired,
    {
        ServeConsumer { notice: TerminationNotice::new() }
    }

    /// Consumes one event of the sequence.
    pub fn consume(&mut self, e: CommandEvent) -> (a: ServeAction)
        ensures
            a == Self::action_for(old(self).notice.fired, e),
            final(self).notice.fired == (old(self).notice.fired || e is Terminated),
            e matches CommandEvent::Terminated(p) ==> (!old(self).notice.fired ==> final(self).notice.payload == Some(p)),
            !(e is Terminated) ==> final(self).notice == old(self).notice,
    {
        match e {
            CommandEvent::Stdout(s) => ServeAction::LogLine(s),
            CommandEvent::Stderr(s) => ServeAction::LogLine(s),
            CommandEvent::Error(s) => ServeAction::LogError(s),
            CommandEvent::Terminated(p) => {
                let accepted = self.notice.send(p);
                if accepted {
                    ServeAction::Resolve(p)
                } else {
                    ServeAction::Ignore
                }
            },
        }
    }

    /// The actions a whole event sequence gives rise to.
    pub open spec fn actions(fired: bool, events: Seq<CommandEvent>) -> Seq<ServeAction>
        decreases events.len(),
    {
        if events.len() == 0 {
            Seq::empty()
        } else {
            seq![Self::action_for(fired, events[0])] + Self::actions(
                fired || events[0] is Terminated,
                events.drop_first(),
            )
        }
    }

    /// How many of the actions resolve the notice.
    pub open spec fn count_resolves(actions: Seq<ServeAction>) -> nat
        decreases actions.len(),
    {
        if actions.len() == 0 {
            0
        } else {
            let head: nat = if actions[0] is Resolve {
                1
            } else {
                0
            };
            head + Self::count_resolves(actions.drop_first())
        }
    }

    /// The notice resolves exactly once: over any drained sequence, a
    /// fresh consumer resolves it exactly when a terminal event occurs,
    /// and never twice.
    pub proof fn lemma_resolves_once(fired: bool, events: Seq<CommandEvent>)
        ensures
            fired ==> Self::count_resolves(Self::actions(fired, events)) == 0,
            !fired ==> Self::count_resolves(Self::actions(fired, events)) == if no_terminated(
                events,
            ) {
                0nat
            } else {
                1nat
            },
        decreases events.len(),
    {
        if events.len() > 0 {
            let rest = events.drop_first();
            Self::lemma_resolves_once(fired || events[0] is Terminated, rest);
            assert(Self::actions(fired, events).drop_first() =~= Self::actions(
                fired || events[0] is Terminated,
                rest,
            ));
            assert(no_terminated(events) ==> !(events[0] is Terminated) && no_terminated(rest));
            if !no_terminated(events) && !(events[0] is Terminated) {
                assert(!no_terminated(rest)) by {
                    let i = choose|i: int|
                        0 <= i < events.len() && (#[trigger] events[i] is Terminated);
                    assert(rest[i - 1] is Terminated);
                }
            }
        }
    }
}

} // verus!
