//! The termination supervisor: a state machine that races natural exit
//! against an explicit kill request, normalizes the exit status of the
//! child into the terminal event, and guarantees that exactly one
//! terminal event reaches the channel.

use vstd::prelude::*;

use crate::event::CommandEvent;
use crate::event::TerminatedPayload;
use crate::event::count_terminated;
use crate::event::lemma_no_terminated_count;
use crate::event::no_terminated;
use crate::middleware::LogsMiddleware;
use crate::reader::is_interleaving;
use crate::reader::lemma_interleaving_no_terminal;

verus! {

/// What the platform reports of an exited child: the plain exit code,
/// if any, and the number of the signal that killed it, if any.
#[derive(Clone, Copy, Debug, PartialEq, Eq)]
pub struct ExitStatusModel {
    pub code: Option<i32>,
    pub signal: Option<i32>,
}

/// The signal half of the normalized pair: platforms without signal
/// semantics never populate it.
pub open spec fn spec_signal_from_status(status: ExitStatusModel, posix: bool) -> Option<i32> {
    if posix {
        status.signal
    } else {
        None
    }
}

pub fn signal_from_status(status: &ExitStatusModel, posix: bool) -> (r: Option<i32>)
    ensures
        r == spec_signal_from_status(*status, posix),
{
    if posix {
        status.signal
    } else {
        None
    }
}

/// The normalized (exit code, signal) pair for a terminal event.
pub open spec fn spec_normalize_status(status: ExitStatusModel, posix: bool) -> TerminatedPayload {
    TerminatedPayload { code: status.code, signal: spec_signal_from_status(status, posix) }
}

pub fn normalize_status(status: &ExitStatusModel, posix: bool) -> (p: TerminatedPayload)
    ensures
        p == spec_normalize_status(*status, posix),
{
    TerminatedPayload { code: status.code, signal: signal_from_status(status, posix) }
}

/// A process that exited normally with code `c` is reported with that
/// code and no signal, on every platform.
pub proof fn lemma_normal_exit_payload(status: ExitStatusModel, posix: bool, c: i32)
    requires
        status.code == Some(c),
        status.signal == None::<i32>,
    ensures
        spec_normalize_status(status, posix) == (TerminatedPayload {
            code: Some(c),
            signal: None,
        }),
{
}

/// A process killed by signal `s` is reported with that signal and no
/// exit code, where the platform has signal semantics.
pub proof fn lemma_signal_exit_payload(status: ExitStatusModel, s: i32)
    requires
        status.code == None::<i32>,
        status.signal == Some(s),
    ensures
        spec_normalize_status(status, true) == (TerminatedPayload {
            code: None,
            signal: Some(s),
        }),
{
}

/// What one non-blocking liveness check observed.
#[derive(Clone, Debug, PartialEq)]
pub enum PollResult {
    /// The child has not exited yet.
    StillRunning,
    /// The child has exited with this status.
    Exited(ExitStatusModel),
    /// Waiting on the platform itself failed; the description.
    WaitFailed(String),
}

/// What the race between the kill channel and the tick produced.
#[derive(Clone, Copy, Debug, PartialEq, Eq, Structural)]
pub enum WaitOutcome {
    /// A kill request arrived.
    KillRequested,
    /// The kill channel closed without a request.
    KillChannelClosed,
    /// The tick elapsed first; loop back and poll again.
    TickElapsed,
}

/// The supervisor's state: whether it still listens for kill requests,
/// and whether it has already emitted its terminal event.
pub struct TerminationSupervisor {
    pub kill_open: bool,
    pub finished: bool,
    pub posix: bool,
}

impl TerminationSupervisor {
    /// The terminal event one poll observation gives rise to, if any.
    pub open spec fn terminal_event(p: PollResult, posix: bool) -> Option<CommandEvent> {
        match p {
            PollResult::StillRunning => None,
            PollResult::Exited(st) => Some(
                CommandEvent::Terminated(spec_normalize_status(st, posix)),
            ),
            PollResult::WaitFailed(m) => Some(CommandEvent::Error(m)),
        }
    }

    pub fn new(posix: bool) -> (s: Self)
        ensures
            !s.finished,
            s.kill_open,
            s.posix == posix,
    {
        TerminationSupervisor { kill_open: true, finished: false, posix }
    }

    /// One liveness check.  Returns the event to place on the channel
    /// when the run is over: `Terminated` when the child exited,
    /// `Error` when waiting itself failed, nothing while it lives.  The
    /// supervisor is finished exactly when an event came back, and a
    /// finished supervisor accepts no further observation — so at most
    /// one terminal event is ever emitted per supervised process.
    pub fn poll(&mut self, p: PollResult) -> (r: Option<CommandEvent>)
        requires
            !old(self).finished,
        ensures
            r == Self::terminal_event(p, old(self).posix),
            final(self).finished == (r is Some),
            final(self).kill_open == old(self).kill_open,
            final(self).posix == old(self).posix,
            r matches Some(e) ==> !(e is Stdout) && !(e is Stderr),
    {
        match p {
            PollResult::StillRunning => None,
            PollResult::Exited(st) => {
                self.finished = true;
                Some(CommandEvent::Terminated(normalize_status(&st, self.posix)))
            },
            PollResult::WaitFailed(m) => {
                self.finished = true;
                Some(CommandEvent::Error(m))
            },
        }
    }

    /// One round of the race between a kill request and the tick.
    /// Returns whether to deliver a forceful termination to the process
    /// group now.  After a request, or after the channel closed, the
    /// supervisor stops listening: further requests are redundant.
    pub fn wait(&mut self, w: WaitOutcome) -> (start_kill: bool)
        requires
            !old(self).finished,
        ensures
            start_kill == (old(self).kill_open && w is KillRequested),
            final(self).kill_open == (old(self).kill_open && w is TickElapsed),
            final(self).finished == old(self).finished,
            final(self).posix == old(self).posix,
    {
        if !self.kill_open {
            return false;
        }
        match w {
            WaitOutcome::KillRequested => {
                self.kill_open = false;
                true
            },
            WaitOutcome::KillChannelClosed => {
                self.kill_open = false;
                false
            },
            WaitOutcome::TickElapsed => false,
        }
    }

    /// How many forceful terminations a run of waits starts.
    pub open spec fn kill_starts(kill_open: bool, ws: Seq<WaitOutcome>) -> nat
        decreases ws.len(),
    {
        if ws.len() == 0 {
            0
        } else {
            let fired: nat = if kill_open && ws[0] is KillRequested {
                1
            } else {
                0
            };
            fired + Self::kill_starts(kill_open && ws[0] is TickElapsed, ws.drop_first())
        }
    }

    /// A supervisor that no longer listens starts no kill.
    pub proof fn lemma_no_kill_when_closed(ws: Seq<WaitOutcome>)
        ensures
            Self::kill_starts(false, ws) == 0,
        decreases ws.len(),
    {
        if ws.len() > 0 {
            Self::lemma_no_kill_when_closed(ws.drop_first());
        }
    }

    /// The kill request is consumed at most once: over any run of the
    /// race, at most one forceful termination is ever started.
    pub proof fn lemma_at_most_one_kill(kill_open: bool, ws: Seq<WaitOutcome>)
        ensures
            Self::kill_starts(kill_open, ws) <= 1,
        decreases ws.len(),
    {
        if ws.len() > 0 {
            if kill_open && ws[0] is KillRequested {
                Self::lemma_no_kill_when_closed(ws.drop_first());
            } else {
                Self::lemma_at_most_one_kill(kill_open && ws[0] is TickElapsed, ws.drop_first());
            }
        }
    }
}

/// The ordering guarantee of the whole pipeline: the readers' events —
/// in whatever order the channel interleaved them — followed by the
/// supervisor's terminal event, fed through the middleware, reach the
/// consumer with `Terminated` exactly once, and as the last event.
pub proof fn lemma_terminated_once_and_last(
    stdout_events: Seq<CommandEvent>,
    stderr_events: Seq<CommandEvent>,
    merged: Seq<CommandEvent>,
    status: ExitStatusModel,
    posix: bool,
    done0: bool,
)
    requires
        no_terminated(stdout_events),
        no_terminated(stderr_events),
        is_interleaving(merged, stdout_events, stderr_events),
    ensures
        ({
            let terminal = CommandEvent::Terminated(spec_normalize_status(status, posix));
            let consumed = LogsMiddleware::run_forward(done0, merged.push(terminal));
            &&& consumed.len() > 0
            &&& consumed.last() == terminal
            &&& count_terminated(consumed) == 1
        }),
{
    let terminal = CommandEvent::Terminated(spec_normalize_status(status, posix));
    let channel = merged.push(terminal);
    lemma_interleaving_no_terminal(merged, stdout_events, stderr_events);
    lemma_no_terminated_count(merged);
    assert(channel.drop_last() =~= merged);
    assert(channel.last() == terminal);
    assert(count_terminated(channel) == 1);
    LogsMiddleware::lemma_forward_preserves_terminated(done0, channel);
}

} // verus!
