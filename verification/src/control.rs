//! The kill switch: a single-use signal from any number of callers to
//! the one termination supervisor.  Created alongside the process,
//! consumed at most once, then permanently closed.

use vstd::prelude::*;

verus! {

/// Why a kill request was dropped; a local error for the caller that
/// never affects the supervisor's own state.
#[derive(Clone, Copy, Debug, PartialEq, Eq, Structural)]
pub enum KillRequestError {
    /// A request is already pending delivery.
    AlreadyPending,
    /// The supervisor has stopped listening.
    Closed,
}

/// The state of the kill channel, capacity one.
pub struct KillSwitch {
    pub pending: bool,
    pub closed: bool,
}

impl KillSwitch {
    pub fn new() -> (s: Self)
        ensures
            !s.pending,
            !s.closed,
    {
        KillSwitch { pending: false, closed: false }
    }

    /// A caller asks for termination.  The first request on an open
    /// switch is accepted; any further one is dropped with a local
    /// error, and the switch itself is unaffected by the failure.
    pub fn request(&mut self) -> (r: Result<(), KillRequestError>)
        ensures
            old(self).closed ==> r == Err::<(), KillRequestError>(KillRequestError::Closed),
            !old(self).closed && old(self).pending ==> r == Err::<(), KillRequestError>(
                KillRequestError::AlreadyPending,
            ),
            !old(self).closed && !old(self).pending ==> r == Ok::<(), KillRequestError>(()),
            final(self).closed == old(self).closed,
            final(self).pending == (old(self).pending || !old(self).closed),
    {
        if self.closed {
            Err(KillRequestError::Closed)
        } else if self.pending {
            Err(KillRequestError::AlreadyPending)
        } else {
            self.pending = true;
            Ok(())
        }
    }

    /// The supervisor's side: observes whether a request was pending
    /// and permanently closes the switch.  Closing is one-way, so at
    /// most one request is ever consumed.
    pub fn consume(&mut self) -> (r: bool)
        ensures
            r == (old(self).pending && !old(self).closed),
            final(self).closed,
            !final(self).pending,
    {
        let had = self.pending && !self.closed;
        self.pending = false;
        self.closed = true;
        had
    }
}

} // verus!
