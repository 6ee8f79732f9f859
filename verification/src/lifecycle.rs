//! The lifecycle of an owned native handle, as a state machine.
//!
//! The native library requires that a handle be released exactly once and
//! never used after release, and that a handle be shared across threads
//! only once every ephemeris segment is memory-resident.  The unverified
//! shell that owns the raw handle drives this machine and performs the
//! native release only when the machine asks for it, which makes
//! "released exactly once" a proved property rather than a convention.

use vstd::prelude::*;

verus! {

/// Where an owned native handle stands in its life: still open (and, if
/// so, whether every ephemeris segment has been prefetched into memory),
/// or already closed.
#[derive(Debug, PartialEq, Eq, Structural)]
pub enum HandleState {
    Open { prefetched: bool },
    Closed,
}

/// What the owner of the raw handle must do on a close request.
#[derive(Debug, PartialEq, Eq, Structural)]
pub enum CloseAction {
    /// The handle is still live: release it through the native close call.
    ReleaseNative,
    /// The handle was released before: do nothing.
    AlreadyReleased,
}

/// The close action a state calls for: a native release exactly when the
/// handle is still open.
pub open spec fn close_action_spec(s: HandleState) -> CloseAction {
    if s is Open {
        CloseAction::ReleaseNative
    } else {
        CloseAction::AlreadyReleased
    }
}

/// One close request, as a mathematical step: the handle is closed
/// afterwards, and the action says whether the native release runs now.
pub open spec fn close_spec(s: HandleState) -> (HandleState, CloseAction) {
    (HandleState::Closed, close_action_spec(s))
}

impl HandleState {
    /// The state of a handle the native open call has just produced:
    /// live, with nothing prefetched yet.
    pub fn opened() -> (r: HandleState)
        ensures
            r == (HandleState::Open { prefetched: false }),
    {
        HandleState::Open { prefetched: false }
    }

    /// Records that the native prefetch call succeeded: every segment is
    /// now memory-resident.  The handle must still be open.
    pub fn after_prefetch_success(&mut self)
        requires
            *old(self) is Open,
        ensures
            *final(self) == (HandleState::Open { prefetched: true }),
    {
        *self = HandleState::Open { prefetched: true };
    }

    /// Whether the handle may be handed to another thread: only a live
    /// handle whose data is fully memory-resident performs read-only
    /// access thereafter, which is the native library's own condition for
    /// concurrent use.
    pub fn shareable_across_threads(&self) -> (r: bool)
        ensures
            r <==> *self == (HandleState::Open { prefetched: true }),
    {
        match self {
            HandleState::Open { prefetched } => *prefetched,
            HandleState::Closed => false,
        }
    }

    /// Takes one close request: the handle is closed afterwards whatever
    /// it was before, and the native release is requested exactly when it
    /// was still open.
    pub fn close(&mut self) -> (r: CloseAction)
        ensures
            (*final(self), r) == close_spec(*old(self)),
            *final(self) is Closed,
            r is ReleaseNative <==> *old(self) is Open,
    {
        let r = match self {
            HandleState::Open { .. } => CloseAction::ReleaseNative,
            HandleState::Closed => CloseAction::AlreadyReleased,
        };
        *self = HandleState::Closed;
        r
    }
}

/// Law: release happens at most once.  Whatever state a handle starts
/// in, a close followed by a second close leaves it closed, and the
/// second close is a no-op that never asks for another native release.
pub proof fn lemma_repeated_close_is_noop(s: HandleState)
    ensures
        close_spec(close_spec(s).0).0 is Closed,
        close_spec(close_spec(s).0).1 is AlreadyReleased,
{
}

} // verus!
