//! The request side of a session's life: what a subscription and its
//! cancellation do, given what came before.

use crate::event::Handle;
use vstd::prelude::*;

verus! {

/// What a subscription has to do next.
#[derive(Clone, Copy, Debug, PartialEq, Eq, Structural)]
pub enum StartStep {
    /// A session is running: tell the subscriber its handle again.
    Announce(Handle),
    /// A stopped session has not finished yet: meet its worker at the
    /// rendezvous, report that with `handoff_complete`, and ask again.
    AwaitHandoff,
    /// Nothing is running and nothing is owed: open the camera and the
    /// texture, announce the session, and report it with `session_started`.
    Acquire,
}

/// Where the subscription stands. It owns at most one running session, and it
/// remembers a stopped one until its teardown has been awaited.
#[derive(Clone, Copy, Debug, PartialEq, Eq, Structural)]
pub enum SessionController {
    /// No session runs, and no teardown is owed.
    Idle,
    /// A session runs; the subscriber knows it by this handle.
    Active(Handle),
    /// The last session was told to stop, and nobody has met its worker at
    /// the rendezvous yet.
    Draining,
}

impl SessionController {
    /// The next step of a subscription in this state.
    pub open spec fn start_step(self) -> StartStep {
        match self {
            SessionController::Idle => StartStep::Acquire,
            SessionController::Active(handle) => StartStep::Announce(handle),
            SessionController::Draining => StartStep::AwaitHandoff,
        }
    }

    /// The state after the rendezvous with the stopped session's worker.
    pub open spec fn met(self) -> SessionController {
        match self {
            SessionController::Draining => SessionController::Idle,
            _ => self,
        }
    }

    /// The state once a session with `handle` has been announced.
    pub open spec fn started(self, handle: Handle) -> SessionController {
        match self {
            SessionController::Idle => SessionController::Active(handle),
            _ => self,
        }
    }

    /// The state after a cancellation.
    pub open spec fn stopped(self) -> SessionController {
        match self {
            SessionController::Active(_) => SessionController::Draining,
            _ => self,
        }
    }

    /// The handle of the running session, if one runs.
    pub open spec fn active(self) -> Option<Handle> {
        match self {
            SessionController::Active(handle) => Some(handle),
            _ => None,
        }
    }

    /// A controller with no session.
    pub fn new() -> (controller: SessionController)
        ensures
            controller == SessionController::Idle,
    {
        SessionController::Idle
    }

    /// What a subscription has to do next. It changes nothing: a subscription
    /// that fails to open the camera leaves the controller as it found it.
    pub fn start(&self) -> (step: StartStep)
        ensures
            step == self.start_step(),
    {
        match self {
            SessionController::Idle => StartStep::Acquire,
            SessionController::Active(handle) => StartStep::Announce(*handle),
            SessionController::Draining => StartStep::AwaitHandoff,
        }
    }

    /// Records that the stopped session's worker was met at the rendezvous:
    /// nothing is owed any more. Returns whether a teardown was owed.
    pub fn handoff_complete(&mut self) -> (owed: bool)
        ensures
            owed == (*old(self) == SessionController::Draining),
            *final(self) == old(self).met(),
    {
        match self {
            SessionController::Draining => {
                *self = SessionController::Idle;
                true
            },
            _ => false,
        }
    }

    /// Records that a session with `handle` holds the camera and was
    /// announced. Returns whether the controller took it, which it does
    /// exactly when it was idle.
    pub fn session_started(&mut self, handle: Handle) -> (taken: bool)
        ensures
            taken == (*old(self) == SessionController::Idle),
            *final(self) == old(self).started(handle),
    {
        match self {
            SessionController::Idle => {
                *self = SessionController::Active(handle);
                true
            },
            _ => false,
        }
    }

    /// Handles a cancellation. Returns whether a running session has to be
    /// signalled to stop; its handle is forgotten at once, and its teardown
    /// is still owed. Without a running session nothing changes.
    pub fn stop(&mut self) -> (signal: bool)
        ensures
            signal == old(self).active().is_some(),
            *final(self) == old(self).stopped(),
    {
        match self {
            SessionController::Active(_) => {
                *self = SessionController::Draining;
                true
            },
            _ => false,
        }
    }

    /// The handle of the running session, if one runs.
    pub fn handle(&self) -> (handle: Option<Handle>)
        ensures
            handle == self.active(),
    {
        match self {
            SessionController::Active(handle) => Some(*handle),
            _ => None,
        }
    }
}

impl Default for SessionController {
    fn default() -> (controller: SessionController)
        ensures
            controller == SessionController::Idle,
    {
        SessionController::Idle
    }
}

} // verus!
