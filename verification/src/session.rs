//! The lease protocol as a machine that is driven from outside.
//!
//! A session never talks to the controller. The caller hands it what happened
//! last, an [`Event`], and is told what to do next, a [`Command`]: request the
//! lease, run the guarded action, release the lease, or stop with the outcome.
//! The caller performs the command and comes back with the event that reports
//! how it went.

use vstd::prelude::*;
use crate::outcome::ActionOutcome;

verus! {

/// What the caller reports to the session.
#[derive(Debug, PartialEq, Eq)]
pub enum Event<T> {
    /// The caller is ready to begin.
    Start,
    /// The request for the lease has returned.
    Acquired(Result<(), String>),
    /// The guarded action has returned, with its value or with its failure.
    ActionDone(Result<T, String>),
    /// The request to release the lease has returned.
    Released(Result<(), String>),
}

/// What the session asks of the caller.
#[derive(Debug, PartialEq, Eq)]
pub enum Command<T> {
    /// Request the lease from the controller.
    Acquire,
    /// Run the guarded action: the lease is held.
    RunAction,
    /// Release the lease.
    Release,
    /// The session is over, with this outcome.
    Finish(ActionOutcome<T>),
    /// The event does not belong to the step that the session is in. The
    /// session has not moved, and there is nothing to perform.
    Reject,
}

/// A session, by the step that it is in.
#[derive(Debug, PartialEq, Eq)]
pub enum MastershipSession<T> {
    /// Nothing has been asked of the controller yet.
    Idle,
    /// The lease has been requested, and the answer is awaited.
    Acquiring,
    /// The lease is held and the guarded action is running.
    Holding,
    /// The action has returned this result, and the release of the lease has
    /// been requested.
    Releasing(Result<T, String>),
    /// The outcome has been handed out.
    Closed,
}

impl<T> MastershipSession<T> {
    /// The step function of the protocol: the session after `event`, and the
    /// command that answers the event.
    pub open spec fn step_spec(self, event: Event<T>) -> (Self, Command<T>) {
        match (self, event) {
            (MastershipSession::Idle, Event::Start) => (
                MastershipSession::Acquiring,
                Command::Acquire,
            ),
            (MastershipSession::Acquiring, Event::Acquired(Ok(_))) => (
                MastershipSession::Holding,
                Command::RunAction,
            ),
            (MastershipSession::Acquiring, Event::Acquired(Err(reason))) => (
                MastershipSession::Closed,
                Command::Finish(ActionOutcome::NotRun { reason }),
            ),
            (MastershipSession::Holding, Event::ActionDone(action)) => (
                MastershipSession::Releasing(action),
                Command::Release,
            ),
            (MastershipSession::Releasing(action), Event::Released(release)) => (
                MastershipSession::Closed,
                Command::Finish(ActionOutcome::Ran { action, release }),
            ),
            (session, _) => (session, Command::Reject),
        }
    }

    /// A session that has not begun.
    pub fn new() -> (session: Self)
        ensures
            session == MastershipSession::<T>::Idle,
    {
        MastershipSession::Idle
    }

    /// Takes `event` in and gives the session that follows together with the
    /// command for the caller.
    pub fn step(self, event: Event<T>) -> (next: (Self, Command<T>))
        ensures
            next == self.step_spec(event),
    {
        match self {
            MastershipSession::Idle => match event {
                Event::Start => (MastershipSession::Acquiring, Command::Acquire),
                _ => (MastershipSession::Idle, Command::Reject),
            },
            MastershipSession::Acquiring => match event {
                Event::Acquired(Ok(_)) => (MastershipSession::Holding, Command::RunAction),
                Event::Acquired(Err(reason)) => (
                    MastershipSession::Closed,
                    Command::Finish(ActionOutcome::NotRun { reason }),
                ),
                _ => (MastershipSession::Acquiring, Command::Reject),
            },
            MastershipSession::Holding => match event {
                Event::ActionDone(action) => (MastershipSession::Releasing(action), Command::Release),
                _ => (MastershipSession::Holding, Command::Reject),
            },
            MastershipSession::Releasing(action) => match event {
                Event::Released(release) => (
                    MastershipSession::Closed,
                    Command::Finish(ActionOutcome::Ran { action, release }),
                ),
                _ => (MastershipSession::Releasing(action), Command::Reject),
            },
            MastershipSession::Closed => (MastershipSession::Closed, Command::Reject),
        }
    }
}

} // verus!
