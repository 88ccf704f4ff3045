//! What a mastership session reports when it is over.

use vstd::prelude::*;

verus! {

/// One failure of a session, by the step that failed. Each carries the reason
/// that the step gave.
#[derive(Debug, PartialEq, Eq)]
pub enum SessionError {
    /// The controller did not grant the lease.
    AcquisitionFailed(String),
    /// The guarded action failed while the lease was held.
    ActionFailed(String),
    /// The lease was taken, and the request to give it back failed.
    ReleaseFailed(String),
}

/// The outcome of one session: whether the guarded action ran, what it
/// returned, and how the release of the lease went.
#[derive(Debug, PartialEq, Eq)]
pub enum ActionOutcome<T> {
    /// The lease was refused: the action did not run and nothing was released.
    NotRun { reason: String },
    /// The lease was granted: the action ran and the release was attempted.
    Ran { action: Result<T, String>, release: Result<(), String> },
}

impl SessionError {
    /// The line that names the failed step and gives its reason.
    pub open spec fn message_spec(self) -> Seq<char> {
        match self {
            SessionError::AcquisitionFailed(reason) => "mastership request failed: "@ + reason@,
            SessionError::ActionFailed(reason) => "action failed: "@ + reason@,
            SessionError::ReleaseFailed(reason) => "mastership release failed: "@ + reason@,
        }
    }

    /// The failure as one line for the operator, labelled by the step that
    /// failed.
    pub fn message(&self) -> (line: String)
        ensures
            line@ == self.message_spec(),
    {
        match self {
            SessionError::AcquisitionFailed(reason) => String::from_str(
                "mastership request failed: ",
            ).concat(reason.as_str()),
            SessionError::ActionFailed(reason) => String::from_str("action failed: ").concat(
                reason.as_str(),
            ),
            SessionError::ReleaseFailed(reason) => String::from_str(
                "mastership release failed: ",
            ).concat(reason.as_str()),
        }
    }
}

impl<T> ActionOutcome<T> {
    /// The failures of the session in the order in which they happened.
    pub open spec fn failures_spec(self) -> Seq<SessionError> {
        match self {
            ActionOutcome::NotRun { reason } => seq![SessionError::AcquisitionFailed(reason)],
            ActionOutcome::Ran { action, release } => {
                let of_action = match action {
                    Ok(_) => Seq::<SessionError>::empty(),
                    Err(reason) => seq![SessionError::ActionFailed(reason)],
                };
                let of_release = match release {
                    Ok(_) => Seq::<SessionError>::empty(),
                    Err(reason) => seq![SessionError::ReleaseFailed(reason)],
                };
                of_action + of_release
            },
        }
    }

    /// Nothing failed: the lease was granted, the action returned a value and
    /// the lease was given back.
    pub open spec fn succeeded(self) -> bool {
        self matches ActionOutcome::Ran { action: Ok(_), release: Ok(_) }
    }

    /// The exit code of a program that ran this one session: 0 if nothing
    /// failed, else 1.
    pub open spec fn exit_code_spec(self) -> i32 {
        if self.succeeded() {
            0
        } else {
            1
        }
    }

    /// Whether the guarded action ran.
    pub fn action_ran(&self) -> (ran: bool)
        ensures
            ran == (*self is Ran),
    {
        match self {
            ActionOutcome::NotRun { .. } => false,
            ActionOutcome::Ran { .. } => true,
        }
    }

    /// Whether the release of the lease was attempted. It is attempted exactly
    /// when the lease was granted, so exactly when the action ran.
    pub fn release_attempted(&self) -> (attempted: bool)
        ensures
            attempted == (*self is Ran),
    {
        match self {
            ActionOutcome::NotRun { .. } => false,
            ActionOutcome::Ran { .. } => true,
        }
    }

    /// Whether the lease was taken and given back.
    pub fn release_succeeded(&self) -> (released: bool)
        ensures
            released == (*self matches ActionOutcome::Ran { release: Ok(_), .. }),
    {
        match self {
            ActionOutcome::Ran { release: Ok(_), .. } => true,
            _ => false,
        }
    }

    /// Whether the session went through without any failure.
    pub fn is_success(&self) -> (ok: bool)
        ensures
            ok == self.succeeded(),
            ok == (self.failures_spec().len() == 0),
    {
        match self {
            ActionOutcome::Ran { action: Ok(_), release: Ok(_) } => true,
            _ => false,
        }
    }

    /// Every failure of the session, in the order in which they happened. A
    /// failed action and a failed release are both listed.
    pub fn failures(&self) -> (list: Vec<SessionError>)
        ensures
            list@ == self.failures_spec(),
    {
        let mut list: Vec<SessionError> = Vec::new();
        match self {
            ActionOutcome::NotRun { reason } => {
                list.push(SessionError::AcquisitionFailed(reason.clone()));
            },
            ActionOutcome::Ran { action, release } => {
                if let Err(reason) = action {
                    list.push(SessionError::ActionFailed(reason.clone()));
                }
                if let Err(reason) = release {
                    list.push(SessionError::ReleaseFailed(reason.clone()));
                }
            },
        }
        assert(list@ =~= self.failures_spec());
        list
    }

    /// The exit code for a program that ran this one session.
    pub fn exit_code(&self) -> (code: i32)
        ensures
            code == self.exit_code_spec(),
    {
        if self.is_success() {
            0
        } else {
            1
        }
    }
}

} // verus!
