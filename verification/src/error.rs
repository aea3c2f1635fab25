//! The errors that the supervisor reports.

use vstd::prelude::*;

verus! {

/// What went wrong.
#[derive(Clone, Copy, Debug, PartialEq, Eq, Structural)]
pub enum ErrorKind {
    /// The engine's executable, or a directory that it is looked up in, is missing.
    NotFound,
    /// A stop was asked of an engine that is not running.
    AlreadyStopped,
    /// The engine's process could not be launched.
    SpawnFailure,
    /// The engine ended with a failure status.
    AbnormalTermination,
    /// The engine refused the candidate configuration.
    ValidationFailure,
    /// A call to the privileged service failed.
    RemoteCallFailure,
    /// The control port is taken.
    PortUnavailable,
    /// The execution mode is reserved and has no behaviour yet.
    NotImplemented,
    /// A change of engine variant named no variant.
    MissingVariant,
    /// The configuration could not be generated or located.
    ConfigFailure,
    /// The engine's process could not be terminated.
    TerminationFailure,
    /// The running engine did not accept the pushed configuration.
    PushFailure,
    /// An operation was begun while another was in flight.
    Busy,
    /// Something was reported that answers no action in flight.
    OutOfTurn,
}

/// An error: its kind, and the text that goes with it.
#[derive(Debug, PartialEq, Eq)]
pub struct CoreError {
    pub kind: ErrorKind,
    pub message: String,
}

/// The mathematical value of a [`CoreError`].
pub struct CoreErrorView {
    pub kind: ErrorKind,
    pub message: Seq<char>,
}

impl View for CoreError {
    type V = CoreErrorView;

    open spec fn view(&self) -> CoreErrorView {
        CoreErrorView { kind: self.kind, message: self.message@ }
    }
}

impl Clone for CoreError {
    fn clone(&self) -> (copy: Self)
        ensures
            copy@ == self@,
    {
        CoreError { kind: self.kind, message: self.message.clone() }
    }
}

impl CoreError {
    /// An error of the given kind with the given text.
    pub fn new(kind: ErrorKind, message: String) -> (error: Self)
        ensures
            error@ == (CoreErrorView { kind, message: message@ }),
    {
        CoreError { kind, message }
    }

    /// The error's text.
    pub fn to_string(&self) -> (text: String)
        ensures
            text@ == self@.message,
    {
        self.message.clone()
    }
}

/// The view of a result whose error is a [`CoreError`].
pub open spec fn result_view(r: Result<(), CoreError>) -> Result<(), CoreErrorView> {
    match r {
        Ok(()) => Ok(()),
        Err(e) => Err(e@),
    }
}

} // verus!
