//! What a child process reports while it runs, and what the supervisor makes
//! of each report.

use vstd::prelude::*;
use crate::error::{result_view, CoreError, CoreErrorView};

verus! {

/// How a process ended.
#[derive(Clone, Copy, Debug, PartialEq, Eq)]
pub struct ExitStatus {
    pub code: Option<i32>,
    pub signal: Option<i32>,
}

impl ExitStatus {
    /// An end that was asked for: exit code zero, on one of the two signals
    /// by which a process is told to end. Every other end is a failure.
    pub open spec fn spec_is_graceful(self) -> bool {
        self.code == Some(0i32) && (self.signal == Some(9i32) || self.signal == Some(15i32))
    }

    pub fn is_graceful(&self) -> (graceful: bool)
        ensures
            graceful == self.spec_is_graceful(),
    {
        let zero = match self.code {
            Some(code) => code == 0,
            None => false,
        };
        let expected = match self.signal {
            Some(signal) => signal == 9 || signal == 15,
            None => false,
        };
        zero && expected
    }
}

/// One report of a child process.
#[derive(Debug, PartialEq, Eq)]
pub enum CommandEvent {
    /// A line of standard output.
    Stdout(String),
    /// A line of standard error.
    Stderr(String),
    /// The process could not be run; the text says why.
    Error(String),
    /// The process has ended. `detail` is the status in words.
    Terminated { status: ExitStatus, detail: String },
    /// The process has been up for as long as a start is watched.
    DelayCheckpointPass,
}

pub enum CommandEventView {
    Stdout(Seq<char>),
    Stderr(Seq<char>),
    Error(Seq<char>),
    Terminated { status: ExitStatus, detail: Seq<char> },
    DelayCheckpointPass,
}

impl View for CommandEvent {
    type V = CommandEventView;

    open spec fn view(&self) -> CommandEventView {
        match self {
            CommandEvent::Stdout(line) => CommandEventView::Stdout(line@),
            CommandEvent::Stderr(line) => CommandEventView::Stderr(line@),
            CommandEvent::Error(why) => CommandEventView::Error(why@),
            CommandEvent::Terminated { status, detail } => CommandEventView::Terminated {
                status: *status,
                detail: detail@,
            },
            CommandEvent::DelayCheckpointPass => CommandEventView::DelayCheckpointPass,
        }
    }
}

/// A line for the log, and whether a severity level is to be extracted from
/// it before it is forwarded.
#[derive(Debug, PartialEq, Eq)]
pub struct LogLine {
    pub text: String,
    pub extract_level: bool,
}

pub struct LogLineView {
    pub text: Seq<char>,
    pub extract_level: bool,
}

impl View for LogLine {
    type V = LogLineView;

    open spec fn view(&self) -> LogLineView {
        LogLineView { text: self.text@, extract_level: self.extract_level }
    }
}

/// What follows from one report.
#[derive(Debug, PartialEq, Eq)]
pub struct DrainStep {
    /// The line that goes to the log, if any.
    pub log: Option<LogLine>,
    /// The answer that the caller of the start is waiting for, if this
    /// report settles it.
    pub reply: Option<Result<(), CoreError>>,
    /// Whether the engine is to be recovered.
    pub recover: bool,
    /// Whether the reading of the output ends here.
    pub finished: bool,
}

pub struct DrainStepView {
    pub log: Option<LogLineView>,
    pub reply: Option<Result<(), CoreErrorView>>,
    pub recover: bool,
    pub finished: bool,
}

impl View for DrainStep {
    type V = DrainStepView;

    open spec fn view(&self) -> DrainStepView {
        DrainStepView {
            log: match self.log {
                Some(line) => Some(line@),
                None => None,
            },
            reply: match self.reply {
                Some(r) => Some(result_view(r)),
                None => None,
            },
            recover: self.recover,
            finished: self.finished,
        }
    }
}

impl DrainStepView {
    /// The step in which nothing happens.
    pub open spec fn idle() -> DrainStepView {
        DrainStepView { log: None, reply: None, recover: false, finished: false }
    }
}

} // verus!
