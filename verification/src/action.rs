//! The dialogue between the supervisor and the program around it: what the
//! supervisor asks for, and what is reported back.

use vstd::prelude::*;
use crate::error::{result_view, CoreError, CoreErrorView};
use crate::lifecycle::{StartRequest, StartRequestView, StopRequest};
use crate::locate::{text_result, Environment, EnvironmentView};
use crate::state::{CoreType, ServiceStatus};

verus! {

/// What a run of the engine in its check mode gave.
#[derive(Debug, PartialEq, Eq)]
pub struct CheckReport {
    /// Whether the engine exited with success.
    pub success: bool,
    /// What the engine printed.
    pub output: String,
    /// The diagnostics that were extracted from the output; empty where
    /// the extraction found nothing.
    pub diagnostics: String,
}

pub struct CheckReportView {
    pub success: bool,
    pub output: Seq<char>,
    pub diagnostics: Seq<char>,
}

impl View for CheckReport {
    type V = CheckReportView;

    open spec fn view(&self) -> CheckReportView {
        CheckReportView {
            success: self.success,
            output: self.output@,
            diagnostics: self.diagnostics@,
        }
    }
}

pub open spec fn report_result(r: Result<CheckReport, String>) -> Result<CheckReportView, Seq<char>> {
    match r {
        Ok(report) => Ok(report@),
        Err(why) => Err(why@),
    }
}

/// One thing that the supervisor asks of the program around it. Each is
/// answered with an [`Outcome`], but for the last.
#[derive(Debug, PartialEq, Eq)]
pub enum Action {
    /// Ask the service for the engine's status.
    QueryService,
    /// Terminate the process, or ask the service to stop the engine.
    Stop(StopRequest),
    /// See that the control port is free.
    CheckPort,
    /// Read the setting of the service mode and probe the service.
    ResolveMode,
    /// Read the settings and look for the engine's files.
    Locate,
    /// Launch the process, or ask the service to start the engine.
    Start(StartRequest),
    /// Wait; `error`, where there is one, is what the wait follows on.
    Sleep { millis: u64, error: Option<CoreError> },
    /// Generate the configuration anew.
    GenerateConfig,
    /// Run the engine in its check mode on the candidate configuration.
    CheckConfig,
    /// Append a text to the log.
    AppendLog { text: String },
    /// Clear the log.
    ClearLogs,
    /// Stage a variant in the settings.
    StageVariant(CoreType),
    /// Make the staged settings the settings, and save them.
    CommitSettings,
    /// Drop the staged settings.
    DiscardSettings,
    /// Say where the configuration to run is.
    LocateRunConfig,
    /// Push the configuration at this path to the running engine.
    PushConfig { path: String },
    /// The operation is over, with this result. Where `recover_again` is
    /// set, a recovery is to be begun anew, apart from this one.
    Finish { result: Result<(), CoreError>, recover_again: bool },
}

pub enum ActionView {
    QueryService,
    Stop(StopRequest),
    CheckPort,
    ResolveMode,
    Locate,
    Start(StartRequestView),
    Sleep { millis: u64, error: Option<CoreErrorView> },
    GenerateConfig,
    CheckConfig,
    AppendLog { text: Seq<char> },
    ClearLogs,
    StageVariant(CoreType),
    CommitSettings,
    DiscardSettings,
    LocateRunConfig,
    PushConfig { path: Seq<char> },
    Finish { result: Result<(), CoreErrorView>, recover_again: bool },
}

pub open spec fn error_view(e: Option<CoreError>) -> Option<CoreErrorView> {
    match e {
        Some(e) => Some(e@),
        None => None,
    }
}

impl View for Action {
    type V = ActionView;

    open spec fn view(&self) -> ActionView {
        match self {
            Action::QueryService => ActionView::QueryService,
            Action::Stop(request) => ActionView::Stop(*request),
            Action::CheckPort => ActionView::CheckPort,
            Action::ResolveMode => ActionView::ResolveMode,
            Action::Locate => ActionView::Locate,
            Action::Start(request) => ActionView::Start(request@),
            Action::Sleep { millis, error } => ActionView::Sleep {
                millis: *millis,
                error: error_view(*error),
            },
            Action::GenerateConfig => ActionView::GenerateConfig,
            Action::CheckConfig => ActionView::CheckConfig,
            Action::AppendLog { text } => ActionView::AppendLog { text: text@ },
            Action::ClearLogs => ActionView::ClearLogs,
            Action::StageVariant(variant) => ActionView::StageVariant(*variant),
            Action::CommitSettings => ActionView::CommitSettings,
            Action::DiscardSettings => ActionView::DiscardSettings,
            Action::LocateRunConfig => ActionView::LocateRunConfig,
            Action::PushConfig { path } => ActionView::PushConfig { path: path@ },
            Action::Finish { result, recover_again } => ActionView::Finish {
                result: result_view(*result),
                recover_again: *recover_again,
            },
        }
    }
}

impl ActionView {
    /// The end of an operation with this result.
    pub open spec fn finish(result: Result<(), CoreErrorView>) -> ActionView {
        ActionView::Finish { result, recover_again: false }
    }
}

/// What is reported back for an action.
#[derive(Debug, PartialEq, Eq)]
pub enum Outcome {
    /// The action was carried out, or failed for the reason given.
    Done(Result<(), String>),
    /// The service's answer to the question for the status, if it gave one.
    Status(Option<ServiceStatus>),
    /// The setting of the service mode, and whether the service answers.
    Mode { enable_service_mode: Option<bool>, service_connected: bool },
    /// What was read and found for the launch.
    Environment(Environment),
    /// The answer that the launched process gave to the start.
    Started(Result<(), CoreError>),
    /// What the check of the configuration gave, or why it could not be run.
    Checked(Result<CheckReport, String>),
    /// A path, or the reason why there is none.
    Path(Result<String, String>),
    /// The wait is over.
    Elapsed,
}

pub enum OutcomeView {
    Done(Result<(), Seq<char>>),
    Status(Option<ServiceStatus>),
    Mode { enable_service_mode: Option<bool>, service_connected: bool },
    Environment(EnvironmentView),
    Started(Result<(), CoreErrorView>),
    Checked(Result<CheckReportView, Seq<char>>),
    Path(Result<Seq<char>, Seq<char>>),
    Elapsed,
}

impl View for Outcome {
    type V = OutcomeView;

    open spec fn view(&self) -> OutcomeView {
        match self {
            Outcome::Done(r) => OutcomeView::Done(crate::drain::text_outcome(*r)),
            Outcome::Status(status) => OutcomeView::Status(*status),
            Outcome::Mode { enable_service_mode, service_connected } => OutcomeView::Mode {
                enable_service_mode: *enable_service_mode,
                service_connected: *service_connected,
            },
            Outcome::Environment(env) => OutcomeView::Environment(env@),
            Outcome::Started(r) => OutcomeView::Started(result_view(*r)),
            Outcome::Checked(r) => OutcomeView::Checked(report_result(*r)),
            Outcome::Path(r) => OutcomeView::Path(text_result(*r)),
            Outcome::Elapsed => OutcomeView::Elapsed,
        }
    }
}

} // verus!
