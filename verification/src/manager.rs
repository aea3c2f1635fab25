//! The supervisor: the one engine that is current, and the operations on it.
//!
//! An operation is begun by the method of its name, which hands out the
//! first [`crate::action::Action`]. [`CoreManager::resume`] takes the
//! [`crate::action::Outcome`] of each action and hands out the next, until
//! the operation ends with [`crate::action::Action::Finish`].

use vstd::prelude::*;
use crate::action::{ActionView, CheckReportView, OutcomeView};
use crate::error::{CoreError, CoreErrorView, ErrorKind};
use crate::instance::{Instance, InstanceView};

use crate::run_type::RunType;
use crate::state::{CoreState, CoreType, ServiceStatus};

verus! {

/// How long a recovery that failed waits before the next, in milliseconds.
pub const RECOVER_BACKOFF_MS: u64 = 5000;

/// How long a push that failed waits before the next, in milliseconds.
pub const PUSH_SPACING_MS: u64 = 250;

/// How often a configuration is pushed at most.
pub const PUSH_ATTEMPTS: u8 = 5;

/// Where an operation stands: the action whose outcome is awaited.
#[derive(Clone, Copy, Debug, PartialEq, Eq, Structural)]
pub enum Phase {
    /// No operation is in flight.
    Idle,
    RunQuery,
    RunStop,
    RunPort,
    RunMode,
    RunLocate,
    RunStart,
    RecoverQuery,
    RecoverStop,
    RecoverSleep,
    StopStop,
    ChangeStage,
    ChangeGenerate,
    ChangeCheck,
    ChangeReject,
    ChangeClear,
    ChangeCommit,
    ChangeDiscard,
    UpdateGenerate,
    UpdateCheck,
    UpdateReject,
    UpdateLocate,
    UpdatePush,
    UpdateSleep,
}

/// What a run of the engine is part of.
#[derive(Clone, Copy, Debug, PartialEq, Eq, Structural)]
pub enum Goal {
    /// A run for its own sake.
    Run,
    /// A recovery: a run that fails is tried again after a wait.
    Recover,
    /// A change of variant: a run that fails is followed by a run under the
    /// settings as they were.
    Change,
    /// The run under the settings as they were, after a change that failed.
    Rollback,
}

/// The supervisor.
#[derive(Debug, PartialEq, Eq)]
pub struct CoreManager {
    /// The engine that is current, if any.
    pub instance: Option<Instance>,
    /// The engine that a recovery has taken out and is stopping.
    pub taken: Option<Instance>,
    pub phase: Phase,
    pub goal: Goal,
    /// The mode that the run in flight resolved.
    pub mode: RunType,
    /// The failure that the operation in flight ends with, once it has
    /// cleaned up.
    pub failure: Option<CoreError>,
    /// The number of the push in flight, from 1.
    pub attempt: u8,
    /// The configuration that is pushed.
    pub path: String,
    /// The number that the next child process gets.
    pub next_id: u64,
}

pub struct ManagerView {
    pub instance: Option<InstanceView>,
    pub taken: Option<InstanceView>,
    pub phase: Phase,
    pub goal: Goal,
    pub mode: RunType,
    pub failure: Option<CoreErrorView>,
    pub attempt: u8,
    pub path: Seq<char>,
    pub next_id: u64,
}

pub open spec fn instance_view(instance: Option<Instance>) -> Option<InstanceView> {
    match instance {
        Some(instance) => Some(instance@),
        None => None,
    }
}

impl View for CoreManager {
    type V = ManagerView;

    open spec fn view(&self) -> ManagerView {
        ManagerView {
            instance: instance_view(self.instance),
            taken: instance_view(self.taken),
            phase: self.phase,
            goal: self.goal,
            mode: self.mode,
            failure: crate::action::error_view(self.failure),
            attempt: self.attempt,
            path: self.path@,
            next_id: self.next_id,
        }
    }
}

/// The number after `id`; after the last one the count begins anew.
pub open spec fn id_after(id: u64) -> u64 {
    if id == u64::MAX {
        0
    } else {
        (id + 1) as u64
    }
}

/// The verdict on a check of the configuration. A check that could not be
/// run is a failure of the configuration's making; one that the engine
/// failed is a validation failure, with the extracted diagnostics for its
/// text, or the whole output where nothing was extracted.
pub open spec fn spec_check_config(report: Result<CheckReportView, Seq<char>>) -> Result<
    (),
    CoreErrorView,
> {
    match report {
        Err(why) => Err(CoreErrorView { kind: ErrorKind::ConfigFailure, message: why }),
        Ok(report) => if report.success {
            Ok(())
        } else {
            Err(
                CoreErrorView {
                    kind: ErrorKind::ValidationFailure,
                    message: if report.diagnostics.len() > 0 {
                        report.diagnostics
                    } else {
                        report.output
                    },
                },
            )
        },
    }
}

/// What of a check goes to the log: the output of the engine where it
/// refused the configuration.
pub open spec fn spec_rejected_output(report: Result<CheckReportView, Seq<char>>) -> Option<
    Seq<char>,
> {
    match report {
        Ok(report) => if report.success {
            None
        } else {
            Some(report.output)
        },
        Err(_) => None,
    }
}

pub open spec fn failure_of(kind: ErrorKind, outcome: Result<(), Seq<char>>) -> Result<
    (),
    CoreErrorView,
> {
    match outcome {
        Ok(()) => Ok(()),
        Err(why) => Err(CoreErrorView { kind, message: why }),
    }
}

impl ManagerView {
    /// The supervisor before anything was asked of it.
    pub open spec fn new() -> ManagerView {
        ManagerView {
            instance: None,
            taken: None,
            phase: Phase::Idle,
            goal: Goal::Run,
            mode: RunType::Normal,
            failure: None,
            attempt: 0,
            path: Seq::empty(),
            next_id: 0,
        }
    }

    /// The end of the operation in flight.
    pub open spec fn finish(self, result: Result<(), CoreErrorView>) -> (ManagerView, ActionView) {
        (
            ManagerView { phase: Phase::Idle, taken: None, failure: None, ..self },
            ActionView::finish(result),
        )
    }

    /// The end of the operation in flight with the failure that was kept.
    pub open spec fn finish_kept(self) -> (ManagerView, ActionView) {
        match self.failure {
            Some(e) => self.finish(Err(e)),
            None => self.finish(Ok(())),
        }
    }

    /// The refusal of an operation while another is in flight.
    pub open spec fn busy(self) -> (ManagerView, ActionView) {
        (
            self,
            ActionView::finish(
                Err(
                    CoreErrorView {
                        kind: ErrorKind::Busy,
                        message: "another operation is in flight"@,
                    },
                ),
            ),
        )
    }

    /// A run: where the current engine is the service's charge the service
    /// is asked first whether it runs.
    pub open spec fn begin_run(self, goal: Goal) -> (ManagerView, ActionView) {
        let m = ManagerView { goal, ..self };
        match m.instance {
            Some(InstanceView::Service { .. }) => (
                ManagerView { phase: Phase::RunQuery, ..m },
                ActionView::QueryService,
            ),
            _ => m.clear_the_way(None),
        }
    }

    /// The first step of a run: an engine that is current and runs is
    /// stopped; then the port is looked at.
    pub open spec fn clear_the_way(self, remote: Option<ServiceStatus>) -> (ManagerView, ActionView) {
        match self.instance {
            Some(instance) => if instance.state(remote) is Running {
                match instance.stop().1 {
                    Ok(request) => (
                        ManagerView {
                            instance: Some(instance.stop().0),
                            phase: Phase::RunStop,
                            ..self
                        },
                        ActionView::Stop(request),
                    ),
                    Err(e) => self.fail_run(e),
                }
            } else {
                (ManagerView { phase: Phase::RunPort, ..self }, ActionView::CheckPort)
            },
            None => (ManagerView { phase: Phase::RunPort, ..self }, ActionView::CheckPort),
        }
    }

    /// A run that failed.
    pub open spec fn fail_run(self, e: CoreErrorView) -> (ManagerView, ActionView) {
        match self.goal {
            Goal::Run => self.finish(Err(e)),
            Goal::Recover => (
                ManagerView { phase: Phase::RecoverSleep, ..self },
                ActionView::Sleep { millis: RECOVER_BACKOFF_MS, error: Some(e) },
            ),
            Goal::Change => (
                ManagerView { phase: Phase::ChangeDiscard, failure: Some(e), ..self },
                ActionView::DiscardSettings,
            ),
            Goal::Rollback => self.finish(Err(e)),
        }
    }

    /// A run that succeeded.
    pub open spec fn succeed_run(self) -> (ManagerView, ActionView) {
        match self.goal {
            Goal::Run => self.finish(Ok(())),
            Goal::Recover => self.finish(Ok(())),
            Goal::Change => (
                ManagerView { phase: Phase::ChangeCommit, ..self },
                ActionView::CommitSettings,
            ),
            Goal::Rollback => self.finish_kept(),
        }
    }

    /// The end of a run with this result.
    pub open spec fn end_run(self, result: Result<(), CoreErrorView>) -> (ManagerView, ActionView) {
        match result {
            Ok(()) => self.succeed_run(),
            Err(e) => self.fail_run(e),
        }
    }

    /// The stop of the current engine has ended.
    pub open spec fn after_stop(self, outcome: Result<(), Seq<char>>, now: i64) -> (
        ManagerView,
        ActionView,
    ) {
        match self.instance {
            Some(instance) => {
                let m = ManagerView { instance: Some(instance.stopped(outcome, now).0), ..self };
                match instance.stopped(outcome, now).1 {
                    Ok(()) => (ManagerView { phase: Phase::RunPort, ..m }, ActionView::CheckPort),
                    Err(e) => m.fail_run(e),
                }
            },
            None => (ManagerView { phase: Phase::RunPort, ..self }, ActionView::CheckPort),
        }
    }

    /// The environment was read: the new instance is built, made the
    /// current one in place of the one before, and started.
    pub open spec fn install(self, env: crate::locate::EnvironmentView, now: i64) -> (
        ManagerView,
        ActionView,
    ) {
        match InstanceView::try_new(self.mode, env, self.next_id, now) {
            Err(e) => self.fail_run(e),
            Ok(instance) => (
                ManagerView {
                    instance: Some(instance.start().0),
                    next_id: id_after(self.next_id),
                    phase: Phase::RunStart,
                    ..self
                },
                ActionView::Start(instance.start().1),
            ),
        }
    }

    /// The beginning of a recovery: the current engine is taken out, and
    /// stopped where it runs; then the engine is run anew.
    pub open spec fn begin_recover(self) -> (ManagerView, ActionView) {
        let m = ManagerView { instance: None, taken: self.instance, goal: Goal::Recover, ..self };
        match m.taken {
            Some(InstanceView::Service { .. }) => (
                ManagerView { phase: Phase::RecoverQuery, ..m },
                ActionView::QueryService,
            ),
            _ => m.stop_taken(None),
        }
    }

    /// The stop of the engine that a recovery took out, where it runs.
    pub open spec fn stop_taken(self, remote: Option<ServiceStatus>) -> (ManagerView, ActionView) {
        match self.taken {
            Some(instance) => if instance.state(remote) is Running {
                match instance.stop().1 {
                    Ok(request) => (
                        ManagerView {
                            taken: Some(instance.stop().0),
                            phase: Phase::RecoverStop,
                            ..self
                        },
                        ActionView::Stop(request),
                    ),
                    Err(e) => self.finish(Err(e)),
                }
            } else {
                ManagerView { taken: None, ..self }.begin_run(Goal::Recover)
            },
            None => self.begin_run(Goal::Recover),
        }
    }

    /// The stop of the engine that a recovery took out has ended.
    pub open spec fn after_taken_stop(self, outcome: Result<(), Seq<char>>, now: i64) -> (
        ManagerView,
        ActionView,
    ) {
        match self.taken {
            Some(instance) => match instance.stopped(outcome, now).1 {
                Ok(()) => ManagerView { taken: None, ..self }.begin_run(Goal::Recover),
                Err(e) => self.finish(Err(e)),
            },
            None => self.begin_run(Goal::Recover),
        }
    }

    /// The beginning of a stop of the current engine.
    pub open spec fn begin_stop(self) -> (ManagerView, ActionView) {
        match self.instance {
            None => self.finish(Ok(())),
            Some(instance) => match instance.stop().1 {
                Ok(request) => (
                    ManagerView {
                        instance: Some(instance.stop().0),
                        phase: Phase::StopStop,
                        ..self
                    },
                    ActionView::Stop(request),
                ),
                Err(e) => self.finish(Err(e)),
            },
        }
    }

    /// The stop of the current engine, asked for its own sake, has ended.
    pub open spec fn after_plain_stop(self, outcome: Result<(), Seq<char>>, now: i64) -> (
        ManagerView,
        ActionView,
    ) {
        match self.instance {
            Some(instance) => ManagerView {
                instance: Some(instance.stopped(outcome, now).0),
                ..self
            }.finish(instance.stopped(outcome, now).1),
            None => self.finish(Ok(())),
        }
    }

    /// The beginning of a change of variant.
    pub open spec fn begin_change(self, variant: Option<CoreType>) -> (ManagerView, ActionView) {
        match variant {
            None => self.finish(
                Err(
                    CoreErrorView {
                        kind: ErrorKind::MissingVariant,
                        message: "clash core is null"@,
                    },
                ),
            ),
            Some(variant) => (
                ManagerView { phase: Phase::ChangeStage, ..self },
                ActionView::StageVariant(variant),
            ),
        }
    }

    /// The check of the configuration has ended: on success `next` is
    /// asked; a configuration that the engine refused has the engine's
    /// output logged before the operation ends with the failure.
    pub open spec fn after_check(
        self,
        report: Result<CheckReportView, Seq<char>>,
        next: (Phase, ActionView),
        reject: Phase,
    ) -> (ManagerView, ActionView) {
        match spec_check_config(report) {
            Ok(()) => (ManagerView { phase: next.0, ..self }, next.1),
            Err(e) => match spec_rejected_output(report) {
                Some(text) => (
                    ManagerView { phase: reject, failure: Some(e), ..self },
                    ActionView::AppendLog { text },
                ),
                None => self.finish(Err(e)),
            },
        }
    }

    /// A push of the configuration has ended. One that failed is tried
    /// again after a wait, unless it was the last.
    pub open spec fn after_push(self, outcome: Result<(), Seq<char>>) -> (ManagerView, ActionView) {
        match outcome {
            Ok(()) => self.finish(Ok(())),
            Err(why) => if self.attempt < PUSH_ATTEMPTS {
                (
                    ManagerView { phase: Phase::UpdateSleep, ..self },
                    ActionView::Sleep {
                        millis: PUSH_SPACING_MS,
                        error: Some(CoreErrorView { kind: ErrorKind::PushFailure, message: why }),
                    },
                )
            } else {
                self.finish(Err(CoreErrorView { kind: ErrorKind::PushFailure, message: why }))
            },
        }
    }

    /// The answer to an outcome that answers no action in flight: the
    /// operation, if there is one, is given up.
    pub open spec fn out_of_turn(self) -> (ManagerView, ActionView) {
        self.finish(
            Err(
                CoreErrorView {
                    kind: ErrorKind::OutOfTurn,
                    message: "the outcome answers no action in flight"@,
                },
            ),
        )
    }

    /// The next action after the outcome of the last.
    pub open spec fn resume(self, outcome: OutcomeView, now: i64) -> (ManagerView, ActionView) {
        match (self.phase, outcome) {
            (Phase::RunQuery, OutcomeView::Status(remote)) => self.clear_the_way(remote),
            (Phase::RunStop, OutcomeView::Done(outcome)) => self.after_stop(outcome, now),
            (Phase::RunPort, OutcomeView::Done(outcome)) => match outcome {
                Ok(()) => (ManagerView { phase: Phase::RunMode, ..self }, ActionView::ResolveMode),
                Err(why) => self.fail_run(
                    CoreErrorView { kind: ErrorKind::PortUnavailable, message: why },
                ),
            },
            (Phase::RunMode, OutcomeView::Mode { enable_service_mode, service_connected }) => (
                ManagerView {
                    phase: Phase::RunLocate,
                    mode: RunType::spec_resolve(enable_service_mode, service_connected),
                    ..self
                },
                ActionView::Locate,
            ),
            (Phase::RunLocate, OutcomeView::Environment(env)) => self.install(env, now),
            (Phase::RunStart, OutcomeView::Started(result)) => self.end_run(result),
            (Phase::RunStart, OutcomeView::Done(outcome)) => self.end_run(
                InstanceView::started(outcome),
            ),
            (Phase::RecoverQuery, OutcomeView::Status(remote)) => self.stop_taken(remote),
            (Phase::RecoverStop, OutcomeView::Done(outcome)) => self.after_taken_stop(outcome, now),
            (Phase::RecoverSleep, OutcomeView::Elapsed) => (
                self.finish(Ok(())).0,
                ActionView::Finish { result: Ok(()), recover_again: true },
            ),
            (Phase::StopStop, OutcomeView::Done(outcome)) => self.after_plain_stop(outcome, now),
            (Phase::ChangeStage, OutcomeView::Done(_)) => (
                ManagerView { phase: Phase::ChangeGenerate, ..self },
                ActionView::GenerateConfig,
            ),
            (Phase::ChangeGenerate, OutcomeView::Done(outcome)) => match outcome {
                Ok(()) => (
                    ManagerView { phase: Phase::ChangeCheck, ..self },
                    ActionView::CheckConfig,
                ),
                Err(why) => self.finish(
                    Err(CoreErrorView { kind: ErrorKind::ConfigFailure, message: why }),
                ),
            },
            (Phase::ChangeCheck, OutcomeView::Checked(report)) => self.after_check(
                report,
                (Phase::ChangeClear, ActionView::ClearLogs),
                Phase::ChangeReject,
            ),
            (Phase::ChangeReject, OutcomeView::Done(_)) => self.finish_kept(),
            (Phase::ChangeClear, OutcomeView::Done(_)) => self.begin_run(Goal::Change),
            (Phase::ChangeCommit, OutcomeView::Done(_)) => self.finish(Ok(())),
            (Phase::ChangeDiscard, OutcomeView::Done(_)) => self.begin_run(Goal::Rollback),
            (Phase::UpdateGenerate, OutcomeView::Done(outcome)) => match outcome {
                Ok(()) => (
                    ManagerView { phase: Phase::UpdateCheck, ..self },
                    ActionView::CheckConfig,
                ),
                Err(why) => self.finish(
                    Err(CoreErrorView { kind: ErrorKind::ConfigFailure, message: why }),
                ),
            },
            (Phase::UpdateCheck, OutcomeView::Checked(report)) => self.after_check(
                report,
                (Phase::UpdateLocate, ActionView::LocateRunConfig),
                Phase::UpdateReject,
            ),
            (Phase::UpdateReject, OutcomeView::Done(_)) => self.finish_kept(),
            (Phase::UpdateLocate, OutcomeView::Path(path)) => match path {
                Ok(path) => (
                    ManagerView { phase: Phase::UpdatePush, attempt: 1, path, ..self },
                    ActionView::PushConfig { path },
                ),
                Err(why) => self.finish(
                    Err(CoreErrorView { kind: ErrorKind::ConfigFailure, message: why }),
                ),
            },
            (Phase::UpdatePush, OutcomeView::Done(outcome)) => self.after_push(outcome),
            (Phase::UpdateSleep, OutcomeView::Elapsed) => (
                ManagerView {
                    phase: Phase::UpdatePush,
                    attempt: if self.attempt < PUSH_ATTEMPTS {
                        (self.attempt + 1) as u8
                    } else {
                        self.attempt
                    },
                    ..self
                },
                ActionView::PushConfig { path: self.path },
            ),
            _ => self.out_of_turn(),
        }
    }

    /// The beginning of an operation, unless another is in flight.
    pub open spec fn unless_busy(self, begun: (ManagerView, ActionView)) -> (ManagerView, ActionView) {
        if self.phase == Phase::Idle {
            begun
        } else {
            self.busy()
        }
    }

    pub open spec fn run_core(self) -> (ManagerView, ActionView) {
        self.unless_busy(self.begin_run(Goal::Run))
    }

    pub open spec fn recover_core(self) -> (ManagerView, ActionView) {
        self.unless_busy(self.begin_recover())
    }

    pub open spec fn stop_core(self) -> (ManagerView, ActionView) {
        self.unless_busy(self.begin_stop())
    }

    pub open spec fn change_core(self, variant: Option<CoreType>) -> (ManagerView, ActionView) {
        self.unless_busy(self.begin_change(variant))
    }

    pub open spec fn update_config(self) -> (ManagerView, ActionView) {
        self.unless_busy(
            (ManagerView { phase: Phase::UpdateGenerate, ..self }, ActionView::GenerateConfig),
        )
    }

    /// The state of the current engine, the time of its last change, and
    /// its mode. Without an engine: stopped, at time 0, in the mode that a
    /// start would resolve now.
    pub open spec fn status(
        self,
        remote: Option<ServiceStatus>,
        enable_service_mode: Option<bool>,
        service_connected: bool,
    ) -> (CoreState, i64, RunType) {
        match self.instance {
            Some(instance) => (
                instance.status(remote).0,
                instance.status(remote).1,
                instance.run_type(),
            ),
            None => (
                CoreState::Stopped(None),
                0i64,
                RunType::spec_resolve(enable_service_mode, service_connected),
            ),
        }
    }
}

} // verus!
