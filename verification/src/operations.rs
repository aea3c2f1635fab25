//! The supervisor at work: the operations of [`CoreManager`], each proved to
//! take the steps that the model of the supervisor prescribes.

use vstd::prelude::*;
use vstd::string::StringExecFns;
use crate::action::{report_result, Action, ActionView, CheckReport, Outcome};
use crate::drain::text_outcome;
use crate::error::{result_view, CoreError, ErrorKind};
use crate::instance::Instance;
use crate::locate::Environment;
use crate::manager::{
    failure_of, spec_check_config, spec_rejected_output, CoreManager, Goal, ManagerView, Phase, PUSH_ATTEMPTS,
    PUSH_SPACING_MS, RECOVER_BACKOFF_MS,
};
use crate::run_type::RunType;
use crate::state::{CoreState, CoreType, ServiceStatus};

verus! {

/// The result of an action that has nothing to report but how it went, as
/// a failure of the given kind.
fn failed_as(kind: ErrorKind, outcome: Result<(), String>) -> (result: Result<(), CoreError>)
    ensures
        result_view(result) == failure_of(kind, text_outcome(outcome)),
{
    match outcome {
        Ok(()) => Ok(()),
        Err(why) => Err(CoreError::new(kind, why)),
    }
}

impl CoreManager {
    /// The supervisor without an engine, and with nothing in flight.
    pub fn new() -> (manager: Self)
        ensures
            manager@ == ManagerView::new(),
    {
        CoreManager {
            instance: None,
            taken: None,
            phase: Phase::Idle,
            goal: Goal::Run,
            mode: RunType::Normal,
            failure: None,
            attempt: 0,
            path: String::new(),
            next_id: 0,
        }
    }

    /// Judges a check of the configuration.
    pub fn check_config(report: &Result<CheckReport, String>) -> (verdict: Result<(), CoreError>)
        ensures
            result_view(verdict) == spec_check_config(report_result(*report)),
    {
        match report {
            Err(why) => Err(CoreError::new(ErrorKind::ConfigFailure, why.clone())),
            Ok(report) => {
                if report.success {
                    Ok(())
                } else if report.diagnostics.as_str().is_empty() {
                    Err(CoreError::new(ErrorKind::ValidationFailure, report.output.clone()))
                } else {
                    Err(CoreError::new(ErrorKind::ValidationFailure, report.diagnostics.clone()))
                }
            },
        }
    }

    /// Says what of a check goes to the log.
    pub fn rejected_output(report: &Result<CheckReport, String>) -> (text: Option<String>)
        ensures
            crate::text::text_option(text) == spec_rejected_output(report_result(*report)),
    {
        match report {
            Ok(report) => if report.success {
                None
            } else {
                Some(report.output.clone())
            },
            Err(_) => None,
        }
    }

    fn finish(&mut self, result: Result<(), CoreError>) -> (action: Action)
        ensures
            (final(self)@, action@) == old(self)@.finish(result_view(result)),
    {
        self.phase = Phase::Idle;
        self.taken = None;
        self.failure = None;
        Action::Finish { result, recover_again: false }
    }

    fn finish_kept(&mut self) -> (action: Action)
        ensures
            (final(self)@, action@) == old(self)@.finish_kept(),
    {
        match self.failure.take() {
            Some(e) => self.finish(Err(e)),
            None => self.finish(Ok(())),
        }
    }

    fn busy(&self) -> (action: Action)
        ensures
            (self@, action@) == self@.busy(),
    {
        Action::Finish {
            result: Err(
                CoreError::new(ErrorKind::Busy, String::from_str("another operation is in flight")),
            ),
            recover_again: false,
        }
    }

    fn out_of_turn(&mut self) -> (action: Action)
        ensures
            (final(self)@, action@) == old(self)@.out_of_turn(),
    {
        self.finish(
            Err(
                CoreError::new(
                    ErrorKind::OutOfTurn,
                    String::from_str("the outcome answers no action in flight"),
                ),
            ),
        )
    }

    fn fail_run(&mut self, e: CoreError) -> (action: Action)
        ensures
            (final(self)@, action@) == old(self)@.fail_run(e@),
    {
        match self.goal {
            Goal::Run => self.finish(Err(e)),
            Goal::Recover => {
                self.phase = Phase::RecoverSleep;
                Action::Sleep { millis: RECOVER_BACKOFF_MS, error: Some(e) }
            },
            Goal::Change => {
                self.phase = Phase::ChangeDiscard;
                self.failure = Some(e);
                Action::DiscardSettings
            },
            Goal::Rollback => self.finish(Err(e)),
        }
    }

    fn succeed_run(&mut self) -> (action: Action)
        ensures
            (final(self)@, action@) == old(self)@.succeed_run(),
    {
        match self.goal {
            Goal::Run => self.finish(Ok(())),
            Goal::Recover => self.finish(Ok(())),
            Goal::Change => {
                self.phase = Phase::ChangeCommit;
                Action::CommitSettings
            },
            Goal::Rollback => self.finish_kept(),
        }
    }

    fn end_run(&mut self, result: Result<(), CoreError>) -> (action: Action)
        ensures
            (final(self)@, action@) == old(self)@.end_run(result_view(result)),
    {
        match result {
            Ok(()) => self.succeed_run(),
            Err(e) => self.fail_run(e),
        }
    }

    fn check_port(&mut self) -> (action: Action)
        ensures
            final(self)@ == (ManagerView { phase: Phase::RunPort, ..old(self)@ }),
            action@ == ActionView::CheckPort,
    {
        self.phase = Phase::RunPort;
        Action::CheckPort
    }

    fn clear_the_way(&mut self, remote: &Option<ServiceStatus>) -> (action: Action)
        ensures
            (final(self)@, action@) == old(self)@.clear_the_way(*remote),
    {
        match self.instance.take() {
            Some(mut instance) => {
                if instance.state(remote).is_running() {
                    let request = instance.stop();
                    self.instance = Some(instance);
                    match request {
                        Ok(request) => {
                            self.phase = Phase::RunStop;
                            Action::Stop(request)
                        },
                        Err(e) => self.fail_run(e),
                    }
                } else {
                    self.instance = Some(instance);
                    self.check_port()
                }
            },
            None => self.check_port(),
        }
    }

    fn begin_run(&mut self, goal: Goal) -> (action: Action)
        ensures
            (final(self)@, action@) == old(self)@.begin_run(goal),
    {
        self.goal = goal;
        let remote = match &self.instance {
            Some(Instance::Service { .. }) => true,
            _ => false,
        };
        if remote {
            self.phase = Phase::RunQuery;
            Action::QueryService
        } else {
            self.clear_the_way(&None)
        }
    }

    fn after_stop(&mut self, outcome: Result<(), String>, now: i64) -> (action: Action)
        ensures
            (final(self)@, action@) == old(self)@.after_stop(text_outcome(outcome), now),
    {
        match self.instance.take() {
            Some(mut instance) => {
                let result = instance.stopped(outcome, now);
                self.instance = Some(instance);
                match result {
                    Ok(()) => self.check_port(),
                    Err(e) => self.fail_run(e),
                }
            },
            None => self.check_port(),
        }
    }

    fn install(&mut self, env: &Environment, now: i64) -> (action: Action)
        ensures
            (final(self)@, action@) == old(self)@.install(env@, now),
    {
        match Instance::try_new(self.mode, env, self.next_id, now) {
            Err(e) => self.fail_run(e),
            Ok(mut instance) => {
                let request = instance.start();
                self.instance = Some(instance);
                self.next_id = if self.next_id == u64::MAX {
                    0
                } else {
                    self.next_id + 1
                };
                self.phase = Phase::RunStart;
                Action::Start(request)
            },
        }
    }

    fn stop_taken(&mut self, remote: &Option<ServiceStatus>) -> (action: Action)
        ensures
            (final(self)@, action@) == old(self)@.stop_taken(*remote),
    {
        match self.taken.take() {
            Some(mut instance) => {
                if instance.state(remote).is_running() {
                    let request = instance.stop();
                    self.taken = Some(instance);
                    match request {
                        Ok(request) => {
                            self.phase = Phase::RecoverStop;
                            Action::Stop(request)
                        },
                        Err(e) => self.finish(Err(e)),
                    }
                } else {
                    self.begin_run(Goal::Recover)
                }
            },
            None => self.begin_run(Goal::Recover),
        }
    }

    fn begin_recover(&mut self) -> (action: Action)
        ensures
            (final(self)@, action@) == old(self)@.begin_recover(),
    {
        self.taken = self.instance.take();
        self.goal = Goal::Recover;
        let remote = match &self.taken {
            Some(Instance::Service { .. }) => true,
            _ => false,
        };
        if remote {
            self.phase = Phase::RecoverQuery;
            Action::QueryService
        } else {
            self.stop_taken(&None)
        }
    }

    fn after_taken_stop(&mut self, outcome: Result<(), String>, now: i64) -> (action: Action)
        ensures
            (final(self)@, action@) == old(self)@.after_taken_stop(text_outcome(outcome), now),
    {
        match self.taken.take() {
            Some(mut instance) => {
                let result = instance.stopped(outcome, now);
                match result {
                    Ok(()) => self.begin_run(Goal::Recover),
                    Err(e) => self.finish(Err(e)),
                }
            },
            None => self.begin_run(Goal::Recover),
        }
    }

    fn begin_stop(&mut self) -> (action: Action)
        ensures
            (final(self)@, action@) == old(self)@.begin_stop(),
    {
        match self.instance.take() {
            None => self.finish(Ok(())),
            Some(mut instance) => {
                let request = instance.stop();
                self.instance = Some(instance);
                match request {
                    Ok(request) => {
                        self.phase = Phase::StopStop;
                        Action::Stop(request)
                    },
                    Err(e) => self.finish(Err(e)),
                }
            },
        }
    }

    fn after_plain_stop(&mut self, outcome: Result<(), String>, now: i64) -> (action: Action)
        ensures
            (final(self)@, action@) == old(self)@.after_plain_stop(text_outcome(outcome), now),
    {
        match self.instance.take() {
            Some(mut instance) => {
                let result = instance.stopped(outcome, now);
                self.instance = Some(instance);
                self.finish(result)
            },
            None => self.finish(Ok(())),
        }
    }

    fn begin_change(&mut self, variant: Option<CoreType>) -> (action: Action)
        ensures
            (final(self)@, action@) == old(self)@.begin_change(variant),
    {
        match variant {
            None => self.finish(
                Err(CoreError::new(ErrorKind::MissingVariant, String::from_str("clash core is null"))),
            ),
            Some(variant) => {
                self.phase = Phase::ChangeStage;
                Action::StageVariant(variant)
            },
        }
    }

    fn after_check(
        &mut self,
        report: Result<CheckReport, String>,
        next: (Phase, Action),
        reject: Phase,
    ) -> (action: Action)
        ensures
            (final(self)@, action@) == old(self)@.after_check(
                report_result(report),
                (next.0, next.1@),
                reject,
            ),
    {
        match Self::check_config(&report) {
            Ok(()) => {
                self.phase = next.0;
                next.1
            },
            Err(e) => match Self::rejected_output(&report) {
                Some(text) => {
                    self.phase = reject;
                    self.failure = Some(e);
                    Action::AppendLog { text }
                },
                None => self.finish(Err(e)),
            },
        }
    }

    fn after_push(&mut self, outcome: Result<(), String>) -> (action: Action)
        ensures
            (final(self)@, action@) == old(self)@.after_push(text_outcome(outcome)),
    {
        match outcome {
            Ok(()) => self.finish(Ok(())),
            Err(why) => {
                let e = CoreError::new(ErrorKind::PushFailure, why);
                if self.attempt < PUSH_ATTEMPTS {
                    self.phase = Phase::UpdateSleep;
                    Action::Sleep { millis: PUSH_SPACING_MS, error: Some(e) }
                } else {
                    self.finish(Err(e))
                }
            },
        }
    }

    /// Takes the outcome of the action that was handed out last, and hands
    /// out the next. `now` is the time of the call. An outcome that answers
    /// no action in flight ends the operation with a failure.
    pub fn resume(&mut self, outcome: Outcome, now: i64) -> (action: Action)
        ensures
            (final(self)@, action@) == old(self)@.resume(outcome@, now),
    {
        match self.phase {
            Phase::Idle => self.out_of_turn(),
            Phase::RunQuery => match outcome {
                Outcome::Status(remote) => self.clear_the_way(&remote),
                _ => self.out_of_turn(),
            },
            Phase::RunStop => match outcome {
                Outcome::Done(outcome) => self.after_stop(outcome, now),
                _ => self.out_of_turn(),
            },
            Phase::RunPort => match outcome {
                Outcome::Done(Ok(())) => {
                    self.phase = Phase::RunMode;
                    Action::ResolveMode
                },
                Outcome::Done(Err(why)) => self.fail_run(
                    CoreError::new(ErrorKind::PortUnavailable, why),
                ),
                _ => self.out_of_turn(),
            },
            Phase::RunMode => match outcome {
                Outcome::Mode { enable_service_mode, service_connected } => {
                    self.mode = RunType::resolve(enable_service_mode, service_connected);
                    self.phase = Phase::RunLocate;
                    Action::Locate
                },
                _ => self.out_of_turn(),
            },
            Phase::RunLocate => match outcome {
                Outcome::Environment(env) => self.install(&env, now),
                _ => self.out_of_turn(),
            },
            Phase::RunStart => match outcome {
                Outcome::Started(result) => self.end_run(result),
                Outcome::Done(outcome) => self.end_run(Instance::started(outcome)),
                _ => self.out_of_turn(),
            },
            Phase::RecoverQuery => match outcome {
                Outcome::Status(remote) => self.stop_taken(&remote),
                _ => self.out_of_turn(),
            },
            Phase::RecoverStop => match outcome {
                Outcome::Done(outcome) => self.after_taken_stop(outcome, now),
                _ => self.out_of_turn(),
            },
            Phase::RecoverSleep => match outcome {
                Outcome::Elapsed => {
                    let _ = self.finish(Ok(()));
                    Action::Finish { result: Ok(()), recover_again: true }
                },
                _ => self.out_of_turn(),
            },
            Phase::StopStop => match outcome {
                Outcome::Done(outcome) => self.after_plain_stop(outcome, now),
                _ => self.out_of_turn(),
            },
            Phase::ChangeStage => match outcome {
                Outcome::Done(_) => {
                    self.phase = Phase::ChangeGenerate;
                    Action::GenerateConfig
                },
                _ => self.out_of_turn(),
            },
            Phase::ChangeGenerate => match outcome {
                Outcome::Done(Ok(())) => {
                    self.phase = Phase::ChangeCheck;
                    Action::CheckConfig
                },
                Outcome::Done(Err(why)) => self.finish(
                    Err(CoreError::new(ErrorKind::ConfigFailure, why)),
                ),
                _ => self.out_of_turn(),
            },
            Phase::ChangeCheck => match outcome {
                Outcome::Checked(report) => self.after_check(
                    report,
                    (Phase::ChangeClear, Action::ClearLogs),
                    Phase::ChangeReject,
                ),
                _ => self.out_of_turn(),
            },
            Phase::ChangeReject => match outcome {
                Outcome::Done(_) => self.finish_kept(),
                _ => self.out_of_turn(),
            },
            Phase::ChangeClear => match outcome {
                Outcome::Done(_) => self.begin_run(Goal::Change),
                _ => self.out_of_turn(),
            },
            Phase::ChangeCommit => match outcome {
                Outcome::Done(_) => self.finish(Ok(())),
                _ => self.out_of_turn(),
            },
            Phase::ChangeDiscard => match outcome {
                Outcome::Done(_) => self.begin_run(Goal::Rollback),
                _ => self.out_of_turn(),
            },
            Phase::UpdateGenerate => match outcome {
                Outcome::Done(Ok(())) => {
                    self.phase = Phase::UpdateCheck;
                    Action::CheckConfig
                },
                Outcome::Done(Err(why)) => self.finish(
                    Err(CoreError::new(ErrorKind::ConfigFailure, why)),
                ),
                _ => self.out_of_turn(),
            },
            Phase::UpdateCheck => match outcome {
                Outcome::Checked(report) => self.after_check(
                    report,
                    (Phase::UpdateLocate, Action::LocateRunConfig),
                    Phase::UpdateReject,
                ),
                _ => self.out_of_turn(),
            },
            Phase::UpdateReject => match outcome {
                Outcome::Done(_) => self.finish_kept(),
                _ => self.out_of_turn(),
            },
            Phase::UpdateLocate => match outcome {
                Outcome::Path(Ok(path)) => {
                    self.phase = Phase::UpdatePush;
                    self.attempt = 1;
                    self.path = path.clone();
                    Action::PushConfig { path }
                },
                Outcome::Path(Err(why)) => self.finish(
                    Err(CoreError::new(ErrorKind::ConfigFailure, why)),
                ),
                _ => self.out_of_turn(),
            },
            Phase::UpdatePush => match outcome {
                Outcome::Done(outcome) => self.after_push(outcome),
                _ => self.out_of_turn(),
            },
            Phase::UpdateSleep => match outcome {
                Outcome::Elapsed => {
                    self.phase = Phase::UpdatePush;
                    if self.attempt < PUSH_ATTEMPTS {
                        self.attempt = self.attempt + 1;
                    }
                    Action::PushConfig { path: self.path.clone() }
                },
                _ => self.out_of_turn(),
            },
        }
    }

    /// Whether no operation is in flight.
    pub fn is_idle(&self) -> (idle: bool)
        ensures
            idle <==> self@.phase == Phase::Idle,
    {
        self.phase == Phase::Idle
    }

    /// Begins a run of the engine: an engine that is current and runs is
    /// stopped, the port is looked at, the mode is resolved, the new
    /// instance is built and made the current one, and started. The first
    /// failure ends the run.
    pub fn run_core(&mut self) -> (action: Action)
        ensures
            (final(self)@, action@) == old(self)@.run_core(),
    {
        if self.is_idle() {
            self.begin_run(Goal::Run)
        } else {
            self.busy()
        }
    }

    /// Begins the run that is made when the application starts.
    pub fn init(&mut self) -> (action: Action)
        ensures
            (final(self)@, action@) == old(self)@.run_core(),
    {
        self.run_core()
    }

    /// Begins a recovery: the current engine is taken out and stopped where
    /// it runs, and the engine is run anew. A run that fails is followed by
    /// a wait and the order to recover again.
    pub fn recover_core(&mut self) -> (action: Action)
        ensures
            (final(self)@, action@) == old(self)@.recover_core(),
    {
        if self.is_idle() {
            self.begin_recover()
        } else {
            self.busy()
        }
    }

    /// Begins a stop of the current engine. Without an engine there is
    /// nothing to do.
    pub fn stop_core(&mut self) -> (action: Action)
        ensures
            (final(self)@, action@) == old(self)@.stop_core(),
    {
        if self.is_idle() {
            self.begin_stop()
        } else {
            self.busy()
        }
    }

    /// Begins a change of the engine's variant: the variant is staged, the
    /// configuration generated and checked, and the engine run. The
    /// settings are committed after a run that succeeded; after one that
    /// failed they are dropped, the engine is run as before, and the
    /// failure is reported.
    pub fn change_core(&mut self, variant: Option<CoreType>) -> (action: Action)
        ensures
            (final(self)@, action@) == old(self)@.change_core(variant),
    {
        if self.is_idle() {
            self.begin_change(variant)
        } else {
            self.busy()
        }
    }

    /// Begins an update of the running engine's configuration: it is
    /// generated, checked, and pushed to the engine, a few times if need
    /// be. The engine is not restarted.
    pub fn update_config(&mut self) -> (action: Action)
        ensures
            (final(self)@, action@) == old(self)@.update_config(),
    {
        if self.is_idle() {
            self.phase = Phase::UpdateGenerate;
            Action::GenerateConfig
        } else {
            self.busy()
        }
    }

    /// The mode of the current engine, if there is one.
    pub fn current_run_type(&self) -> (mode: Option<RunType>)
        ensures
            mode == (match self@.instance {
                Some(instance) => Some(instance.run_type()),
                None => None,
            }),
    {
        match &self.instance {
            Some(instance) => Some(instance.run_type()),
            None => None,
        }
    }

    /// The state of the current engine, the time of its last change, and
    /// its mode. `remote` is what the service answered, if it was asked and
    /// did answer; the setting and the probe are those that a start would
    /// go by. Never an error.
    pub fn status(
        &self,
        remote: &Option<ServiceStatus>,
        enable_service_mode: Option<bool>,
        service_connected: bool,
    ) -> (status: (CoreState, i64, RunType))
        ensures
            status == self@.status(*remote, enable_service_mode, service_connected),
    {
        match &self.instance {
            Some(instance) => {
                let (state, changed_at) = instance.status(remote);
                (state, changed_at, instance.run_type())
            },
            None => (
                CoreState::Stopped(None),
                0,
                RunType::resolve(enable_service_mode, service_connected),
            ),
        }
    }
}

} // verus!
