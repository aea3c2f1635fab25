//! Start, stop and restart of one instance. Each decides what is asked of
//! the outside, and takes note of how that went.

use vstd::prelude::*;
use vstd::string::StringExecFns;
use crate::drain::text_outcome;
use crate::error::{result_view, CoreError, CoreErrorView, ErrorKind};
use crate::event::{CommandEvent, CommandEventView, DrainStep, DrainStepView};
use crate::instance::{Child, ChildView, Instance, InstanceView};
use crate::locate::{Launch, LaunchView};
use crate::state::{CoreType, ServiceStatus};

verus! {

/// What a start asks of the outside.
#[derive(Debug, PartialEq, Eq)]
pub enum StartRequest {
    /// Launch the process, and report what it does under this number.
    Spawn { id: u64, launch: Launch },
    /// Ask the service to start the engine with this configuration.
    Remote { config_path: String, core_type: CoreType },
}

pub enum StartRequestView {
    Spawn { id: u64, launch: LaunchView },
    Remote { config_path: Seq<char>, core_type: CoreType },
}

impl View for StartRequest {
    type V = StartRequestView;

    open spec fn view(&self) -> StartRequestView {
        match self {
            StartRequest::Spawn { id, launch } => StartRequestView::Spawn { id: *id, launch: launch@ },
            StartRequest::Remote { config_path, core_type } => StartRequestView::Remote {
                config_path: config_path@,
                core_type: *core_type,
            },
        }
    }
}

/// What a stop asks of the outside.
#[derive(Clone, Copy, Debug, PartialEq, Eq, Structural)]
pub enum StopRequest {
    /// Terminate the process of this number.
    Kill { id: u64 },
    /// Ask the service to stop the engine.
    Remote,
}

/// What a restart asks of the outside first.
#[derive(Debug, PartialEq, Eq)]
pub enum RestartRequest {
    /// The engine runs: stop it, then start the instance.
    StopFirst(StopRequest),
    /// The engine does not run: start it.
    Start(StartRequest),
}

pub enum RestartRequestView {
    StopFirst(StopRequest),
    Start(StartRequestView),
}

impl View for RestartRequest {
    type V = RestartRequestView;

    open spec fn view(&self) -> RestartRequestView {
        match self {
            RestartRequest::StopFirst(request) => RestartRequestView::StopFirst(*request),
            RestartRequest::Start(request) => RestartRequestView::Start(request@),
        }
    }
}

pub open spec fn start_result(r: Result<StartRequest, CoreError>) -> Result<
    StartRequestView,
    CoreErrorView,
> {
    match r {
        Ok(request) => Ok(request@),
        Err(e) => Err(e@),
    }
}

pub open spec fn stop_result(r: Result<StopRequest, CoreError>) -> Result<StopRequest, CoreErrorView> {
    match r {
        Ok(request) => Ok(request),
        Err(e) => Err(e@),
    }
}

impl InstanceView {
    /// A start: the caller of it has had no answer yet.
    pub open spec fn start(self) -> (InstanceView, StartRequestView) {
        match self {
            InstanceView::Child(child) => (
                InstanceView::Child(ChildView { answered: false, ..child }),
                StartRequestView::Spawn { id: child.id, launch: child.launch },
            ),
            InstanceView::Service { config_path, core_type } => (
                self,
                StartRequestView::Remote { config_path, core_type },
            ),
        }
    }

    /// How a start by the service went.
    pub open spec fn started(outcome: Result<(), Seq<char>>) -> Result<(), CoreErrorView> {
        match outcome {
            Ok(()) => Ok(()),
            Err(why) => Err(CoreErrorView { kind: ErrorKind::RemoteCallFailure, message: why }),
        }
    }

    /// A stop. A child that does not run is left as it is; of one that runs
    /// the kill flag is set before anything is asked.
    pub open spec fn stop(self) -> (InstanceView, Result<StopRequest, CoreErrorView>) {
        match self {
            InstanceView::Child(child) => if child.running {
                (
                    InstanceView::Child(ChildView { kill_flag: true, ..child }),
                    Ok(StopRequest::Kill { id: child.id }),
                )
            } else {
                (
                    self,
                    Err(
                        CoreErrorView {
                            kind: ErrorKind::AlreadyStopped,
                            message: "core is already stopped"@,
                        },
                    ),
                )
            },
            InstanceView::Service { .. } => (self, Ok(StopRequest::Remote)),
        }
    }

    /// How the stop went. A child that was terminated no longer runs, and
    /// the time is recorded; a failure is handed on.
    pub open spec fn stopped(self, outcome: Result<(), Seq<char>>, now: i64) -> (
        InstanceView,
        Result<(), CoreErrorView>,
    ) {
        match self {
            InstanceView::Child(child) => match outcome {
                Ok(()) => (
                    InstanceView::Child(
                        ChildView { running: false, stated_changed_at: now, ..child },
                    ),
                    Ok(()),
                ),
                Err(why) => (
                    self,
                    Err(CoreErrorView { kind: ErrorKind::TerminationFailure, message: why }),
                ),
            },
            InstanceView::Service { .. } => match outcome {
                Ok(()) => (self, Ok(())),
                Err(why) => (
                    self,
                    Err(CoreErrorView { kind: ErrorKind::RemoteCallFailure, message: why }),
                ),
            },
        }
    }

    /// A restart: a stop where the engine runs, a start where it does not.
    pub open spec fn restart(self, remote: Option<ServiceStatus>) -> (InstanceView, RestartRequestView) {
        if self.state(remote) is Running {
            (self.stop().0, RestartRequestView::StopFirst(self.stop().1->Ok_0))
        } else {
            (self.start().0, RestartRequestView::Start(self.start().1))
        }
    }

    /// What follows the stop of a restart: the start, unless the stop
    /// failed.
    pub open spec fn restart_after_stop(self, outcome: Result<(), Seq<char>>, now: i64) -> (
        InstanceView,
        Result<StartRequestView, CoreErrorView>,
    ) {
        match self.stopped(outcome, now).1 {
            Ok(()) => (
                self.stopped(outcome, now).0.start().0,
                Ok(self.stopped(outcome, now).0.start().1),
            ),
            Err(e) => (self.stopped(outcome, now).0, Err(e)),
        }
    }

    /// The launch of the process was attempted.
    pub open spec fn spawned(self, result: Result<(), Seq<char>>) -> (InstanceView, DrainStepView) {
        match self {
            InstanceView::Child(child) => (
                InstanceView::Child(child.spawned(result).0),
                child.spawned(result).1,
            ),
            InstanceView::Service { .. } => (
                self,
                DrainStepView { finished: true, ..DrainStepView::idle() },
            ),
        }
    }

    /// One report of the process. The service's charge has no process here,
    /// and reports change nothing of it.
    pub open spec fn on_event(self, event: CommandEventView, now: i64) -> (InstanceView, DrainStepView) {
        match self {
            InstanceView::Child(child) => (
                InstanceView::Child(child.on_event(event, now).0),
                child.on_event(event, now).1,
            ),
            InstanceView::Service { .. } => (
                self,
                DrainStepView { finished: true, ..DrainStepView::idle() },
            ),
        }
    }
}

impl Instance {
    /// Begins a start: says what is to be launched or asked.
    pub fn start(&mut self) -> (request: StartRequest)
        ensures
            (final(self)@, request@) == old(self)@.start(),
    {
        match self {
            Instance::Child(child) => {
                child.answered = false;
                StartRequest::Spawn { id: child.id, launch: child.launch.clone() }
            },
            Instance::Service { config_path, core_type } => StartRequest::Remote {
                config_path: config_path.clone(),
                core_type: *core_type,
            },
        }
    }

    /// Turns the service's answer to a start into the result of the start.
    pub fn started(outcome: Result<(), String>) -> (result: Result<(), CoreError>)
        ensures
            result_view(result) == InstanceView::started(text_outcome(outcome)),
    {
        match outcome {
            Ok(()) => Ok(()),
            Err(why) => Err(CoreError::new(ErrorKind::RemoteCallFailure, why)),
        }
    }

    /// Begins a stop. A child that is already stopped is not touched and
    /// the call fails; of a child that runs the kill flag is set, so that
    /// its end is not taken for a crash, and its termination is asked for.
    pub fn stop(&mut self) -> (request: Result<StopRequest, CoreError>)
        ensures
            (final(self)@, stop_result(request)) == old(self)@.stop(),
            old(self)@ matches InstanceView::Child(child) && !child.running ==> {
                &&& *final(self) == *old(self)
                &&& request matches Err(e) && e.kind == ErrorKind::AlreadyStopped
            },
    {
        match self {
            Instance::Child(child) => {
                if child.running {
                    child.kill_flag = true;
                    Ok(StopRequest::Kill { id: child.id })
                } else {
                    Err(
                        CoreError::new(
                            ErrorKind::AlreadyStopped,
                            String::from_str("core is already stopped"),
                        ),
                    )
                }
            },
            Instance::Service { .. } => Ok(StopRequest::Remote),
        }
    }

    /// Ends a stop with the outcome of what was asked.
    pub fn stopped(&mut self, outcome: Result<(), String>, now: i64) -> (result: Result<(), CoreError>)
        ensures
            (final(self)@, result_view(result)) == old(self)@.stopped(text_outcome(outcome), now),
    {
        match self {
            Instance::Child(child) => match outcome {
                Ok(()) => {
                    child.running = false;
                    child.stated_changed_at = now;
                    Ok(())
                },
                Err(why) => Err(CoreError::new(ErrorKind::TerminationFailure, why)),
            },
            Instance::Service { .. } => match outcome {
                Ok(()) => Ok(()),
                Err(why) => Err(CoreError::new(ErrorKind::RemoteCallFailure, why)),
            },
        }
    }

    /// Begins a restart; `remote` is what the service answered when asked
    /// for the state, if anything.
    pub fn restart(&mut self, remote: &Option<ServiceStatus>) -> (request: RestartRequest)
        ensures
            (final(self)@, request@) == old(self)@.restart(*remote),
    {
        if self.state(remote).is_running() {
            // An engine that runs does not refuse the stop.
            if let Ok(request) = self.stop() {
                return RestartRequest::StopFirst(request);
            }
        }
        RestartRequest::Start(self.start())
    }

    /// Goes on with a restart after the stop that it began with: a stop
    /// that failed ends the restart with its failure, one that succeeded is
    /// followed by the start.
    pub fn restart_after_stop(&mut self, outcome: Result<(), String>, now: i64) -> (request: Result<
        StartRequest,
        CoreError,
    >)
        ensures
            (final(self)@, start_result(request)) == old(self)@.restart_after_stop(
                text_outcome(outcome),
                now,
            ),
    {
        match self.stopped(outcome, now) {
            Ok(()) => Ok(self.start()),
            Err(e) => Err(e),
        }
    }

    /// Takes note of the attempt to launch the process.
    pub fn spawned(&mut self, result: Result<(), String>) -> (step: DrainStep)
        ensures
            (final(self)@, step@) == old(self)@.spawned(text_outcome(result)),
    {
        match self {
            Instance::Child(child) => child.spawned(result),
            Instance::Service { .. } => DrainStep {
                log: None,
                reply: None,
                recover: false,
                finished: true,
            },
        }
    }

    /// Takes one report of the process.
    pub fn on_event(&mut self, event: CommandEvent, now: i64) -> (step: DrainStep)
        ensures
            (final(self)@, step@) == old(self)@.on_event(event@, now),
    {
        match self {
            Instance::Child(child) => child.on_event(event, now),
            Instance::Service { .. } => DrainStep {
                log: None,
                reply: None,
                recover: false,
                finished: true,
            },
        }
    }
}

} // verus!
