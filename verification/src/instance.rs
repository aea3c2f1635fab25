//! One engine, in one of two shapes: a child process of the supervisor, or a
//! charge of the privileged service.

use vstd::prelude::*;
use vstd::string::StringExecFns;
use crate::error::{CoreError, CoreErrorView, ErrorKind};
use crate::locate::{launch_of, spec_launch, Environment, EnvironmentView, Launch, LaunchView};
use crate::run_type::RunType;
use crate::state::{CoreState, CoreType, ServiceStatus};

verus! {

/// How many of the engine's last diagnostic lines are kept.
pub const ERR_LINES: usize = 6;

/// The engine as a child process: what the supervisor knows of it.
#[derive(Debug, PartialEq, Eq)]
pub struct Child {
    /// The number by which the events of this process are told from those of
    /// another.
    pub id: u64,
    /// What the process is launched with.
    pub launch: Launch,
    /// Whether the process is alive.
    pub running: bool,
    /// Whether the output of the process is being read.
    pub draining: bool,
    /// When the state last changed.
    pub stated_changed_at: i64,
    /// Set before a deliberate termination: the end of the process is then
    /// no crash.
    pub kill_flag: bool,
    /// Whether the caller of the last start has had its answer.
    pub answered: bool,
    /// The last diagnostic lines of the process.
    pub err_buf: Vec<String>,
}

pub struct ChildView {
    pub id: u64,
    pub launch: LaunchView,
    pub running: bool,
    pub draining: bool,
    pub stated_changed_at: i64,
    pub kill_flag: bool,
    pub answered: bool,
    pub err_buf: Seq<Seq<char>>,
}

impl View for Child {
    type V = ChildView;

    open spec fn view(&self) -> ChildView {
        ChildView {
            id: self.id,
            launch: self.launch@,
            running: self.running,
            draining: self.draining,
            stated_changed_at: self.stated_changed_at,
            kill_flag: self.kill_flag,
            answered: self.answered,
            err_buf: crate::text::lines_of(self.err_buf@),
        }
    }
}

/// The engine, by the way it is run.
#[derive(Debug, PartialEq, Eq)]
pub enum Instance {
    Child(Child),
    Service { config_path: String, core_type: CoreType },
}

pub enum InstanceView {
    Child(ChildView),
    Service { config_path: Seq<char>, core_type: CoreType },
}

impl View for Instance {
    type V = InstanceView;

    open spec fn view(&self) -> InstanceView {
        match self {
            Instance::Child(child) => InstanceView::Child(child@),
            Instance::Service { config_path, core_type } => InstanceView::Service {
                config_path: config_path@,
                core_type: *core_type,
            },
        }
    }
}

impl InstanceView {
    /// The diagnostic buffer is within its bound.
    pub open spec fn wf(self) -> bool {
        self matches InstanceView::Child(child) ==> child.err_buf.len() <= ERR_LINES
    }

    pub open spec fn run_type(self) -> RunType {
        match self {
            InstanceView::Child(_) => RunType::Normal,
            InstanceView::Service { .. } => RunType::Service,
        }
    }

    /// The instance that a mode and an environment give. The reserved mode
    /// gives none.
    pub open spec fn try_new(run_type: RunType, env: EnvironmentView, id: u64, now: i64) -> Result<
        InstanceView,
        CoreErrorView,
    > {
        match spec_launch(env) {
            Err(e) => Err(e),
            Ok(launch) => match run_type {
                RunType::Normal => Ok(
                    InstanceView::Child(
                        ChildView {
                            id,
                            launch,
                            running: false,
                            draining: false,
                            stated_changed_at: now,
                            kill_flag: false,
                            answered: false,
                            err_buf: Seq::empty(),
                        },
                    ),
                ),
                RunType::Service => Ok(
                    InstanceView::Service {
                        config_path: launch.config_path,
                        core_type: launch.core_type,
                    },
                ),
                RunType::Elevated => Err(
                    CoreErrorView {
                        kind: ErrorKind::NotImplemented,
                        message: "elevated run type is not implemented"@,
                    },
                ),
            },
        }
    }

    /// Whether the engine runs. A child process is asked directly; for the
    /// service's charge the answer of the service counts, and no answer
    /// counts as stopped.
    pub open spec fn state(self, remote: Option<ServiceStatus>) -> CoreState {
        match self {
            InstanceView::Child(child) => if child.running {
                CoreState::Running
            } else {
                CoreState::Stopped(None)
            },
            InstanceView::Service { .. } => match remote {
                Some(status) => status.state.bare(),
                None => CoreState::Stopped(None),
            },
        }
    }

    /// The state, and when it last changed. Without an answer from the
    /// service the time is 0.
    pub open spec fn status(self, remote: Option<ServiceStatus>) -> (CoreState, i64) {
        match self {
            InstanceView::Child(child) => (self.state(remote), child.stated_changed_at),
            InstanceView::Service { .. } => match remote {
                Some(status) => (status.state.bare(), status.state_changed_at),
                None => (CoreState::Stopped(None), 0i64),
            },
        }
    }
}

pub open spec fn instance_result(r: Result<Instance, CoreError>) -> Result<InstanceView, CoreErrorView> {
    match r {
        Ok(instance) => Ok(instance@),
        Err(e) => Err(e@),
    }
}

impl Instance {
    /// The diagnostic buffer is within its bound.
    pub open spec fn wf(&self) -> bool {
        self@.wf()
    }

    /// Builds the instance for a mode from what was found in the
    /// environment. Nothing is launched yet.
    pub fn try_new(run_type: RunType, env: &Environment, id: u64, now: i64) -> (built: Result<
        Instance,
        CoreError,
    >)
        ensures
            instance_result(built) == InstanceView::try_new(run_type, env@, id, now),
            built matches Ok(instance) ==> instance.wf(),
    {
        let launch = match launch_of(env) {
            Ok(launch) => launch,
            Err(e) => { return Err(e); },
        };
        match run_type {
            RunType::Normal => {
                let child = Child {
                    id,
                    launch,
                    running: false,
                    draining: false,
                    stated_changed_at: now,
                    kill_flag: false,
                    answered: false,
                    err_buf: Vec::new(),
                };
                assert(child@.err_buf =~= Seq::<Seq<char>>::empty());
                Ok(Instance::Child(child))
            },
            RunType::Service => Ok(
                Instance::Service { config_path: launch.config_path, core_type: launch.core_type },
            ),
            RunType::Elevated => Err(
                CoreError::new(
                    ErrorKind::NotImplemented,
                    String::from_str("elevated run type is not implemented"),
                ),
            ),
        }
    }

    /// The mode in which this instance runs the engine.
    pub fn run_type(&self) -> (mode: RunType)
        ensures
            mode == self@.run_type(),
    {
        match self {
            Instance::Child(_) => RunType::Normal,
            Instance::Service { .. } => RunType::Service,
        }
    }

    /// Whether the engine runs; `remote` is what the service answered, if
    /// anything. Never an error.
    pub fn state(&self, remote: &Option<ServiceStatus>) -> (state: CoreState)
        ensures
            state == self@.state(*remote),
    {
        match self {
            Instance::Child(child) => if child.running {
                CoreState::Running
            } else {
                CoreState::Stopped(None)
            },
            Instance::Service { .. } => match remote {
                Some(status) => if status.state.is_running() {
                    CoreState::Running
                } else {
                    CoreState::Stopped(None)
                },
                None => CoreState::Stopped(None),
            },
        }
    }

    /// The state together with the time of its last change. Never an error:
    /// a service that does not answer gives a stopped engine at time 0.
    pub fn status(&self, remote: &Option<ServiceStatus>) -> (status: (CoreState, i64))
        ensures
            status == self@.status(*remote),
            self@ is Service && *remote is None ==> status == (CoreState::Stopped(None), 0i64),
    {
        match self {
            Instance::Child(child) => (self.state(remote), child.stated_changed_at),
            Instance::Service { .. } => match remote {
                Some(status) => (self.state(remote), status.state_changed_at),
                None => (CoreState::Stopped(None), 0),
            },
        }
    }
}

} // verus!
