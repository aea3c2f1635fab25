use core_supervisor::error::{CoreError, ErrorKind};
use core_supervisor::instance::{Child, Instance};
use core_supervisor::lifecycle::{RestartRequest, StartRequest, StopRequest};
use core_supervisor::locate::Launch;
use core_supervisor::run_type::RunType;
use core_supervisor::state::{CoreState, CoreType, ServiceStatus};

fn launch() -> Launch {
    Launch {
        core_type: CoreType::ClashRust,
        app_dir: "/data".to_string(),
        binary_path: "/data/clash-rs".to_string(),
        config_path: "/data/run.yaml".to_string(),
        pid_path: "/data/clash.pid".to_string(),
    }
}

fn child_instance(running: bool) -> Instance {
    Instance::Child(Child {
        id: 3,
        launch: launch(),
        running,
        draining: running,
        stated_changed_at: 100,
        kill_flag: false,
        answered: running,
        err_buf: Vec::new(),
    })
}

fn service_instance() -> Instance {
    Instance::Service { config_path: "/data/run.yaml".to_string(), core_type: CoreType::Mihomo }
}

fn reported(state: CoreState, at: i64) -> Option<ServiceStatus> {
    Some(ServiceStatus { state, state_changed_at: at })
}

#[test]
fn stop_of_a_stopped_child_fails_and_touches_nothing() {
    let mut instance = child_instance(false);
    for _ in 0..5 {
        let result = instance.stop();
        assert_eq!(
            result,
            Err(CoreError {
                kind: ErrorKind::AlreadyStopped,
                message: "core is already stopped".to_string(),
            })
        );
        assert_eq!(instance, child_instance(false));
    }
}

#[test]
fn stop_of_a_running_child_sets_the_kill_flag_first() {
    let mut instance = child_instance(true);
    assert_eq!(instance.stop(), Ok(StopRequest::Kill { id: 3 }));
    match &instance {
        Instance::Child(child) => {
            assert!(child.kill_flag);
            assert!(child.running);
            assert_eq!(child.stated_changed_at, 100);
        }
        _ => unreachable!(),
    }
    assert_eq!(instance.stopped(Ok(()), 250), Ok(()));
    assert_eq!(instance.status(&None), (CoreState::Stopped(None), 250));
}

#[test]
fn failed_termination_is_handed_on() {
    let mut instance = child_instance(true);
    instance.stop().unwrap();
    assert_eq!(
        instance.stopped(Err("no permission".to_string()), 250),
        Err(CoreError { kind: ErrorKind::TerminationFailure, message: "no permission".to_string() })
    );
    assert_eq!(instance.status(&None), (CoreState::Running, 100));
}

#[test]
fn service_stop_is_a_remote_call() {
    let mut instance = service_instance();
    assert_eq!(instance.stop(), Ok(StopRequest::Remote));
    assert_eq!(instance.stopped(Ok(()), 5), Ok(()));
    assert_eq!(
        instance.stopped(Err("closed".to_string()), 5),
        Err(CoreError { kind: ErrorKind::RemoteCallFailure, message: "closed".to_string() })
    );
    assert_eq!(instance, service_instance());
}

#[test]
fn start_says_what_to_launch() {
    let mut instance = child_instance(false);
    assert_eq!(instance.start(), StartRequest::Spawn { id: 3, launch: launch() });
    let mut remote = service_instance();
    assert_eq!(
        remote.start(),
        StartRequest::Remote { config_path: "/data/run.yaml".to_string(), core_type: CoreType::Mihomo }
    );
    assert_eq!(Instance::started(Ok(())), Ok(()));
    assert_eq!(
        Instance::started(Err("refused".to_string())),
        Err(CoreError { kind: ErrorKind::RemoteCallFailure, message: "refused".to_string() })
    );
}

#[test]
fn restart_of_a_running_engine_is_stop_then_start() {
    let mut restarted = child_instance(true);
    let mut stepwise = child_instance(true);
    assert_eq!(restarted.restart(&None), RestartRequest::StopFirst(StopRequest::Kill { id: 3 }));
    assert_eq!(stepwise.stop(), Ok(StopRequest::Kill { id: 3 }));
    assert_eq!(restarted, stepwise);
    let after_restart = restarted.restart_after_stop(Ok(()), 77);
    assert_eq!(stepwise.stopped(Ok(()), 77), Ok(()));
    let after_steps = stepwise.start();
    assert_eq!(after_restart, Ok(after_steps));
    assert_eq!(restarted, stepwise);
}

#[test]
fn restart_is_aborted_by_a_failing_stop() {
    let mut instance = child_instance(true);
    instance.restart(&None);
    assert_eq!(
        instance.restart_after_stop(Err("stuck".to_string()), 77),
        Err(CoreError { kind: ErrorKind::TerminationFailure, message: "stuck".to_string() })
    );
    assert_eq!(instance.state(&None), CoreState::Running);
}

#[test]
fn restart_of_a_stopped_engine_is_a_start() {
    let mut instance = child_instance(false);
    assert_eq!(
        instance.restart(&None),
        RestartRequest::Start(StartRequest::Spawn { id: 3, launch: launch() })
    );
    let mut remote = service_instance();
    assert_eq!(
        remote.restart(&reported(CoreState::Stopped(Some("exit".to_string())), 4)),
        RestartRequest::Start(StartRequest::Remote {
            config_path: "/data/run.yaml".to_string(),
            core_type: CoreType::Mihomo,
        })
    );
    assert_eq!(
        remote.restart(&reported(CoreState::Running, 4)),
        RestartRequest::StopFirst(StopRequest::Remote)
    );
}

#[test]
fn service_status_without_answer_is_stopped_at_zero() {
    let instance = service_instance();
    assert_eq!(instance.status(&None), (CoreState::Stopped(None), 0));
    assert_eq!(instance.state(&None), CoreState::Stopped(None));
}

#[test]
fn service_status_follows_the_answer_without_its_detail() {
    let instance = service_instance();
    assert_eq!(instance.status(&reported(CoreState::Running, 42)), (CoreState::Running, 42));
    assert_eq!(
        instance.status(&reported(CoreState::Stopped(Some("killed".to_string())), 43)),
        (CoreState::Stopped(None), 43)
    );
    assert_eq!(instance.run_type(), RunType::Service);
}

#[test]
fn child_state_needs_no_answer() {
    let instance = child_instance(true);
    assert_eq!(instance.state(&reported(CoreState::Stopped(None), 1)), CoreState::Running);
    assert_eq!(instance.status(&None), (CoreState::Running, 100));
}
