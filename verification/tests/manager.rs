use core_supervisor::action::{Action, CheckReport, Outcome};
use core_supervisor::error::{CoreError, ErrorKind};
use core_supervisor::event::{CommandEvent, ExitStatus, LogLine};
use core_supervisor::instance::Instance;
use core_supervisor::lifecycle::{StartRequest, StopRequest};
use core_supervisor::locate::{Environment, Launch, Lookup};
use core_supervisor::manager::{CoreManager, Goal, Phase};
use core_supervisor::run_type::RunType;
use core_supervisor::state::{CoreState, CoreType, ServiceStatus};

fn environment() -> Environment {
    Environment {
        core_type: Some(CoreType::Mihomo),
        exe_name: "mihomo".to_string(),
        data_dir: Ok("/data".to_string()),
        in_data_dir: Lookup::Present("/data/mihomo".to_string()),
        in_install_dir: Lookup::Absent,
        config_path: Ok("/data/run.yaml".to_string()),
        pid_path: Ok("/data/clash.pid".to_string()),
    }
}

fn launch() -> Launch {
    Launch {
        core_type: CoreType::Mihomo,
        app_dir: "/data".to_string(),
        binary_path: "/data/mihomo".to_string(),
        config_path: "/data/run.yaml".to_string(),
        pid_path: "/data/clash.pid".to_string(),
    }
}

fn error(kind: ErrorKind, message: &str) -> CoreError {
    CoreError { kind, message: message.to_string() }
}

fn finish(result: Result<(), CoreError>) -> Action {
    Action::Finish { result, recover_again: false }
}

fn direct_mode() -> Outcome {
    Outcome::Mode { enable_service_mode: Some(false), service_connected: false }
}

/// Runs a child through a whole start, and gives the supervisor that holds it running.
fn with_running_child() -> CoreManager {
    let mut manager = CoreManager::new();
    assert_eq!(manager.run_core(), Action::CheckPort);
    assert_eq!(manager.resume(Outcome::Done(Ok(())), 1), Action::ResolveMode);
    assert_eq!(manager.resume(direct_mode(), 2), Action::Locate);
    assert_eq!(
        manager.resume(Outcome::Environment(environment()), 3),
        Action::Start(StartRequest::Spawn { id: 0, launch: launch() })
    );
    assert!(!manager.spawned(0, Ok(())).finished);
    let step = manager.on_process_event(0, CommandEvent::DelayCheckpointPass, 4);
    assert_eq!(step.reply, Some(Ok(())));
    assert_eq!(manager.resume(Outcome::Started(Ok(())), 5), finish(Ok(())));
    assert!(manager.is_idle());
    manager
}

#[test]
fn first_run_starts_a_child() {
    let manager = with_running_child();
    assert_eq!(manager.current_run_type(), Some(RunType::Normal));
    assert_eq!(manager.status(&None, None, false), (CoreState::Running, 4, RunType::Normal));
    assert_eq!(manager.next_id, 1);
}

#[test]
fn init_is_a_run() {
    let mut manager = CoreManager::new();
    assert_eq!(manager.init(), Action::CheckPort);
    assert_eq!(manager.phase, Phase::RunPort);
    assert_eq!(manager.goal, Goal::Run);
}

#[test]
fn status_without_engine_is_stopped_in_the_mode_to_come() {
    let manager = CoreManager::new();
    assert_eq!(
        manager.status(&None, Some(true), true),
        (CoreState::Stopped(None), 0, RunType::Service)
    );
    assert_eq!(manager.status(&None, Some(true), false), (CoreState::Stopped(None), 0, RunType::Normal));
    assert_eq!(manager.current_run_type(), None);
}

#[test]
fn run_stops_a_running_child_before_anything_else() {
    let mut manager = with_running_child();
    assert_eq!(manager.run_core(), Action::Stop(StopRequest::Kill { id: 0 }));
    match &manager.instance {
        Some(Instance::Child(child)) => assert!(child.kill_flag),
        other => panic!("no child: {:?}", other),
    }
    assert_eq!(manager.resume(Outcome::Done(Ok(())), 10), Action::CheckPort);
    assert_eq!(manager.resume(Outcome::Done(Ok(())), 11), Action::ResolveMode);
    assert_eq!(manager.resume(direct_mode(), 12), Action::Locate);
    assert_eq!(
        manager.resume(Outcome::Environment(environment()), 13),
        Action::Start(StartRequest::Spawn { id: 1, launch: launch() })
    );
    // The end of the old process is no crash, and is none of the new instance's.
    let step = manager.on_process_event(
        0,
        CommandEvent::Terminated {
            status: ExitStatus { code: None, signal: Some(9) },
            detail: "killed".to_string(),
        },
        14,
    );
    assert!(!step.recover && step.finished);
    assert_eq!(manager.resume(Outcome::Started(Ok(())), 15), finish(Ok(())));
}

#[test]
fn run_fails_fast_on_a_taken_port() {
    let mut manager = with_running_child();
    manager.run_core();
    manager.resume(Outcome::Done(Ok(())), 10);
    let stopped = format!("{:?}", manager.instance);
    assert_eq!(
        manager.resume(Outcome::Done(Err("port 9090 in use".to_string())), 11),
        finish(Err(error(ErrorKind::PortUnavailable, "port 9090 in use")))
    );
    assert!(manager.is_idle());
    assert_eq!(format!("{:?}", manager.instance), stopped);
}

#[test]
fn run_propagates_a_failing_stop() {
    let mut manager = with_running_child();
    manager.run_core();
    assert_eq!(
        manager.resume(Outcome::Done(Err("busy".to_string())), 10),
        finish(Err(error(ErrorKind::TerminationFailure, "busy")))
    );
}

#[test]
fn run_in_service_mode_asks_the_service() {
    let mut manager = CoreManager::new();
    manager.run_core();
    manager.resume(Outcome::Done(Ok(())), 1);
    assert_eq!(
        manager.resume(Outcome::Mode { enable_service_mode: Some(true), service_connected: true }, 2),
        Action::Locate
    );
    assert_eq!(
        manager.resume(Outcome::Environment(environment()), 3),
        Action::Start(StartRequest::Remote {
            config_path: "/data/run.yaml".to_string(),
            core_type: CoreType::Mihomo,
        })
    );
    assert_eq!(
        manager.resume(Outcome::Done(Err("service down".to_string())), 4),
        finish(Err(error(ErrorKind::RemoteCallFailure, "service down")))
    );
    assert_eq!(manager.current_run_type(), Some(RunType::Service));
    // The next run asks the service whether the engine runs, and stops it if so.
    assert_eq!(manager.run_core(), Action::QueryService);
    assert_eq!(
        manager.resume(
            Outcome::Status(Some(ServiceStatus { state: CoreState::Running, state_changed_at: 9 })),
            5
        ),
        Action::Stop(StopRequest::Remote)
    );
    assert_eq!(manager.resume(Outcome::Done(Ok(())), 6), Action::CheckPort);
}

#[test]
fn run_skips_the_stop_of_a_service_that_does_not_answer() {
    let mut manager = CoreManager::new();
    manager.instance = Some(Instance::Service {
        config_path: "/data/run.yaml".to_string(),
        core_type: CoreType::Mihomo,
    });
    assert_eq!(manager.run_core(), Action::QueryService);
    assert_eq!(manager.resume(Outcome::Status(None), 5), Action::CheckPort);
}

#[test]
fn run_fails_without_executable() {
    let mut manager = CoreManager::new();
    manager.run_core();
    manager.resume(Outcome::Done(Ok(())), 1);
    manager.resume(direct_mode(), 2);
    let mut env = environment();
    env.in_data_dir = Lookup::Absent;
    assert_eq!(
        manager.resume(Outcome::Environment(env), 3),
        finish(Err(error(ErrorKind::NotFound, "mihomo not found")))
    );
    assert_eq!(manager.instance, None);
}

#[test]
fn crash_leads_to_recovery_with_backoff() {
    let mut manager = with_running_child();
    let step = manager.on_process_event(
        0,
        CommandEvent::Terminated {
            status: ExitStatus { code: Some(2), signal: None },
            detail: "exit 2".to_string(),
        },
        20,
    );
    assert!(step.recover);
    assert_eq!(manager.status(&None, None, false), (CoreState::Stopped(None), 20, RunType::Normal));
    // The recovery takes the instance out, finds it stopped, and runs anew.
    assert_eq!(manager.recover_core(), Action::CheckPort);
    assert_eq!(manager.instance, None);
    assert_eq!(manager.goal, Goal::Recover);
    let failure = error(ErrorKind::PortUnavailable, "in use");
    assert_eq!(
        manager.resume(Outcome::Done(Err("in use".to_string())), 21),
        Action::Sleep { millis: 5000, error: Some(failure) }
    );
    assert_eq!(
        manager.resume(Outcome::Elapsed, 22),
        Action::Finish { result: Ok(()), recover_again: true }
    );
    assert!(manager.is_idle());
}

#[test]
fn recovery_stops_an_engine_that_still_runs() {
    let mut manager = with_running_child();
    assert_eq!(manager.recover_core(), Action::Stop(StopRequest::Kill { id: 0 }));
    assert_eq!(manager.instance, None);
    // Its reports still reach it while it is being stopped.
    let step = manager.on_process_event(0, CommandEvent::Stderr("bye".to_string()), 30);
    assert_eq!(step.log, Some(LogLine { text: "bye".to_string(), extract_level: false }));
    assert_eq!(manager.resume(Outcome::Done(Ok(())), 31), Action::CheckPort);
    assert_eq!(manager.taken, None);
    manager.resume(Outcome::Done(Ok(())), 32);
    manager.resume(direct_mode(), 33);
    assert_eq!(
        manager.resume(Outcome::Environment(environment()), 34),
        Action::Start(StartRequest::Spawn { id: 1, launch: launch() })
    );
    assert_eq!(manager.resume(Outcome::Started(Ok(())), 35), finish(Ok(())));
}

#[test]
fn recovery_ends_where_the_stop_fails() {
    let mut manager = with_running_child();
    manager.recover_core();
    assert_eq!(
        manager.resume(Outcome::Done(Err("stuck".to_string())), 31),
        finish(Err(error(ErrorKind::TerminationFailure, "stuck")))
    );
    assert_eq!(manager.instance, None);
    assert!(manager.is_idle());
}

#[test]
fn stop_core_without_engine_does_nothing() {
    let mut manager = CoreManager::new();
    assert_eq!(manager.stop_core(), finish(Ok(())));
}

#[test]
fn stop_core_stops_the_engine() {
    let mut manager = with_running_child();
    assert_eq!(manager.stop_core(), Action::Stop(StopRequest::Kill { id: 0 }));
    assert_eq!(manager.resume(Outcome::Done(Ok(())), 40), finish(Ok(())));
    assert_eq!(manager.status(&None, None, false), (CoreState::Stopped(None), 40, RunType::Normal));
    assert_eq!(
        manager.stop_core(),
        finish(Err(error(ErrorKind::AlreadyStopped, "core is already stopped")))
    );
}

#[test]
fn change_without_variant_is_refused() {
    let mut manager = CoreManager::new();
    assert_eq!(
        manager.change_core(None),
        finish(Err(error(ErrorKind::MissingVariant, "clash core is null")))
    );
}

fn refused() -> CheckReport {
    CheckReport {
        success: false,
        output: "level=error msg=\"bad port\"".to_string(),
        diagnostics: "bad port".to_string(),
    }
}

fn accepted() -> CheckReport {
    CheckReport { success: true, output: "ok".to_string(), diagnostics: String::new() }
}

#[test]
fn refused_configuration_leaves_the_engine_and_the_settings() {
    let mut manager = with_running_child();
    let before = format!("{:?}", manager.instance);
    assert_eq!(manager.change_core(Some(CoreType::ClashRust)), Action::StageVariant(CoreType::ClashRust));
    assert_eq!(manager.resume(Outcome::Done(Ok(())), 50), Action::GenerateConfig);
    assert_eq!(manager.resume(Outcome::Done(Ok(())), 51), Action::CheckConfig);
    assert_eq!(
        manager.resume(Outcome::Checked(Ok(refused())), 52),
        Action::AppendLog { text: "level=error msg=\"bad port\"".to_string() }
    );
    assert_eq!(
        manager.resume(Outcome::Done(Ok(())), 53),
        finish(Err(error(ErrorKind::ValidationFailure, "bad port")))
    );
    assert!(manager.is_idle());
    assert_eq!(format!("{:?}", manager.instance), before);
    assert_eq!(manager.status(&None, None, false), (CoreState::Running, 4, RunType::Normal));
}

#[test]
fn only_a_refused_configuration_has_its_output_logged() {
    assert_eq!(
        CoreManager::rejected_output(&Ok(refused())),
        Some("level=error msg=\"bad port\"".to_string())
    );
    assert_eq!(CoreManager::rejected_output(&Ok(accepted())), None);
    assert_eq!(CoreManager::rejected_output(&Err("cannot run".to_string())), None);
}

#[test]
fn validation_failure_falls_back_to_the_raw_output() {
    let report = CheckReport {
        success: false,
        output: "something odd".to_string(),
        diagnostics: String::new(),
    };
    assert_eq!(
        CoreManager::check_config(&Ok(report)),
        Err(error(ErrorKind::ValidationFailure, "something odd"))
    );
    assert_eq!(CoreManager::check_config(&Ok(refused())), Err(error(ErrorKind::ValidationFailure, "bad port")));
    assert_eq!(CoreManager::check_config(&Ok(accepted())), Ok(()));
    assert_eq!(
        CoreManager::check_config(&Err("cannot run".to_string())),
        Err(error(ErrorKind::ConfigFailure, "cannot run"))
    );
}

#[test]
fn successful_change_commits_the_settings() {
    let mut manager = CoreManager::new();
    manager.change_core(Some(CoreType::ClashRust));
    manager.resume(Outcome::Done(Ok(())), 50);
    manager.resume(Outcome::Done(Ok(())), 51);
    assert_eq!(manager.resume(Outcome::Checked(Ok(accepted())), 52), Action::ClearLogs);
    assert_eq!(manager.resume(Outcome::Done(Ok(())), 53), Action::CheckPort);
    manager.resume(Outcome::Done(Ok(())), 54);
    manager.resume(direct_mode(), 55);
    manager.resume(Outcome::Environment(environment()), 56);
    assert_eq!(manager.resume(Outcome::Started(Ok(())), 57), Action::CommitSettings);
    assert_eq!(manager.resume(Outcome::Done(Ok(())), 58), finish(Ok(())));
}

#[test]
fn failed_change_rolls_back_and_reports_the_first_failure() {
    let mut manager = CoreManager::new();
    manager.change_core(Some(CoreType::ClashRust));
    manager.resume(Outcome::Done(Ok(())), 50);
    manager.resume(Outcome::Done(Ok(())), 51);
    manager.resume(Outcome::Checked(Ok(accepted())), 52);
    manager.resume(Outcome::Done(Ok(())), 53);
    manager.resume(Outcome::Done(Ok(())), 54);
    manager.resume(direct_mode(), 55);
    manager.resume(Outcome::Environment(environment()), 56);
    let first = error(ErrorKind::AbnormalTermination, "core terminated with status: 1\n");
    assert_eq!(manager.resume(Outcome::Started(Err(first.clone())), 57), Action::DiscardSettings);
    // The engine is run again under the settings as they were.
    assert_eq!(manager.resume(Outcome::Done(Ok(())), 58), Action::CheckPort);
    assert_eq!(manager.goal, Goal::Rollback);
    manager.resume(Outcome::Done(Ok(())), 59);
    manager.resume(direct_mode(), 60);
    assert_eq!(
        manager.resume(Outcome::Environment(environment()), 61),
        Action::Start(StartRequest::Spawn { id: 1, launch: launch() })
    );
    assert_eq!(manager.resume(Outcome::Started(Ok(())), 62), finish(Err(first)));
    assert!(manager.is_idle());
    assert_eq!(manager.failure, None);
}

#[test]
fn failed_rollback_reports_its_own_failure() {
    let mut manager = CoreManager::new();
    manager.goal = Goal::Change;
    manager.phase = Phase::RunStart;
    let first = error(ErrorKind::SpawnFailure, "first");
    assert_eq!(manager.resume(Outcome::Started(Err(first)), 57), Action::DiscardSettings);
    manager.resume(Outcome::Done(Ok(())), 58);
    assert_eq!(
        manager.resume(Outcome::Done(Err("in use".to_string())), 59),
        finish(Err(error(ErrorKind::PortUnavailable, "in use")))
    );
}

fn at_first_push() -> CoreManager {
    let mut manager = with_running_child();
    assert_eq!(manager.update_config(), Action::GenerateConfig);
    assert_eq!(manager.resume(Outcome::Done(Ok(())), 70), Action::CheckConfig);
    assert_eq!(manager.resume(Outcome::Checked(Ok(accepted())), 71), Action::LocateRunConfig);
    assert_eq!(
        manager.resume(Outcome::Path(Ok("/data/run.yaml".to_string())), 72),
        Action::PushConfig { path: "/data/run.yaml".to_string() }
    );
    manager
}

#[test]
fn update_gives_up_after_five_pushes() {
    let mut manager = at_first_push();
    let mut pushes = 1;
    for attempt in 1..5 {
        let why = format!("refused {}", attempt);
        assert_eq!(
            manager.resume(Outcome::Done(Err(why.clone())), 73),
            Action::Sleep { millis: 250, error: Some(error(ErrorKind::PushFailure, &why)) }
        );
        assert_eq!(
            manager.resume(Outcome::Elapsed, 74),
            Action::PushConfig { path: "/data/run.yaml".to_string() }
        );
        pushes += 1;
    }
    assert_eq!(pushes, 5);
    assert_eq!(
        manager.resume(Outcome::Done(Err("refused 5".to_string())), 75),
        finish(Err(error(ErrorKind::PushFailure, "refused 5")))
    );
    assert!(manager.is_idle());
    // Nothing is pushed any more.
    assert_eq!(
        manager.resume(Outcome::Elapsed, 76),
        finish(Err(error(ErrorKind::OutOfTurn, "the outcome answers no action in flight")))
    );
    assert_eq!(manager.status(&None, None, false).0, CoreState::Running);
}

#[test]
fn update_ends_with_the_first_accepted_push() {
    let mut manager = at_first_push();
    manager.resume(Outcome::Done(Err("not yet".to_string())), 73);
    manager.resume(Outcome::Elapsed, 74);
    assert_eq!(manager.attempt, 2);
    assert_eq!(manager.resume(Outcome::Done(Ok(())), 75), finish(Ok(())));
    assert!(manager.is_idle());
}

#[test]
fn update_stops_at_a_refused_configuration() {
    let mut manager = CoreManager::new();
    manager.update_config();
    manager.resume(Outcome::Done(Ok(())), 70);
    assert_eq!(
        manager.resume(Outcome::Checked(Ok(refused())), 71),
        Action::AppendLog { text: "level=error msg=\"bad port\"".to_string() }
    );
    assert_eq!(
        manager.resume(Outcome::Done(Ok(())), 72),
        finish(Err(error(ErrorKind::ValidationFailure, "bad port")))
    );
}

#[test]
fn update_stops_where_generation_fails() {
    let mut manager = CoreManager::new();
    manager.update_config();
    assert_eq!(
        manager.resume(Outcome::Done(Err("no profile".to_string())), 70),
        finish(Err(error(ErrorKind::ConfigFailure, "no profile")))
    );
    let mut manager = CoreManager::new();
    manager.update_config();
    manager.resume(Outcome::Done(Ok(())), 70);
    manager.resume(Outcome::Checked(Ok(accepted())), 71);
    assert_eq!(
        manager.resume(Outcome::Path(Err("no file".to_string())), 72),
        finish(Err(error(ErrorKind::ConfigFailure, "no file")))
    );
}

#[test]
fn second_operation_is_refused_while_one_is_in_flight() {
    let mut manager = CoreManager::new();
    manager.run_core();
    let busy = finish(Err(error(ErrorKind::Busy, "another operation is in flight")));
    assert_eq!(manager.run_core(), busy);
    assert_eq!(manager.stop_core(), busy);
    assert_eq!(manager.recover_core(), busy);
    assert_eq!(manager.update_config(), busy);
    assert_eq!(manager.change_core(Some(CoreType::Mihomo)), busy);
    assert_eq!(manager.phase, Phase::RunPort);
}

#[test]
fn outcome_out_of_turn_ends_the_operation() {
    let mut manager = CoreManager::new();
    manager.run_core();
    assert_eq!(
        manager.resume(Outcome::Elapsed, 1),
        finish(Err(error(ErrorKind::OutOfTurn, "the outcome answers no action in flight")))
    );
    assert!(manager.is_idle());
}

#[test]
fn reports_of_an_unknown_process_only_reach_the_log() {
    let mut manager = with_running_child();
    let step = manager.on_process_event(
        9,
        CommandEvent::Terminated {
            status: ExitStatus { code: Some(1), signal: None },
            detail: "exit 1".to_string(),
        },
        80,
    );
    assert!(!step.recover && step.finished && step.reply.is_none() && step.log.is_none());
    let step = manager.on_process_event(9, CommandEvent::Stdout("x".to_string()), 81);
    assert_eq!(step.log, Some(LogLine { text: "x".to_string(), extract_level: false }));
    assert!(manager.spawned(9, Ok(())).finished);
    assert_eq!(manager.status(&None, None, false), (CoreState::Running, 4, RunType::Normal));
}
