use core_supervisor::error::{CoreError, ErrorKind};
use core_supervisor::instance::Instance;
use core_supervisor::locate::{find_binary_path, launch_of, Environment, Lookup};
use core_supervisor::run_type::RunType;
use core_supervisor::state::{CoreState, CoreType};

fn environment() -> Environment {
    Environment {
        core_type: Some(CoreType::Mihomo),
        exe_name: "mihomo".to_string(),
        data_dir: Ok("/data".to_string()),
        in_data_dir: Lookup::Absent,
        in_install_dir: Lookup::Present("/opt/app/mihomo".to_string()),
        config_path: Ok("/data/run.yaml".to_string()),
        pid_path: Ok("/data/clash.pid".to_string()),
    }
}

#[test]
fn binary_in_data_dir_comes_first() {
    let found = find_binary_path(
        "clash",
        &Lookup::Present("/data/clash".to_string()),
        &Lookup::Present("/opt/app/clash".to_string()),
    );
    assert_eq!(found, Ok("/data/clash".to_string()));
}

#[test]
fn binary_in_install_dir_is_second() {
    let found = find_binary_path(
        "clash",
        &Lookup::Absent,
        &Lookup::Present("/opt/app/clash".to_string()),
    );
    assert_eq!(found, Ok("/opt/app/clash".to_string()));
}

#[test]
fn binary_absent_from_both_directories_is_not_found_by_name() {
    let found = find_binary_path("mihomo-alpha", &Lookup::Absent, &Lookup::Absent);
    assert_eq!(
        found,
        Err(CoreError { kind: ErrorKind::NotFound, message: "mihomo-alpha not found".to_string() })
    );
}

#[test]
fn unknown_data_dir_ends_the_search() {
    let found = find_binary_path(
        "clash",
        &Lookup::Unavailable("no home".to_string()),
        &Lookup::Present("/opt/app/clash".to_string()),
    );
    assert_eq!(
        found,
        Err(CoreError { kind: ErrorKind::NotFound, message: "no home".to_string() })
    );
}

#[test]
fn unknown_install_dir_ends_the_search() {
    let found =
        find_binary_path("clash", &Lookup::Absent, &Lookup::Unavailable("no exe".to_string()));
    assert_eq!(found, Err(CoreError { kind: ErrorKind::NotFound, message: "no exe".to_string() }));
}

#[test]
fn launch_gathers_the_paths() {
    let launch = launch_of(&environment()).unwrap();
    assert_eq!(launch.core_type, CoreType::Mihomo);
    assert_eq!(launch.app_dir, "/data");
    assert_eq!(launch.binary_path, "/opt/app/mihomo");
    assert_eq!(launch.config_path, "/data/run.yaml");
    assert_eq!(launch.pid_path, "/data/clash.pid");
}

#[test]
fn launch_defaults_to_the_premium_variant() {
    let mut env = environment();
    env.core_type = None;
    assert_eq!(launch_of(&env).unwrap().core_type, CoreType::ClashPremium);
}

#[test]
fn launch_reports_the_first_thing_missing() {
    let mut env = environment();
    env.pid_path = Err("no pid".to_string());
    env.config_path = Err("no config".to_string());
    assert_eq!(
        launch_of(&env),
        Err(CoreError { kind: ErrorKind::ConfigFailure, message: "no config".to_string() })
    );
    env.in_install_dir = Lookup::Absent;
    assert_eq!(
        launch_of(&env),
        Err(CoreError { kind: ErrorKind::NotFound, message: "mihomo not found".to_string() })
    );
    env.data_dir = Err("no data".to_string());
    assert_eq!(
        launch_of(&env),
        Err(CoreError { kind: ErrorKind::ConfigFailure, message: "no data".to_string() })
    );
    let mut env = environment();
    env.pid_path = Err("no pid".to_string());
    assert_eq!(
        launch_of(&env),
        Err(CoreError { kind: ErrorKind::ConfigFailure, message: "no pid".to_string() })
    );
}

#[test]
fn new_child_is_stopped_and_stamped() {
    let instance = Instance::try_new(RunType::Normal, &environment(), 7, 1234).unwrap();
    assert_eq!(instance.run_type(), RunType::Normal);
    assert_eq!(instance.status(&None), (CoreState::Stopped(None), 1234));
    match instance {
        Instance::Child(child) => {
            assert_eq!(child.id, 7);
            assert!(!child.running && !child.draining && !child.kill_flag && !child.answered);
            assert!(child.err_buf.is_empty());
            assert_eq!(child.launch.binary_path, "/opt/app/mihomo");
        }
        other => panic!("not a child: {:?}", other),
    }
}

#[test]
fn new_service_instance_holds_path_and_variant() {
    let instance = Instance::try_new(RunType::Service, &environment(), 7, 1234).unwrap();
    assert_eq!(
        instance,
        Instance::Service { config_path: "/data/run.yaml".to_string(), core_type: CoreType::Mihomo }
    );
    assert_eq!(instance.run_type(), RunType::Service);
}

#[test]
fn elevated_mode_is_not_implemented() {
    let built = Instance::try_new(RunType::Elevated, &environment(), 0, 0);
    assert_eq!(built.unwrap_err().kind, ErrorKind::NotImplemented);
}

#[test]
fn start_without_executable_fails_with_not_found() {
    let mut env = environment();
    env.in_install_dir = Lookup::Absent;
    env.exe_name = "clash-rs".to_string();
    let built = Instance::try_new(RunType::Normal, &env, 0, 0);
    let error = built.unwrap_err();
    assert_eq!(error.kind, ErrorKind::NotFound);
    assert_eq!(error.to_string(), "clash-rs not found");
    assert!(error.message.contains("clash-rs"));
}
