use core_supervisor::error::{CoreError, ErrorKind};
use core_supervisor::event::{CommandEvent, DrainStep, ExitStatus, LogLine};
use core_supervisor::instance::{Child, ERR_LINES};
use core_supervisor::locate::Launch;
use core_supervisor::state::CoreType;
use core_supervisor::text::{join, push_bounded, with_lines};

fn child(core_type: CoreType) -> Child {
    Child {
        id: 1,
        launch: Launch {
            core_type,
            app_dir: "/data".to_string(),
            binary_path: "/data/clash".to_string(),
            config_path: "/data/run.yaml".to_string(),
            pid_path: "/data/clash.pid".to_string(),
        },
        running: false,
        draining: false,
        stated_changed_at: 0,
        kill_flag: false,
        answered: false,
        err_buf: Vec::new(),
    }
}

fn running(core_type: CoreType) -> Child {
    let mut child = child(core_type);
    let step = child.spawned(Ok(()));
    assert_eq!(step, DrainStep { log: None, reply: None, recover: false, finished: false });
    child
}

fn crash() -> CommandEvent {
    CommandEvent::Terminated {
        status: ExitStatus { code: Some(1), signal: None },
        detail: "exit 1".to_string(),
    }
}

#[test]
fn join_puts_line_feeds_between() {
    assert_eq!(join(&vec![]), "");
    assert_eq!(join(&vec!["a".to_string()]), "a");
    assert_eq!(join(&vec!["a".to_string(), "".to_string(), "c".to_string()]), "a\n\nc");
}

#[test]
fn headline_comes_before_the_lines() {
    assert_eq!(with_lines("boom", &vec!["x".to_string(), "y".to_string()]), "boom\nx\ny");
    assert_eq!(with_lines("boom", &vec![]), "boom\n");
}

#[test]
fn bounded_buffer_keeps_the_last_lines() {
    let mut buffer = Vec::new();
    for i in 0..9 {
        push_bounded(&mut buffer, format!("{}", i), 3);
    }
    assert_eq!(buffer, vec!["6".to_string(), "7".to_string(), "8".to_string()]);
    let mut none = vec!["a".to_string()];
    push_bounded(&mut none, "b".to_string(), 0);
    assert!(none.is_empty());
}

#[test]
fn graceful_end_needs_zero_exit_and_expected_signal() {
    assert!(ExitStatus { code: Some(0), signal: Some(9) }.is_graceful());
    assert!(ExitStatus { code: Some(0), signal: Some(15) }.is_graceful());
    assert!(!ExitStatus { code: Some(0), signal: Some(2) }.is_graceful());
    assert!(!ExitStatus { code: Some(0), signal: None }.is_graceful());
    assert!(!ExitStatus { code: Some(1), signal: Some(15) }.is_graceful());
    assert!(!ExitStatus { code: None, signal: Some(9) }.is_graceful());
}

#[test]
fn spawn_resets_the_kill_flag_and_the_buffer() {
    let mut child = child(CoreType::Mihomo);
    child.kill_flag = true;
    child.err_buf = vec!["old".to_string()];
    child.spawned(Ok(()));
    assert!(child.running && child.draining && !child.kill_flag);
    assert!(child.err_buf.is_empty());
}

#[test]
fn failed_launch_is_answered_once() {
    let mut child = child(CoreType::Mihomo);
    let step = child.spawned(Err("no such file".to_string()));
    assert_eq!(
        step.reply,
        Some(Err(CoreError { kind: ErrorKind::SpawnFailure, message: "no such file".to_string() }))
    );
    assert!(step.finished && !step.recover);
    assert!(!child.running && child.answered);
    assert_eq!(child.spawned(Err("again".to_string())).reply, None);
}

#[test]
fn stdout_is_forwarded_with_level_extraction_for_premium() {
    let mut premium = running(CoreType::ClashPremium);
    let step = premium.on_event(CommandEvent::Stdout("hello".to_string()), 5);
    assert_eq!(step.log, Some(LogLine { text: "hello".to_string(), extract_level: true }));
    assert!(!step.finished && !step.recover && step.reply.is_none());
    let mut other = running(CoreType::Mihomo);
    let step = other.on_event(CommandEvent::Stdout("hello".to_string()), 5);
    assert_eq!(step.log, Some(LogLine { text: "hello".to_string(), extract_level: false }));
    assert_eq!(other.stated_changed_at, 0);
}

#[test]
fn stderr_keeps_the_last_six_lines() {
    assert_eq!(ERR_LINES, 6);
    let mut child = running(CoreType::Mihomo);
    for i in 0..8 {
        let step = child.on_event(CommandEvent::Stderr(format!("e{}", i)), 5);
        assert_eq!(step.log, Some(LogLine { text: format!("e{}", i), extract_level: false }));
    }
    let kept: Vec<String> = (2..8).map(|i| format!("e{}", i)).collect();
    assert_eq!(child.err_buf, kept);
}

#[test]
fn spawn_error_answers_with_the_kept_lines() {
    let mut child = running(CoreType::Mihomo);
    child.on_event(CommandEvent::Stderr("first".to_string()), 1);
    child.on_event(CommandEvent::Stderr("second".to_string()), 2);
    let step = child.on_event(CommandEvent::Error("cannot run".to_string()), 3);
    assert_eq!(
        step.reply,
        Some(Err(CoreError {
            kind: ErrorKind::SpawnFailure,
            message: "cannot run\nfirst\nsecond".to_string(),
        }))
    );
    assert_eq!(step.log, Some(LogLine { text: "cannot run".to_string(), extract_level: false }));
    assert!(step.finished && !step.recover);
    assert!(!child.running && !child.draining);
    assert_eq!(child.stated_changed_at, 3);
}

#[test]
fn checkpoint_answers_the_start_once() {
    let mut child = running(CoreType::Mihomo);
    let step = child.on_event(CommandEvent::DelayCheckpointPass, 9);
    assert_eq!(step.reply, Some(Ok(())));
    assert!(!step.finished);
    assert_eq!(child.stated_changed_at, 9);
    let step = child.on_event(CommandEvent::DelayCheckpointPass, 10);
    assert_eq!(step.reply, None);
    assert_eq!(child.stated_changed_at, 10);
}

#[test]
fn crash_without_kill_intent_recovers_exactly_once() {
    let mut child = running(CoreType::Mihomo);
    child.on_event(CommandEvent::DelayCheckpointPass, 1);
    child.on_event(CommandEvent::Stderr("panic: x".to_string()), 2);
    let mut recoveries = 0;
    for (i, event) in vec![crash(), crash(), CommandEvent::Stdout("late".to_string()), crash()]
        .into_iter()
        .enumerate()
    {
        let step = child.on_event(event, 3 + i as i64);
        assert!(step.finished);
        if step.recover {
            recoveries += 1;
        }
    }
    assert_eq!(recoveries, 1);
    assert!(!child.running);
    assert_eq!(child.stated_changed_at, 3);
}

#[test]
fn crash_before_the_checkpoint_fails_the_start_with_the_diagnostics() {
    let mut child = running(CoreType::Mihomo);
    child.on_event(CommandEvent::Stderr("bad config".to_string()), 2);
    let step = child.on_event(crash(), 3);
    assert_eq!(
        step.reply,
        Some(Err(CoreError {
            kind: ErrorKind::AbnormalTermination,
            message: "core terminated with status: exit 1\nbad config".to_string(),
        }))
    );
    assert!(step.recover);
}

#[test]
fn crash_with_kill_intent_does_not_recover() {
    let mut child = running(CoreType::Mihomo);
    child.on_event(CommandEvent::DelayCheckpointPass, 1);
    child.kill_flag = true;
    let step = child.on_event(crash(), 3);
    assert!(!step.recover);
    assert!(step.finished);
    assert_eq!(step.reply, None);
    assert_eq!(child.stated_changed_at, 3);
}

#[test]
fn graceful_end_is_silent() {
    let mut child = running(CoreType::Mihomo);
    let step = child.on_event(
        CommandEvent::Terminated {
            status: ExitStatus { code: Some(0), signal: Some(15) },
            detail: "signal 15".to_string(),
        },
        4,
    );
    assert_eq!(step, DrainStep { log: None, reply: None, recover: false, finished: true });
    assert!(!child.running && !child.draining && !child.answered);
    assert_eq!(child.stated_changed_at, 4);
}

#[test]
fn reports_of_a_process_that_is_not_read_change_nothing() {
    let mut idle = child(CoreType::Mihomo);
    let before = child(CoreType::Mihomo);
    let step = idle.on_event(crash(), 4);
    assert_eq!(step, DrainStep { log: None, reply: None, recover: false, finished: true });
    assert_eq!(idle, before);
}
