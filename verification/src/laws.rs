//! What holds of the supervisor whatever it is asked and whatever the
//! outside answers.

use vstd::prelude::*;
use crate::action::{ActionView, CheckReportView, OutcomeView};
use crate::error::{CoreErrorView, ErrorKind};
use crate::event::{CommandEventView, ExitStatus};
use crate::instance::{ChildView, InstanceView, ERR_LINES};
use crate::lifecycle::{RestartRequestView, StartRequestView, StopRequest};
use crate::manager::{
    spec_check_config, Goal, ManagerView, Phase, PUSH_ATTEMPTS, PUSH_SPACING_MS,
    RECOVER_BACKOFF_MS,
};
use crate::run_type::RunType;
use crate::state::{CoreState, CoreType, ServiceStatus};
use crate::text::{last_of, lemma_last_of_push};

verus! {

/// The instance after `n` stops in a row.
pub open spec fn after_stops(instance: InstanceView, n: nat) -> InstanceView
    decreases n,
{
    if n == 0 {
        instance
    } else {
        after_stops(instance.stop().0, (n - 1) as nat)
    }
}

/// However often a child that does not run is asked to stop, each stop
/// fails because the engine is already stopped, and the instance stays as it
/// was.
pub proof fn law_stop_of_stopped(instance: InstanceView, n: nat)
    requires
        instance matches InstanceView::Child(child) && !child.running,
    ensures
        after_stops(instance, n) == instance,
        instance.state(None) == CoreState::Stopped(None),
        instance.stop().0 == instance,
        instance.stop().1 matches Err(e) && e.kind == ErrorKind::AlreadyStopped,
    decreases n,
{
    if n > 0 {
        law_stop_of_stopped(instance, (n - 1) as nat);
    }
}

/// A stop that is carried through: begun, and ended with the outcome of
/// what it asked for. Then the start.
pub open spec fn stop_then_start(instance: InstanceView, outcome: Result<(), Seq<char>>, now: i64) -> (
    InstanceView,
    Result<StartRequestView, CoreErrorView>,
) {
    match instance.stop().1 {
        Err(e) => (instance.stop().0, Err(e)),
        Ok(_) => instance.stop().0.restart_after_stop(outcome, now),
    }
}

/// A restart that is carried through.
pub open spec fn restart_through(
    instance: InstanceView,
    remote: Option<ServiceStatus>,
    outcome: Result<(), Seq<char>>,
    now: i64,
) -> (InstanceView, Result<StartRequestView, CoreErrorView>) {
    match instance.restart(remote).1 {
        RestartRequestView::Start(request) => (instance.restart(remote).0, Ok(request)),
        RestartRequestView::StopFirst(_) => instance.restart(remote).0.restart_after_stop(
            outcome,
            now,
        ),
    }
}

/// The restart of an engine that runs is its stop followed by its start:
/// the same instance results and the same is asked of the outside; a stop
/// that fails ends the restart with its failure, and nothing is started.
pub proof fn law_restart_is_stop_then_start(
    instance: InstanceView,
    remote: Option<ServiceStatus>,
    outcome: Result<(), Seq<char>>,
    now: i64,
)
    requires
        instance.state(remote) is Running,
    ensures
        restart_through(instance, remote, outcome, now) == stop_then_start(instance, outcome, now),
        instance.stop().1 is Ok,
        instance.stop().0.stopped(outcome, now).1 matches Err(e) ==> restart_through(
            instance,
            remote,
            outcome,
            now,
        ).1 == Err::<StartRequestView, CoreErrorView>(e),
{
}

/// The restart of an engine that does not run is its start.
pub proof fn law_restart_of_stopped_is_start(instance: InstanceView, remote: Option<ServiceStatus>)
    requires
        !(instance.state(remote) is Running),
    ensures
        instance.restart(remote).0 == instance.start().0,
        instance.restart(remote).1 == RestartRequestView::Start(instance.start().1),
{
}

/// How many recoveries a run of reports of one process triggers; each
/// report comes with the time at which it is taken.
pub open spec fn recoveries(child: ChildView, reports: Seq<(CommandEventView, i64)>) -> nat
    decreases reports.len(),
{
    if reports.len() == 0 {
        0
    } else {
        let step = child.on_event(reports[0].0, reports[0].1);
        (if step.1.recover {
            1nat
        } else {
            0nat
        }) + recoveries(step.0, reports.skip(1))
    }
}

/// Once the kill flag is set, no report of the process triggers a
/// recovery, however the process ends.
pub proof fn law_kill_intent_suppresses_recovery(
    child: ChildView,
    reports: Seq<(CommandEventView, i64)>,
)
    requires
        child.kill_flag,
    ensures
        recoveries(child, reports) == 0,
    decreases reports.len(),
{
    if reports.len() > 0 {
        let step = child.on_event(reports[0].0, reports[0].1);
        assert(step.0.kill_flag);
        law_kill_intent_suppresses_recovery(step.0, reports.skip(1));
    }
}

/// The reports of a process that is not read from trigger no recovery.
pub proof fn law_no_recovery_after_the_end(child: ChildView, reports: Seq<(CommandEventView, i64)>)
    requires
        !child.draining,
    ensures
        recoveries(child, reports) == 0,
    decreases reports.len(),
{
    if reports.len() > 0 {
        law_no_recovery_after_the_end(child, reports.skip(1));
    }
}

/// A process that ends with a failure while the kill flag is not set
/// triggers one recovery, and whatever is reported of it afterwards
/// triggers no second one.
pub proof fn law_crash_recovers_once(
    child: ChildView,
    status: ExitStatus,
    detail: Seq<char>,
    now: i64,
    later: Seq<(CommandEventView, i64)>,
)
    requires
        child.draining,
        !child.kill_flag,
        !status.spec_is_graceful(),
    ensures
        child.on_event(CommandEventView::Terminated { status, detail }, now).1.recover,
        recoveries(
            child,
            seq![(CommandEventView::Terminated { status, detail }, now)] + later,
        ) == 1,
{
    let end = (CommandEventView::Terminated { status, detail }, now);
    let reports = seq![end] + later;
    assert(reports[0] == end);
    assert(reports.skip(1) =~= later);
    law_no_recovery_after_the_end(child.on_event(end.0, end.1).0, later);
}

/// No run of reports of one process triggers more than one recovery.
pub proof fn law_at_most_one_recovery(child: ChildView, reports: Seq<(CommandEventView, i64)>)
    ensures
        recoveries(child, reports) <= 1,
    decreases reports.len(),
{
    if reports.len() > 0 {
        let step = child.on_event(reports[0].0, reports[0].1);
        if step.1.recover {
            law_no_recovery_after_the_end(step.0, reports.skip(1));
        } else {
            law_at_most_one_recovery(step.0, reports.skip(1));
        }
    }
}

/// A change of variant whose configuration the engine refuses ends with
/// the validation failure after the engine's output was logged. Up to
/// there the supervisor has asked for the staging, the generation and the
/// check only: nothing was committed to the settings, and the current
/// engine was neither stopped nor replaced.
pub proof fn law_refused_change_changes_nothing(
    manager: ManagerView,
    variant: CoreType,
    staged: Result<(), Seq<char>>,
    report: CheckReportView,
    logged: Result<(), Seq<char>>,
    t1: i64,
    t2: i64,
    t3: i64,
    t4: i64,
)
    requires
        manager.phase == Phase::Idle,
        !report.success,
    ensures
        ({
            let s1 = manager.change_core(Some(variant));
            let s2 = s1.0.resume(OutcomeView::Done(staged), t1);
            let s3 = s2.0.resume(OutcomeView::Done(Ok(())), t2);
            let s4 = s3.0.resume(OutcomeView::Checked(Ok(report)), t3);
            let s5 = s4.0.resume(OutcomeView::Done(logged), t4);
            &&& s1.1 == ActionView::StageVariant(variant)
            &&& s2.1 == ActionView::GenerateConfig
            &&& s3.1 == ActionView::CheckConfig
            &&& s4.1 == (ActionView::AppendLog { text: report.output })
            &&& s5.1 == ActionView::finish(spec_check_config(Ok(report)))
            &&& spec_check_config(Ok(report)) matches Err(e) && e.kind == ErrorKind::ValidationFailure
            &&& s1.0.instance == manager.instance
            &&& s2.0.instance == manager.instance
            &&& s3.0.instance == manager.instance
            &&& s4.0.instance == manager.instance
            &&& s5.0.instance == manager.instance
            &&& s5.0.phase == Phase::Idle
        }),
{
}

/// The supervisor after a push has failed for the given reason and the
/// wait after it is over, and the two actions that it handed out: the wait
/// and the next push.
pub open spec fn failed_push(manager: ManagerView, why: Seq<char>, t1: i64, t2: i64) -> (
    ManagerView,
    ActionView,
    ActionView,
) {
    let failed = manager.resume(OutcomeView::Done(Err(why)), t1);
    let waited = failed.0.resume(OutcomeView::Elapsed, t2);
    (waited.0, failed.1, waited.1)
}

/// The wait that follows a push that failed for the given reason.
pub open spec fn wait_after(why: Seq<char>) -> ActionView {
    ActionView::Sleep {
        millis: PUSH_SPACING_MS,
        error: Some(CoreErrorView { kind: ErrorKind::PushFailure, message: why }),
    }
}

/// A configuration that the engine never accepts is pushed five times and
/// no more: each of the first four failures is followed by a wait of a
/// quarter of a second and the next push of the same configuration, and the
/// fifth ends the update with its own reason.
pub proof fn law_five_pushes(
    manager: ManagerView,
    path: Seq<char>,
    whys: Seq<Seq<char>>,
    t: i64,
)
    requires
        manager.phase == Phase::UpdateLocate,
        whys.len() == 5,
    ensures
        ({
            let round1 = manager.resume(OutcomeView::Path(Ok(path)), t);
            let round2 = failed_push(round1.0, whys[0], t, t);
            let round3 = failed_push(round2.0, whys[1], t, t);
            let round4 = failed_push(round3.0, whys[2], t, t);
            let round5 = failed_push(round4.0, whys[3], t, t);
            let end = round5.0.resume(OutcomeView::Done(Err(whys[4])), t);
            let push = ActionView::PushConfig { path };
            &&& round1.1 == push && round2.2 == push && round3.2 == push && round4.2 == push && round5.2 == push
            &&& round2.1 == wait_after(whys[0]) && round3.1 == wait_after(whys[1])
            &&& round4.1 == wait_after(whys[2]) && round5.1 == wait_after(whys[3])
            &&& end.1 == ActionView::finish(
                Err(CoreErrorView { kind: ErrorKind::PushFailure, message: whys[4] }),
            )
            &&& end.0.phase == Phase::Idle
            &&& end.0.resume(OutcomeView::Elapsed, t).1 is Finish
        }),
{
    let round1 = manager.resume(OutcomeView::Path(Ok(path)), t);
    let round2 = failed_push(round1.0, whys[0], t, t);
    let round3 = failed_push(round2.0, whys[1], t, t);
    let round4 = failed_push(round3.0, whys[2], t, t);
    let round5 = failed_push(round4.0, whys[3], t, t);
    assert(round1.0.attempt == 1);
    assert(round2.0.attempt == 2);
    assert(round3.0.attempt == 3);
    assert(round4.0.attempt == 4);
    assert(round5.0.attempt == 5);
}

/// A push that the engine accepts ends the update at once, at whichever
/// attempt.
pub proof fn law_accepted_push_ends_update(manager: ManagerView, t: i64)
    requires
        manager.phase == Phase::UpdatePush,
    ensures
        manager.resume(OutcomeView::Done(Ok(())), t).1 == ActionView::finish(Ok(())),
        manager.resume(OutcomeView::Done(Ok(())), t).0.phase == Phase::Idle,
{
}

/// The count of the pushes stays within its bound.
pub proof fn law_attempts_bounded(manager: ManagerView, outcome: OutcomeView, t: i64)
    requires
        manager.attempt <= PUSH_ATTEMPTS,
    ensures
        manager.resume(outcome, t).0.attempt <= PUSH_ATTEMPTS,
{
}

/// The status of an engine in the service's charge, when the service does
/// not answer, is that of a stopped engine at time 0; of an instance alone
/// and of the supervisor that holds it.
pub proof fn law_status_without_service(
    manager: ManagerView,
    enable_service_mode: Option<bool>,
    service_connected: bool,
)
    requires
        manager.instance matches Some(InstanceView::Service { .. }),
    ensures
        manager.instance->0.status(None) == (CoreState::Stopped(None), 0i64),
        manager.instance->0.state(None) == CoreState::Stopped(None),
        manager.status(None, enable_service_mode, service_connected) == (
            CoreState::Stopped(None),
            0i64,
            RunType::Service,
        ),
{
}

/// An instance leaves its place as the current one only together with the
/// instance that takes it: after any step of a run the supervisor holds an
/// engine if it held one before.
pub proof fn law_run_keeps_an_engine(manager: ManagerView, outcome: OutcomeView, t: i64)
    requires
        manager.instance is Some,
        manager.phase == Phase::RunQuery || manager.phase == Phase::RunStop || manager.phase
            == Phase::RunPort || manager.phase == Phase::RunMode || manager.phase
            == Phase::RunLocate || manager.phase == Phase::RunStart,
    ensures
        manager.resume(outcome, t).0.instance is Some,
{
}

/// Whether a run of the engine is in flight.
pub open spec fn in_run(phase: Phase) -> bool {
    phase == Phase::RunQuery || phase == Phase::RunStop || phase == Phase::RunPort || phase
        == Phase::RunMode || phase == Phase::RunLocate || phase == Phase::RunStart
}

/// A recovery whose run fails does not give up: it waits five seconds,
/// ends without a failure of its own, and orders the next recovery.
pub proof fn law_failed_recovery_tries_again(manager: ManagerView, e: CoreErrorView, t: i64)
    requires
        manager.goal == Goal::Recover,
    ensures
        manager.fail_run(e).1 == (ActionView::Sleep {
            millis: RECOVER_BACKOFF_MS,
            error: Some(e),
        }),
        RECOVER_BACKOFF_MS == 5000,
        manager.fail_run(e).0.resume(OutcomeView::Elapsed, t).1 == (ActionView::Finish {
            result: Ok(()),
            recover_again: true,
        }),
        manager.fail_run(e).0.resume(OutcomeView::Elapsed, t).0.phase == Phase::Idle,
{
}

/// Only a recovery orders a recovery: no other step of the supervisor ends
/// an operation with that order.
pub proof fn law_only_recovery_recovers_again(manager: ManagerView, outcome: OutcomeView, t: i64)
    requires
        manager.resume(outcome, t).1 matches ActionView::Finish { recover_again, .. }
            && recover_again,
    ensures
        manager.phase == Phase::RecoverSleep,
        outcome == OutcomeView::Elapsed,
{
}

/// A change of variant whose run fails drops the staged settings and runs
/// the engine under the settings as they were, keeping the failure.
pub proof fn law_failed_change_rolls_back(
    manager: ManagerView,
    e: CoreErrorView,
    dropped: Result<(), Seq<char>>,
    t: i64,
)
    requires
        manager.goal == Goal::Change,
    ensures
        manager.fail_run(e).1 == ActionView::DiscardSettings,
        ({
            let rollback = manager.fail_run(e).0.resume(OutcomeView::Done(dropped), t);
            &&& rollback.0.goal == Goal::Rollback
            &&& rollback.0.failure == Some(e)
            &&& in_run(rollback.0.phase)
            &&& rollback.1 is QueryService || rollback.1 is Stop || rollback.1 is CheckPort
        }),
{
}

/// While the engine is run after a change that failed, each step either
/// goes on with the run, keeping the failure of the change, or ends the
/// operation with a failure: that of the change where the run succeeded,
/// that of the run where it did not. The settings are never committed.
pub proof fn law_rollback_never_succeeds(manager: ManagerView, outcome: OutcomeView, t: i64)
    requires
        manager.goal == Goal::Rollback,
        manager.failure is Some,
        in_run(manager.phase),
    ensures
        ({
            let next = manager.resume(outcome, t);
            ||| in_run(next.0.phase) && next.0.goal == Goal::Rollback && next.0.failure
                == manager.failure && !(next.1 is Finish) && !(next.1 is CommitSettings)
            ||| next.1 matches ActionView::Finish { result, .. } && result is Err
        }),
        manager.phase == Phase::RunStart ==> manager.resume(OutcomeView::Started(Ok(())), t).1
            == ActionView::finish(Err(manager.failure->0)),
{
}

/// The settings are committed only at the end of a change of variant whose
/// run has succeeded.
pub proof fn law_commit_only_after_success(manager: ManagerView, outcome: OutcomeView, t: i64)
    requires
        manager.resume(outcome, t).1 is CommitSettings,
    ensures
        manager.goal == Goal::Change,
        manager.phase == Phase::RunStart,
        (outcome matches OutcomeView::Started(r) && r is Ok) || (outcome matches OutcomeView::Done(
            r,
        ) && r is Ok),
{
}

/// When a stop asks for the termination of a process, the kill flag of the
/// instance is already set: the end of the process cannot be taken for a
/// crash.
pub proof fn law_kill_intent_precedes_termination(instance: InstanceView)
    requires
        instance.stop().1 matches Ok(StopRequest::Kill { .. }),
    ensures
        instance.stop().0 matches InstanceView::Child(child) && child.kill_flag,
        instance.stop().1 == Ok::<StopRequest, CoreErrorView>(
            StopRequest::Kill { id: instance->Child_0.id },
        ),
{
}

/// A run does not replace an engine that runs: it stops it first, and where
/// the stop fails, the run ends with that failure and the engine stays the
/// current one.
pub proof fn law_run_stops_before_replacing(
    manager: ManagerView,
    why: Seq<char>,
    t: i64,
)
    requires
        manager.phase == Phase::Idle,
        manager.instance matches Some(InstanceView::Child(child)) && child.running,
    ensures
        ({
            let begun = manager.run_core();
            let stopped = begun.0.resume(OutcomeView::Done(Ok(())), t);
            let stuck = begun.0.resume(OutcomeView::Done(Err(why)), t);
            &&& begun.1 == ActionView::Stop(StopRequest::Kill { id: manager.instance->0->Child_0.id })
            &&& begun.0.instance == Some(manager.instance->0.stop().0)
            &&& stopped.1 == ActionView::CheckPort
            &&& stopped.0.instance->0.state(None) == CoreState::Stopped(None)
            &&& stuck.1 == ActionView::finish(
                Err(CoreErrorView { kind: ErrorKind::TerminationFailure, message: why }),
            )
            &&& stuck.0.instance == begun.0.instance
        }),
{
}

/// The child after a run of lines of standard error, each taken at the
/// given time.
pub open spec fn after_lines(child: ChildView, lines: Seq<Seq<char>>, t: i64) -> ChildView
    decreases lines.len(),
{
    if lines.len() == 0 {
        child
    } else {
        after_lines(child, lines.drop_last(), t).on_event(
            CommandEventView::Stderr(lines.last()),
            t,
        ).0
    }
}

/// While a process is read from, the diagnostic buffer holds the last six
/// lines of its standard error, and nothing else of the instance changes.
pub proof fn law_buffer_holds_last_lines(child: ChildView, lines: Seq<Seq<char>>, t: i64)
    requires
        child.draining,
        child.err_buf.len() <= ERR_LINES,
    ensures
        after_lines(child, lines, t) == (ChildView {
            err_buf: last_of(child.err_buf + lines, ERR_LINES as nat),
            ..child
        }),
        after_lines(child, lines, t).err_buf.len() <= ERR_LINES,
        ERR_LINES == 6,
    decreases lines.len(),
{
    if lines.len() == 0 {
        assert(child.err_buf + lines =~= child.err_buf);
    } else {
        let before = lines.drop_last();
        law_buffer_holds_last_lines(child, before, t);
        lemma_last_of_push(child.err_buf + before, lines.last(), ERR_LINES as nat);
        assert((child.err_buf + before).push(lines.last()) =~= child.err_buf + lines);
    }
}

/// No report makes the diagnostic buffer longer than six lines.
pub proof fn law_buffer_stays_bounded(child: ChildView, event: CommandEventView, t: i64)
    requires
        child.err_buf.len() <= ERR_LINES,
    ensures
        child.on_event(event, t).0.err_buf.len() <= ERR_LINES,
        child.spawned(Ok(())).0.err_buf.len() == 0,
{
}

/// Nothing is launched before the port was found free: a start is handed
/// out only by the step that builds the new instance, that step follows only
/// the resolution of the mode, and the mode is resolved only after the port
/// was found free.
pub proof fn law_start_follows_free_port(manager: ManagerView, outcome: OutcomeView, t: i64)
    ensures
        manager.resume(outcome, t).1 is Start ==> manager.phase == Phase::RunLocate,
        manager.resume(outcome, t).0.phase == Phase::RunLocate ==> manager.phase == Phase::RunMode,
        manager.resume(outcome, t).0.phase == Phase::RunMode ==> manager.phase == Phase::RunPort
            && (outcome matches OutcomeView::Done(r) && r is Ok),
{
}

/// A port that is taken ends the run before any process is touched: the
/// current engine stays as it is, and nothing is stopped or started.
pub proof fn law_taken_port_touches_nothing(manager: ManagerView, why: Seq<char>, t: i64)
    requires
        manager.phase == Phase::RunPort,
    ensures
        ({
            let next = manager.resume(OutcomeView::Done(Err(why)), t);
            &&& next.0.instance == manager.instance
            &&& !(next.1 is Start) && !(next.1 is Stop)
            &&& manager.goal == Goal::Run ==> next.1 == ActionView::finish(
                Err(CoreErrorView { kind: ErrorKind::PortUnavailable, message: why }),
            )
        }),
{
}

} // verus!
