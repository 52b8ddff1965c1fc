use koordinator::config::{KoordinatorSpec, SpecFields};
use koordinator::duration::Duration;
use koordinator::events::{CommandToProcess, Event, ExitStatus};
use koordinator::numbers::to_signed;
use koordinator::process::{
    child_command, kill_target, Phase, ProcessAction, ProcessEvent, ProcessTask, Report,
};
use koordinator::signals::SignalNumbers;

const DELAY: Duration = Duration { secs: 10, nanos: 0 };
const TIMEOUT: Duration = Duration { secs: 30, nanos: 0 };
const EXIT_3: ExitStatus = ExitStatus { code: Some(3) };

fn task(term_signal: &str) -> ProcessTask {
    let config = KoordinatorSpec::from_fields(SpecFields {
        start_deps: None,
        stop_deps: None,
        stop_delay: Some("10s".to_string()),
        when_stop_dep_exited: None,
        term_signal: Some(term_signal.to_string()),
        term_timeout: None,
        killed_by_stop_dep_exit_code: None,
        terminated_by_stop_dep_exit_code: None,
    })
    .unwrap();
    ProcessTask::new(&config, &SignalNumbers::of_this_platform())
}

fn running(term_signal: &str) -> ProcessTask {
    let mut task = task(term_signal);
    assert_eq!(
        task.step(ProcessEvent::Command(CommandToProcess::Start)),
        ProcessAction::Spawn
    );
    assert_eq!(task.step(ProcessEvent::Done), ProcessAction::Await);
    assert_eq!(task.phase, Phase::Running);
    task
}

#[test]
fn the_task_begins_with_its_configuration() {
    let task = task("SIGQUIT");
    assert_eq!(task.term_signal, libc::SIGQUIT);
    assert_eq!(task.stop_delay, DELAY);
    assert_eq!(task.sigkill, libc::SIGKILL);
    assert_eq!(task.phase, Phase::AwaitingStart);
}

#[test]
fn an_unknown_termination_signal_of_the_task_is_sigterm() {
    assert_eq!(task("none").term_signal, libc::SIGTERM);
}

#[test]
fn a_stop_before_the_start_is_ignored() {
    let mut task = task("SIGTERM");
    let before = task;
    assert_eq!(
        task.step(ProcessEvent::Command(CommandToProcess::Stop(15, TIMEOUT))),
        ProcessAction::Await
    );
    assert_eq!(task, before);
}

#[test]
fn the_child_is_not_started_when_no_command_can_come_any_more() {
    let mut task = task("SIGTERM");
    task.step(ProcessEvent::Command(CommandToProcess::Stop(15, TIMEOUT)));
    assert_eq!(task.step(ProcessEvent::CommandsClosed), ProcessAction::End);
    assert_eq!(task.phase, Phase::Finished);
    for event in [
        ProcessEvent::Command(CommandToProcess::Start),
        ProcessEvent::CommandsClosed,
        ProcessEvent::Signal(15),
        ProcessEvent::Exited(EXIT_3),
        ProcessEvent::Done,
    ] {
        assert_eq!(task.step(event), ProcessAction::Await);
    }
}

#[test]
fn one_end_is_reported() {
    let stop = ProcessEvent::Command(CommandToProcess::Stop(15, TIMEOUT));
    let start = ProcessEvent::Command(CommandToProcess::Start);
    let reports = |events: &[ProcessEvent]| {
        let mut task = task("SIGTERM");
        let mut reports = vec![];
        for event in events {
            if let ProcessAction::Report(report) = task.step(*event) {
                reports.push(report);
            }
        }
        reports
    };
    // A stop that comes before the start is not acted on.
    assert_eq!(
        reports(&[
            stop,
            start,
            ProcessEvent::Done,
            ProcessEvent::Exited(EXIT_3),
            ProcessEvent::Exited(EXIT_3),
        ]),
        vec![Report::Exited(EXIT_3)]
    );
    // One that comes after it is, even when the commands have ended.
    assert_eq!(
        reports(&[
            start,
            ProcessEvent::Done,
            stop,
            ProcessEvent::CommandsClosed,
            ProcessEvent::Done,
            ProcessEvent::Exited(EXIT_3),
            stop,
            ProcessEvent::TimedOut,
        ]),
        vec![Report::Terminated(EXIT_3)]
    );
}

#[test]
fn the_child_is_started_at_most_once() {
    let mut task = running("SIGTERM");
    assert_eq!(
        task.step(ProcessEvent::Command(CommandToProcess::Start)),
        ProcessAction::Await
    );
    assert_eq!(task.step(ProcessEvent::CommandsClosed), ProcessAction::Await);
    assert_eq!(task.phase, Phase::Running);
}

#[test]
fn nothing_is_done_before_the_child_is_started() {
    let mut task = task("SIGTERM");
    for event in [
        ProcessEvent::Signal(15),
        ProcessEvent::Exited(EXIT_3),
        ProcessEvent::TimedOut,
        ProcessEvent::Done,
    ] {
        assert_eq!(task.step(event), ProcessAction::Await);
    }
    assert_eq!(task.phase, Phase::AwaitingStart);
}

#[test]
fn the_termination_signal_is_delayed() {
    let mut task = running("SIGINT");
    let before = task;
    assert_eq!(
        task.step(ProcessEvent::Signal(libc::SIGINT)),
        ProcessAction::Sleep(DELAY)
    );
    assert_eq!(task.step(ProcessEvent::Done), ProcessAction::Kill(libc::SIGINT));
    assert_eq!(task.step(ProcessEvent::Done), ProcessAction::Await);
    assert_eq!(task, before);
}

#[test]
fn other_signals_are_forwarded_at_once() {
    let mut task = running("SIGINT");
    let before = task;
    assert_eq!(
        task.step(ProcessEvent::Signal(libc::SIGTERM)),
        ProcessAction::Kill(libc::SIGTERM)
    );
    assert_eq!(task.step(ProcessEvent::Done), ProcessAction::Await);
    assert_eq!(task, before);
}

#[test]
fn a_child_that_stops_in_time_is_terminated() {
    let mut task = running("SIGTERM");
    assert_eq!(
        task.step(ProcessEvent::Command(CommandToProcess::Stop(12, TIMEOUT))),
        ProcessAction::Kill(12)
    );
    assert_eq!(task.step(ProcessEvent::Done), ProcessAction::AwaitExit(TIMEOUT));
    assert_eq!(
        task.step(ProcessEvent::Exited(EXIT_3)),
        ProcessAction::Report(Report::Terminated(EXIT_3))
    );
}

#[test]
fn a_child_that_does_not_stop_in_time_is_killed() {
    let mut task = running("SIGTERM");
    task.step(ProcessEvent::Command(CommandToProcess::Stop(15, TIMEOUT)));
    task.step(ProcessEvent::Done);
    assert_eq!(
        task.step(ProcessEvent::TimedOut),
        ProcessAction::Kill(libc::SIGKILL)
    );
    assert_eq!(
        task.step(ProcessEvent::Done),
        ProcessAction::Report(Report::Killed)
    );
}

#[test]
fn nothing_is_done_after_the_report() {
    let mut task = running("SIGTERM");
    assert_eq!(
        task.step(ProcessEvent::Exited(EXIT_3)),
        ProcessAction::Report(Report::Exited(EXIT_3))
    );
    for event in [
        ProcessEvent::Signal(15),
        ProcessEvent::Exited(EXIT_3),
        ProcessEvent::Command(CommandToProcess::Stop(15, TIMEOUT)),
        ProcessEvent::TimedOut,
        ProcessEvent::Done,
    ] {
        assert_eq!(task.step(event), ProcessAction::Await);
    }
    assert_eq!(task.phase, Phase::Finished);
}

#[test]
fn reports_tell_the_main_loop() {
    assert!(matches!(
        Report::Exited(EXIT_3).into_event(),
        Event::ChildProcessExited(EXIT_3)
    ));
    assert!(matches!(
        Report::Terminated(EXIT_3).into_event(),
        Event::ChildProcessTerminatedBecauseStopDependency(EXIT_3)
    ));
    assert!(matches!(
        Report::Killed.into_event(),
        Event::ChildProcessKilledBecauseStopDependency
    ));
}

#[test]
fn the_command_is_split_from_its_arguments() {
    let one = vec!["/main-app".to_string()];
    assert_eq!(child_command(&one), ("/main-app".to_string(), vec![]));
    let more: Vec<String> = ["/app", "-a", "-b"].iter().map(|s| s.to_string()).collect();
    assert_eq!(
        child_command(&more),
        ("/app".to_string(), vec!["-a".to_string(), "-b".to_string()])
    );
}

#[test]
fn a_signal_goes_to_the_child_while_it_runs() {
    assert_eq!(kill_target(Some(4711)), Some(4711));
    assert_eq!(kill_target(None), None);
    assert_eq!(kill_target(Some(u32::MAX)), Some(-1));
}

#[test]
fn signed_numbers_have_the_same_bits() {
    assert_eq!(to_signed(0), 0);
    assert_eq!(to_signed(137), 137);
    assert_eq!(to_signed(0x7fff_ffff), i32::MAX);
    assert_eq!(to_signed(0x8000_0000), i32::MIN);
    assert_eq!(to_signed(u32::MAX), -1);
}

#[test]
fn only_signals_that_were_asked_for_are_sent() {
    let mut task = running("SIGTERM");
    let mut sent = vec![];
    for event in [
        ProcessEvent::Signal(libc::SIGHUP),
        ProcessEvent::Done,
        ProcessEvent::Signal(libc::SIGTERM),
        ProcessEvent::Done,
        ProcessEvent::Done,
        ProcessEvent::Command(CommandToProcess::Start),
        ProcessEvent::Command(CommandToProcess::Stop(12, TIMEOUT)),
        ProcessEvent::Done,
        ProcessEvent::TimedOut,
        ProcessEvent::Done,
    ] {
        if let ProcessAction::Kill(number) = task.step(event) {
            sent.push(number);
        }
    }
    assert_eq!(sent, vec![libc::SIGHUP, libc::SIGTERM, 12, libc::SIGKILL]);
}

#[test]
fn a_child_is_killed_only_after_its_time_has_passed() {
    let mut task = running("SIGTERM");
    assert_eq!(task.step(ProcessEvent::TimedOut), ProcessAction::Await);
    assert_eq!(task.phase, Phase::Running);
    task.step(ProcessEvent::Command(CommandToProcess::Stop(15, TIMEOUT)));
    assert_eq!(task.step(ProcessEvent::TimedOut), ProcessAction::Await);
    assert_eq!(task.phase, Phase::Stopping(TIMEOUT));
}

#[test]
fn without_a_command_to_stop_the_child_exits_on_its_own() {
    let mut task = running("SIGTERM");
    task.step(ProcessEvent::Signal(libc::SIGTERM));
    task.step(ProcessEvent::Done);
    task.step(ProcessEvent::Done);
    let killed_by_signal = ExitStatus { code: None };
    assert_eq!(
        task.step(ProcessEvent::Exited(killed_by_signal)),
        ProcessAction::Report(Report::Exited(killed_by_signal))
    );
    assert_eq!(killed_by_signal.exit_code(), 0);
}
