use koordinator::config::{KoordinatorSpec, SpecFields, StopByStopDepHttp, StopDepExitedAction};
use koordinator::coordinator::{Coordinator, CoordinatorAction};
use koordinator::duration::Duration;
use koordinator::events::{CommandToProcess, ContainersStatus, Event, ExitStatus};
use koordinator::pod::{containers_status, ContainerState, ContainerStatus, Pod, PodStatus};
use koordinator::process::{ProcessAction, ProcessEvent, ProcessTask};
use koordinator::signals::SignalNumbers;

const TIMEOUT: Duration = Duration { secs: 30, nanos: 0 };
const START: CoordinatorAction = CoordinatorAction::Send(CommandToProcess::Start);

fn strings(items: &[&str]) -> Vec<String> {
    items.iter().map(|s| s.to_string()).collect()
}

fn fields(start_deps: &[&str], stop_deps: &[&str]) -> SpecFields {
    SpecFields {
        start_deps: Some(strings(start_deps)),
        stop_deps: Some(strings(stop_deps)),
        stop_delay: None,
        when_stop_dep_exited: None,
        term_signal: None,
        term_timeout: None,
        killed_by_stop_dep_exit_code: None,
        terminated_by_stop_dep_exit_code: None,
    }
}

fn coordinator(fields: SpecFields) -> Coordinator {
    let config = KoordinatorSpec::from_fields(fields).unwrap();
    Coordinator::new(config, &SignalNumbers::of_this_platform())
}

fn status(ready: &[&str], terminated: &[&str]) -> Option<Event> {
    Some(Event::ContainersStatusChanged(ContainersStatus {
        ready_containers: strings(ready),
        terminated_containers: strings(terminated),
    }))
}

fn stop(signal: i32) -> CoordinatorAction {
    CoordinatorAction::Send(CommandToProcess::Stop(signal, TIMEOUT))
}

#[test]
fn the_main_container_starts_once_the_sidecar_is_ready() {
    let mut main = coordinator(fields(&["cloud-sql-proxy"], &[]));
    assert_eq!(main.step(status(&[], &[])), CoordinatorAction::Wait);
    assert_eq!(main.step(status(&["main-container"], &[])), CoordinatorAction::Wait);
    assert_eq!(main.step(status(&["cloud-sql-proxy"], &[])), START);
}

#[test]
fn the_sidecar_stops_once_the_main_container_has_exited() {
    let mut sidecar = coordinator(fields(&[], &["main-container"]));
    assert_eq!(sidecar.step(status(&[], &[])), START);
    assert_eq!(sidecar.step(status(&["main-container"], &[])), CoordinatorAction::Wait);
    assert_eq!(sidecar.step(status(&[], &["main-container"])), stop(libc::SIGTERM));
}

#[test]
fn all_start_dependencies_have_to_be_ready_at_the_same_time() {
    let mut c = coordinator(fields(&["a", "b"], &[]));
    assert_eq!(c.step(status(&["a"], &[])), CoordinatorAction::Wait);
    assert_eq!(c.step(status(&["b"], &[])), CoordinatorAction::Wait);
    assert_eq!(c.step(status(&["b", "x", "a"], &[])), START);
}

#[test]
fn the_start_is_commanded_at_most_once() {
    let mut c = coordinator(fields(&["a"], &[]));
    assert!(!c.has_started());
    assert_eq!(c.step(status(&["a"], &[])), START);
    assert!(c.has_started());
    assert_eq!(c.step(status(&["a"], &[])), CoordinatorAction::Wait);
    assert_eq!(c.step(status(&[], &[])), CoordinatorAction::Wait);
    assert_eq!(c.step(status(&["a"], &[])), CoordinatorAction::Wait);
}

#[test]
fn no_stop_is_commanded_before_the_start() {
    let mut c = coordinator(fields(&["a"], &["b"]));
    assert_eq!(c.step(status(&[], &["b"])), CoordinatorAction::Wait);
    assert_eq!(c.step(status(&["a"], &["b"])), START);
    assert_eq!(c.step(status(&["a"], &["b"])), stop(libc::SIGTERM));
    assert_eq!(c.step(status(&["a"], &["b"])), stop(libc::SIGTERM));
}

#[test]
fn without_stop_dependencies_nothing_is_stopped() {
    let mut c = coordinator(fields(&[], &[]));
    assert_eq!(c.step(status(&[], &["x"])), START);
    assert_eq!(c.step(status(&[], &["x"])), CoordinatorAction::Wait);
}

#[test]
fn more_containers_hold_nothing_up() {
    let mut c = coordinator(fields(&["a"], &["b"]));
    assert_eq!(c.step(status(&["x", "a", "y"], &[])), START);
    assert_eq!(c.step(status(&[], &["x", "b", "y"])), stop(libc::SIGTERM));
}

#[test]
fn the_configured_signal_stops_the_child() {
    let mut c = coordinator(SpecFields {
        when_stop_dep_exited: Some(StopDepExitedAction::Signal(12)),
        term_signal: Some("SIGINT".to_string()),
        term_timeout: Some("2s".to_string()),
        ..fields(&[], &["b"])
    });
    assert_eq!(c.step(status(&[], &[])), START);
    assert_eq!(
        c.step(status(&[], &["b"])),
        CoordinatorAction::Send(CommandToProcess::Stop(12, Duration { secs: 2, nanos: 0 }))
    );
}

#[test]
fn the_termination_signal_stops_the_child_by_default() {
    let mut c = coordinator(SpecFields {
        term_signal: Some("SIGUSR1".to_string()),
        ..fields(&[], &["b"])
    });
    assert_eq!(c.step(status(&[], &[])), START);
    assert_eq!(c.step(status(&[], &["b"])), stop(libc::SIGUSR1));
}

#[test]
fn the_stopped_dependencies_are_listed() {
    let c = coordinator(fields(&[], &["a", "b", "c"]));
    let status = ContainersStatus {
        ready_containers: vec![],
        terminated_containers: strings(&["c", "x", "a"]),
    };
    assert_eq!(c.stopped_deps(&status), strings(&["a", "c"]));
}

#[test]
fn http_is_asked_for_once_a_stop_dependency_has_exited() {
    let mut c = coordinator(SpecFields {
        when_stop_dep_exited: Some(StopDepExitedAction::Http(StopByStopDepHttp::Get)),
        ..fields(&[], &["b"])
    });
    assert!(!c.asks_for_http(&status(&[], &["b"])));
    assert_eq!(c.step(status(&[], &["b"])), START);
    assert!(c.asks_for_http(&status(&[], &["b"])));
    assert!(!c.asks_for_http(&status(&[], &[])));
    assert!(!c.asks_for_http(&None));
    assert_eq!(c.step(status(&[], &[])), CoordinatorAction::Wait);
}

#[test]
fn only_http_configurations_ask_for_http() {
    let mut c = coordinator(fields(&[], &["b"]));
    assert_eq!(c.step(status(&[], &[])), START);
    assert!(!c.asks_for_http(&status(&[], &["b"])));
}

#[test]
fn the_childs_own_exit_code_is_passed_on() {
    let mut c = coordinator(fields(&[], &[]));
    let exited = |code| Some(Event::ChildProcessExited(ExitStatus { code }));
    assert_eq!(c.step(exited(Some(3))), CoordinatorAction::Exit(3));
    assert_eq!(c.step(exited(None)), CoordinatorAction::Exit(0));
}

#[test]
fn a_terminated_child_gives_the_configured_exit_code() {
    let terminated =
        |code| Some(Event::ChildProcessTerminatedBecauseStopDependency(ExitStatus { code }));
    let mut by_default = coordinator(fields(&[], &[]));
    assert_eq!(by_default.step(terminated(Some(143))), CoordinatorAction::Exit(0));
    let mut configured = coordinator(SpecFields {
        terminated_by_stop_dep_exit_code: Some(7),
        ..fields(&[], &[])
    });
    assert_eq!(configured.step(terminated(Some(143))), CoordinatorAction::Exit(7));
    let mut of_the_child = coordinator(SpecFields {
        terminated_by_stop_dep_exit_code: Some(-1),
        ..fields(&[], &[])
    });
    assert_eq!(of_the_child.step(terminated(Some(143))), CoordinatorAction::Exit(143));
    assert_eq!(of_the_child.step(terminated(None)), CoordinatorAction::Exit(0));
}

#[test]
fn a_killed_child_gives_the_configured_exit_code() {
    let killed = || Some(Event::ChildProcessKilledBecauseStopDependency);
    let mut by_default = coordinator(fields(&[], &[]));
    assert_eq!(by_default.step(killed()), CoordinatorAction::Exit(137));
    let mut configured = coordinator(SpecFields {
        killed_by_stop_dep_exit_code: Some(u32::MAX),
        ..fields(&[], &[])
    });
    assert_eq!(configured.step(killed()), CoordinatorAction::Exit(-1));
}

#[test]
fn the_end_of_the_messages_is_a_success() {
    let mut c = coordinator(fields(&["a"], &[]));
    assert_eq!(c.step(None), CoordinatorAction::Exit(0));
}

/// Feeds a child process that runs the command of the main loop, and hands back the exit
/// code that its end gives.
fn exit_code_after_stop(c: &mut Coordinator, task: &mut ProcessTask, end: &[ProcessEvent]) -> i32 {
    let command = match c.step(status(&[], &["b"])) {
        CoordinatorAction::Send(command) => command,
        other => panic!("{:?}", other),
    };
    let mut action = task.step(ProcessEvent::Command(command));
    for event in end {
        action = task.step(*event);
    }
    match action {
        ProcessAction::Report(report) => match c.step(Some(report.into_event())) {
            CoordinatorAction::Exit(code) => code,
            other => panic!("{:?}", other),
        },
        other => panic!("{:?}", other),
    }
}

#[test]
fn a_stop_dependency_ends_the_koordinator() {
    let signals = SignalNumbers::of_this_platform();
    for (end, code) in [
        (
            vec![ProcessEvent::Done, ProcessEvent::Exited(ExitStatus { code: Some(143) })],
            143,
        ),
        (
            vec![ProcessEvent::Done, ProcessEvent::TimedOut, ProcessEvent::Done],
            137,
        ),
    ] {
        let config = KoordinatorSpec::from_fields(SpecFields {
            terminated_by_stop_dep_exit_code: Some(-1),
            ..fields(&["a"], &["b"])
        })
        .unwrap();
        let mut task = ProcessTask::new(&config, &signals);
        let mut c = Coordinator::new(config, &signals);
        assert_eq!(c.step(status(&["a"], &[])), START);
        assert_eq!(
            task.step(ProcessEvent::Command(CommandToProcess::Start)),
            ProcessAction::Spawn
        );
        task.step(ProcessEvent::Done);
        assert_eq!(exit_code_after_stop(&mut c, &mut task, &end), code);
    }
}

#[test]
fn there_is_one_termination_signal() {
    let signals = SignalNumbers::of_this_platform();
    let config = KoordinatorSpec::from_fields(SpecFields {
        term_signal: Some("SIGHUP".to_string()),
        ..fields(&[], &["b"])
    })
    .unwrap();
    let task = ProcessTask::new(&config, &signals);
    let mut c = Coordinator::new(config, &signals);
    assert_eq!(c.step(status(&[], &[])), START);
    assert_eq!(c.step(status(&[], &["b"])), stop(task.term_signal));
}

#[test]
fn the_child_is_not_started_while_a_dependency_is_not_ready() {
    let signals = SignalNumbers::of_this_platform();
    let config = KoordinatorSpec::from_fields(fields(&["a", "b"], &["c"])).unwrap();
    let mut task = ProcessTask::new(&config, &signals);
    let mut c = Coordinator::new(config, &signals);
    let mut spawned = vec![];
    for message in [
        status(&["a"], &[]),
        status(&["b"], &["c"]),
        status(&["a", "b"], &[]),
        status(&["a", "b"], &[]),
    ] {
        if let CoordinatorAction::Send(command) = c.step(message) {
            spawned.push(task.step(ProcessEvent::Command(command)));
        } else {
            spawned.push(ProcessAction::Await);
        }
    }
    assert_eq!(
        spawned,
        vec![
            ProcessAction::Await,
            ProcessAction::Await,
            ProcessAction::Spawn,
            ProcessAction::Await
        ]
    );
}

#[test]
fn dependencies_are_containers_of_the_pod() {
    let container = |name: &str, ready: bool, terminated: bool| ContainerStatus {
        name: name.to_string(),
        ready,
        state: Some(ContainerState { terminated }),
    };
    let told = |containers: Vec<ContainerStatus>| {
        Some(Event::ContainersStatusChanged(containers_status(&Pod {
            status: Some(PodStatus {
                container_statuses: Some(containers),
            }),
        })))
    };
    let mut c = coordinator(fields(&["proxy"], &["main"]));
    assert_eq!(
        c.step(told(vec![container("proxy", false, false), container("main", true, false)])),
        CoordinatorAction::Wait
    );
    assert_eq!(
        c.step(told(vec![container("proxy", true, false), container("main", true, false)])),
        START
    );
    assert_eq!(
        c.step(told(vec![container("proxy", true, true), container("main", true, false)])),
        CoordinatorAction::Wait
    );
    assert_eq!(
        c.step(told(vec![container("proxy", true, false), container("main", false, true)])),
        stop(libc::SIGTERM)
    );
}
