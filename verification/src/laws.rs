//! What the main loop and the task that runs the child process do together.

use vstd::prelude::*;

use crate::config::{
    assembled, law_absent_fields_have_their_defaults, law_present_fields_are_kept,
    KoordinatorSpecView, SpecErrorView, SpecFields, StopDepExitedAction,
};
use crate::coordinator::{
    law_start_when_first_ready, law_started_once_every_start_dep_is_ready,
    law_stop_when_stop_dep_terminated, law_stopped_once_a_stop_dep_has_terminated, reports_ready,
    reports_stop_dep, CoordinatorAction, CoordinatorView,
};
use crate::duration::Duration;
use crate::events::{CommandToProcess, ContainersStatusView, EventView, ExitStatus};
use crate::numbers::signed;
use crate::pod::{
    law_reported_for_what_the_pod_says, law_reported_names, ContainerStatus, Pod, PodStatus,
};
use crate::process::{law_stopped_only_on_command, ProcessAction, ProcessEvent, ProcessTask, Report};
use crate::signals::{law_names_stand_for_their_signals, SignalNumbers};

verus! {

/// The signal that stops the child process once a stop dependency has exited is, unless
/// another one is configured, the same that is held back when it is received.
pub proof fn law_one_termination_signal(config: KoordinatorSpecView, signals: SignalNumbers)
    requires
        config.when_stop_dep_exited is Default,
    ensures
        CoordinatorView::initial(config, signals.configured(config.term_signal)).stop_command()
            == Some(
            CommandToProcess::Stop(
                ProcessTask::initial(config, signals).term_signal,
                config.term_timeout,
            ),
        ),
{
}

/// Whether a container of the pod has the given name and is ready.
pub open spec fn has_ready_container(pod: Pod, name: Seq<char>) -> bool {
    exists|i: int|
        0 <= i < pod.container_statuses().len()
            && (#[trigger] pod.container_statuses()[i]).name@ == name
            && pod.container_statuses()[i].ready
}

/// Whether a container of the pod has the given name and has terminated.
pub open spec fn has_terminated_container(pod: Pod, name: Seq<char>) -> bool {
    exists|i: int|
        0 <= i < pod.container_statuses().len()
            && (#[trigger] pod.container_statuses()[i]).name@ == name
            && pod.container_statuses()[i].state is Some
            && pod.container_statuses()[i].state->0.terminated
}

/// What is told of a pod reports all start dependencies ready if and only if each of them is
/// the name of a ready container of the pod, and it reports a stop dependency terminated if
/// and only if one of them is the name of a terminated container of the pod.
pub proof fn law_dependencies_are_containers_of_the_pod(config: KoordinatorSpecView, pod: Pod)
    ensures
        reports_ready(config, EventView::ContainersStatusChanged(pod.containers()))
            <==> forall|i: int|
            0 <= i < config.start_deps.len() ==> #[trigger] has_ready_container(
                pod,
                config.start_deps[i],
            ),
        reports_stop_dep(config, EventView::ContainersStatusChanged(pod.containers()))
            <==> exists|i: int|
            0 <= i < config.stop_deps.len() && #[trigger] has_terminated_container(
                pod,
                config.stop_deps[i],
            ),
{
    let status = pod.containers();
    assert forall|name: Seq<char>| #[trigger] status.ready_containers.contains(name)
        == has_ready_container(pod, name) by {
        law_reported_names(pod, name);
    }
    assert forall|name: Seq<char>| #[trigger] status.terminated_containers.contains(name)
        == has_terminated_container(pod, name) by {
        law_reported_names(pod, name);
    }
    assert(forall|i: int|
        0 <= i < config.start_deps.len() ==> #[trigger] has_ready_container(
            pod,
            config.start_deps[i],
        ) == status.ready_containers.contains(config.start_deps[i]));
    if exists|i: int|
        0 <= i < config.stop_deps.len() && #[trigger] has_terminated_container(
            pod,
            config.stop_deps[i],
        ) {
        let i = choose|i: int|
            0 <= i < config.stop_deps.len() && #[trigger] has_terminated_container(
                pod,
                config.stop_deps[i],
            );
        let event = EventView::ContainersStatusChanged(status);
        assert(event->ContainersStatusChanged_0.terminated_containers.contains(
            config.stop_deps[i],
        ));
    }
}

/// The status that reports all start dependencies ready for the first time has the child
/// process started.
pub proof fn law_ready_dependencies_start_the_child(
    c: CoordinatorView,
    task: ProcessTask,
    status: ContainersStatusView,
)
    requires
        task.phase is AwaitingStart,
        c.start_due(status),
    ensures
        ({
            let event = Some(EventView::ContainersStatusChanged(status));
            &&& c.action(event) == CoordinatorAction::Send(CommandToProcess::Start)
            &&& task.action(ProcessEvent::Command(CommandToProcess::Start))
                == ProcessAction::Spawn
            &&& c.after(event).started
        }),
{
}

/// Once a stop dependency has terminated, the running child process is sent the configured
/// signal and then has the configured time to exit. If it does, the koordinator ends with
/// the configured exit code, or with that of the child process if the configured one is
/// negative; if it does not, the child process is killed and the koordinator ends with the
/// exit code that is configured for this.
pub proof fn law_stop_dependency_ends_the_koordinator(
    c: CoordinatorView,
    task: ProcessTask,
    status: ContainersStatusView,
    exit: ExitStatus,
)
    requires
        task.phase is Running,
        c.stop_due(status),
        !(c.config.when_stop_dep_exited is Http),
    ensures
        ({
            let signal = match c.config.when_stop_dep_exited {
                StopDepExitedAction::Signal(signal) => signal,
                _ => c.term_signal,
            };
            let stop = CommandToProcess::Stop(signal, c.config.term_timeout);
            let stopping = task.after(ProcessEvent::Command(stop));
            let waiting = stopping.after(ProcessEvent::Done);
            let killing = waiting.after(ProcessEvent::TimedOut);
            let c2 = c.after(Some(EventView::ContainersStatusChanged(status)));
            &&& c.action(Some(EventView::ContainersStatusChanged(status)))
                == CoordinatorAction::Send(stop)
            &&& task.action(ProcessEvent::Command(stop)) == ProcessAction::Kill(signal)
            &&& stopping.action(ProcessEvent::Done) == ProcessAction::AwaitExit(
                c.config.term_timeout,
            )
            &&& waiting.action(ProcessEvent::Exited(exit)) == ProcessAction::Report(
                Report::Terminated(exit),
            )
            &&& c2.action(Some(Report::Terminated(exit).event())) == CoordinatorAction::Exit(
                if c.config.terminated_by_stop_dep_exit_code < 0 {
                    exit.code_or_zero()
                } else {
                    c.config.terminated_by_stop_dep_exit_code
                },
            )
            &&& waiting.action(ProcessEvent::TimedOut) == ProcessAction::Kill(task.sigkill)
            &&& killing.action(ProcessEvent::Done) == ProcessAction::Report(Report::Killed)
            &&& c2.action(Some(Report::Killed.event())) == CoordinatorAction::Exit(
                signed(c.config.killed_by_stop_dep_exit_code) as i32,
            )
        }),
{
}

/// A child process that exits on its own has the koordinator end with its exit code, or
/// with 0 if a signal ended it, whatever the configuration says.
pub proof fn law_own_exit_code_is_passed_on(
    c: CoordinatorView,
    task: ProcessTask,
    exit: ExitStatus,
)
    requires
        task.phase is Running,
    ensures
        task.action(ProcessEvent::Exited(exit)) == ProcessAction::Report(Report::Exited(exit)),
        c.action(Some(Report::Exited(exit).event())) == CoordinatorAction::Exit(
            exit.code_or_zero(),
        ),
{
}

/// Whether the commands among the events of the task are ones that the main loop sent.
pub open spec fn commanded(
    c: CoordinatorView,
    messages: Seq<EventView>,
    events: Seq<ProcessEvent>,
) -> bool {
    forall|k: int|
        0 <= k < events.len() ==> match #[trigger] events[k] {
            ProcessEvent::Command(command) => exists|i: int|
                0 <= i < messages.len() && #[trigger] c.action_at(messages, i)
                    == CoordinatorAction::Send(command),
            _ => true,
        }
}

/// The child process is started only if the pod reported all start dependencies ready.
pub proof fn law_child_starts_only_when_ready(
    config: KoordinatorSpecView,
    term_signal: i32,
    messages: Seq<EventView>,
    task: ProcessTask,
    events: Seq<ProcessEvent>,
    k: int,
)
    requires
        task.phase is AwaitingStart,
        commanded(CoordinatorView::initial(config, term_signal), messages, events),
        0 <= k < events.len(),
        task.action_at(events, k) is Spawn,
    ensures
        exists|i: int| 0 <= i < messages.len() && reports_ready(config, #[trigger] messages[i]),
{
    let c = CoordinatorView::initial(config, term_signal);
    assert(events[k] == ProcessEvent::Command(CommandToProcess::Start));
    let i = choose|i: int|
        0 <= i < messages.len() && #[trigger] c.action_at(messages, i) == CoordinatorAction::Send(
            CommandToProcess::Start,
        );
    law_start_when_first_ready(config, term_signal, messages, i);
    assert(reports_ready(config, messages[i]));
}

/// That the child process was terminated or killed is reported only if the pod reported a
/// stop dependency terminated.
pub proof fn law_child_is_stopped_only_for_a_stop_dependency(
    config: KoordinatorSpecView,
    term_signal: i32,
    messages: Seq<EventView>,
    task: ProcessTask,
    events: Seq<ProcessEvent>,
    k: int,
)
    requires
        task.phase is AwaitingStart,
        commanded(CoordinatorView::initial(config, term_signal), messages, events),
        0 <= k < events.len(),
        task.action_at(events, k) matches ProcessAction::Report(report) && !(report is Exited),
    ensures
        exists|i: int| 0 <= i < messages.len() && reports_stop_dep(config, #[trigger] messages[i]),
{
    let c = CoordinatorView::initial(config, term_signal);
    law_stopped_only_on_command(task, events, k);
    let (s, m) = choose|s: int, m: int|
        0 <= s < m < k && #[trigger] task.action_at(events, s) is Spawn
            && #[trigger] task.stop_acted_on(events, m);
    if let ProcessEvent::Command(CommandToProcess::Stop(signal, timeout)) = events[m] {
        let i = choose|i: int|
            0 <= i < messages.len() && #[trigger] c.action_at(messages, i)
                == CoordinatorAction::Send(CommandToProcess::Stop(signal, timeout));
        law_stop_when_stop_dep_terminated(config, term_signal, messages, i, signal, timeout);
        assert(reports_stop_dep(config, messages[i]));
    }
}

/// From what is written down and what the pod says: if the first condition of the pod has the
/// child process started, then every name under the start dependencies, whichever of them
/// `dep` is, is the name of a container that the pod calls ready. If it does not, then one of
/// these names is not, and the koordinator waits.
pub proof fn law_written_start_deps_are_all_awaited(
    fields: SpecFields,
    stop_delay: Option<Result<Duration, Seq<char>>>,
    term_timeout: Option<Result<Duration, Seq<char>>>,
    config: KoordinatorSpecView,
    names: Vec<String>,
    dep: int,
    term_signal: i32,
    pod: Pod,
    statuses: Vec<ContainerStatus>,
)
    requires
        assembled(fields, stop_delay, term_timeout) == Ok::<KoordinatorSpecView, SpecErrorView>(
            config,
        ),
        fields.start_deps == Some(names),
        pod.status == Some(PodStatus { container_statuses: Some(statuses) }),
    ensures
        ({
            let action = CoordinatorView::initial(config, term_signal).action(
                Some(EventView::ContainersStatusChanged(pod.containers())),
            );
            &&& action == CoordinatorAction::Send(CommandToProcess::Start) && 0 <= dep < names@.len()
                ==> exists|k: int|
                0 <= k < statuses@.len() && (#[trigger] statuses@[k]).name@ == names@[dep]@
                    && statuses@[k].ready
            &&& action != CoordinatorAction::Send(CommandToProcess::Start) ==> action is Wait
                && exists|i: int|
                0 <= i < names@.len() && forall|k: int|
                    0 <= k < statuses@.len() && statuses@[k].ready ==> (
                    #[trigger] statuses@[k]).name@ != (#[trigger] names@[i])@
        }),
{
    let c = CoordinatorView::initial(config, term_signal);
    let ready = pod.containers().ready_containers;
    law_started_once_every_start_dep_is_ready(c, pod.containers());
    law_present_fields_are_kept(fields, stop_delay, term_timeout, config);
    if c.start_due(pod.containers()) {
        if 0 <= dep < names@.len() {
            assert(ready.contains(config.start_deps[dep]));
            law_reported_for_what_the_pod_says(pod, statuses, names@[dep]@);
        }
    } else {
        let i = choose|i: int|
            0 <= i < config.start_deps.len() && !ready.contains(#[trigger] config.start_deps[i]);
        law_reported_for_what_the_pod_says(pod, statuses, names@[i]@);
        assert(forall|k: int|
            0 <= k < statuses@.len() && statuses@[k].ready ==> (#[trigger] statuses@[k]).name@
                != names@[i]@);
    }
}

/// From what is written down and what the pod says: once the child process was started, a
/// condition of the pod has it stopped if and only if one of the names under the stop
/// dependencies is the name of a container that the pod calls terminated, unless an HTTP
/// request is asked for. The signal is the one that is written down for this, or else the
/// one that the name of the termination signal stands for, `SIGTERM` if nothing is written
/// down; the time is the one that was read, or half a minute.
pub proof fn law_written_stop_deps_are_all_watched(
    fields: SpecFields,
    stop_delay: Option<Result<Duration, Seq<char>>>,
    term_timeout: Option<Result<Duration, Seq<char>>>,
    config: KoordinatorSpecView,
    names: Vec<String>,
    signals: SignalNumbers,
    c: CoordinatorView,
    pod: Pod,
    statuses: Vec<ContainerStatus>,
)
    requires
        assembled(fields, stop_delay, term_timeout) == Ok::<KoordinatorSpecView, SpecErrorView>(
            config,
        ),
        fields.stop_deps == Some(names),
        fields.when_stop_dep_exited matches Some(action) ==> action !is Http,
        pod.status == Some(PodStatus { container_statuses: Some(statuses) }),
        c.config == config,
        c.term_signal == signals.configured(config.term_signal),
        c.started,
    ensures
        ({
            let action = c.action(Some(EventView::ContainersStatusChanged(pod.containers())));
            let signal = match fields.when_stop_dep_exited {
                Some(StopDepExitedAction::Signal(signal)) => signal,
                _ => match fields.term_signal {
                    Some(name) => match signals.number_of(name@) {
                        Some(number) => number,
                        None => signals.sigterm,
                    },
                    None => signals.sigterm,
                },
            };
            let timeout = match term_timeout {
                Some(Ok(timeout)) => timeout,
                _ => Duration { secs: 30, nanos: 0 },
            };
            if exists|i: int, k: int|
                0 <= i < names@.len() && 0 <= k < statuses@.len() && (
                #[trigger] statuses@[k]).name@ == (#[trigger] names@[i])@
                    && statuses@[k].state is Some && statuses@[k].state->0.terminated {
                action == CoordinatorAction::Send(CommandToProcess::Stop(signal, timeout))
            } else {
                action is Wait
            }
        }),
{
    let status = pod.containers();
    let gone = status.terminated_containers;
    let signal = match config.when_stop_dep_exited {
        StopDepExitedAction::Signal(signal) => signal,
        _ => c.term_signal,
    };
    law_stopped_once_a_stop_dep_has_terminated(c, status, signal, config.term_timeout);
    law_present_fields_are_kept(fields, stop_delay, term_timeout, config);
    law_absent_fields_have_their_defaults(fields, stop_delay, term_timeout, config);
    law_names_stand_for_their_signals(signals, config.term_signal);
    if exists|i: int, k: int|
        0 <= i < names@.len() && 0 <= k < statuses@.len() && (#[trigger] statuses@[k]).name@ == (
        #[trigger] names@[i])@ && statuses@[k].state is Some && statuses@[k].state->0.terminated {
        let (i, k) = choose|i: int, k: int|
            0 <= i < names@.len() && 0 <= k < statuses@.len() && (#[trigger] statuses@[k]).name@
                == (#[trigger] names@[i])@ && statuses@[k].state is Some
                && statuses@[k].state->0.terminated;
        law_reported_for_what_the_pod_says(pod, statuses, names@[i]@);
        assert(gone.contains(c.config.stop_deps[i]));
    } else {
        assert forall|i: int| 0 <= i < c.config.stop_deps.len() implies !gone.contains(
            #[trigger] c.config.stop_deps[i],
        ) by {
            law_reported_for_what_the_pod_says(pod, statuses, names@[i]@);
            assert(c.config.stop_deps[i] == names@[i]@);
        }
    }
}

/// The koordinator of a child process that exited with a code ends with that code, for every
/// code, configuration and platform; and a child process that was started and then ignored the
/// command to stop until its time had passed is sent signal 9, after which the koordinator
/// ends with the exit code that is configured for this.
pub proof fn law_how_the_koordinator_ends(
    config: KoordinatorSpecView,
    signals: SignalNumbers,
    c: CoordinatorView,
    signal: i32,
    timeout: Duration,
    code: i32,
)
    requires
        signals.of_platform(),
        c.config == config,
    ensures
        ({
            let start = ProcessEvent::Command(CommandToProcess::Start);
            let stop = ProcessEvent::Command(CommandToProcess::Stop(signal, timeout));
            let exited = ProcessEvent::Exited(ExitStatus { code: Some(code) });
            let running = ProcessTask::initial(config, signals).after(start).after(
                ProcessEvent::Done,
            );
            let waiting = running.after(stop).after(ProcessEvent::Done);
            let killing = waiting.after(ProcessEvent::TimedOut);
            &&& running.action(exited) matches ProcessAction::Report(report) && c.action(
                Some(report.event()),
            ) == CoordinatorAction::Exit(code)
            &&& waiting.action(exited) matches ProcessAction::Report(report) && c.action(
                Some(report.event()),
            ) == CoordinatorAction::Exit(
                if config.terminated_by_stop_dep_exit_code < 0 {
                    code
                } else {
                    config.terminated_by_stop_dep_exit_code
                },
            )
            &&& waiting.action(ProcessEvent::TimedOut) == ProcessAction::Kill(9)
            &&& killing.action(ProcessEvent::Done) matches ProcessAction::Report(report)
                && c.action(Some(report.event())) matches CoordinatorAction::Exit(killed) && (killed
                - config.killed_by_stop_dep_exit_code) % 0x1_0000_0000 == 0
        }),
{
}

} // verus!
