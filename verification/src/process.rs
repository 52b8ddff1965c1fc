//! The task that runs the child process: when it is started, which signals it is sent,
//! and what is reported of its end.

use vstd::prelude::*;

use crate::config::{KoordinatorSpec, KoordinatorSpecView};
use crate::duration::Duration;
use crate::events::{CommandToProcess, Event, EventView, ExitStatus};
use crate::numbers::{signed, to_signed};
use crate::signals::SignalNumbers;
use crate::text::texts;

verus! {

/// Where the task stands.
#[derive(Clone, Copy, Debug, PartialEq, Eq, Structural)]
pub enum Phase {
    /// The command to start the child process has not come yet.
    AwaitingStart,
    /// The child process is being started.
    Starting,
    /// The child process runs.
    Running,
    /// The given signal is held back before it is passed on.
    Delaying(i32),
    /// A signal is being passed on.
    Forwarding,
    /// The child process is being told to stop; it then has the given time.
    Stopping(Duration),
    /// The child process was told to stop and has not exited yet.
    AwaitingExit,
    /// The child process did not stop in time and is being killed.
    Killing,
    /// The end of the child process was reported, or it will never be started.
    Finished,
}

/// What the task learns.
#[derive(Clone, Copy, Debug, PartialEq, Eq, Structural)]
pub enum ProcessEvent {
    /// A command came.
    Command(CommandToProcess),
    /// No more commands will come.
    CommandsClosed,
    /// A signal for the child process was received.
    Signal(i32),
    /// The child process exited.
    Exited(ExitStatus),
    /// The child process did not exit within the time it had.
    TimedOut,
    /// What the task last asked for has been done.
    Done,
}

/// What is reported of the end of the child process.
#[derive(Clone, Copy, Debug, PartialEq, Eq, Structural)]
pub enum Report {
    /// It exited on its own.
    Exited(ExitStatus),
    /// It exited in time after it was told to stop.
    Terminated(ExitStatus),
    /// It had to be killed.
    Killed,
}

/// What the task asks for.
#[derive(Clone, Copy, Debug, PartialEq, Eq, Structural)]
pub enum ProcessAction {
    /// Wait for a command, and once the child process runs also for a signal or for the
    /// exit of the child process.
    Await,
    /// Receive signals from now on, and start the child process.
    Spawn,
    /// Let the given time pass.
    Sleep(Duration),
    /// Send the given signal to the child process, if it still runs.
    Kill(i32),
    /// Wait for the exit of the child process, for the given time at most.
    AwaitExit(Duration),
    /// Report the end of the child process, and end the task.
    Report(Report),
    /// End the task: the child process was never started, and never will be.
    End,
}

/// The state of the task.
#[derive(Clone, Copy, Debug, PartialEq, Eq, Structural)]
pub struct ProcessTask {
    /// The signal that is held back before it is passed on.
    pub term_signal: i32,
    /// For how long it is held back.
    pub stop_delay: Duration,
    /// The signal that kills.
    pub sigkill: i32,
    /// Where the task stands.
    pub phase: Phase,
}

impl Report {
    /// What the main loop is told.
    pub open spec fn event(self) -> EventView {
        match self {
            Report::Exited(status) => EventView::ChildProcessExited(status),
            Report::Terminated(status) => {
                EventView::ChildProcessTerminatedBecauseStopDependency(status)
            },
            Report::Killed => EventView::ChildProcessKilledBecauseStopDependency,
        }
    }

    /// The event that tells the main loop.
    pub fn into_event(self) -> (event: Event)
        ensures
            event@ == self.event(),
            event == (match self {
                Report::Exited(status) => Event::ChildProcessExited(status),
                Report::Terminated(status) => {
                    Event::ChildProcessTerminatedBecauseStopDependency(status)
                },
                Report::Killed => Event::ChildProcessKilledBecauseStopDependency,
            }),
    {
        match self {
            Report::Exited(status) => Event::ChildProcessExited(status),
            Report::Terminated(status) => {
                Event::ChildProcessTerminatedBecauseStopDependency(status)
            },
            Report::Killed => Event::ChildProcessKilledBecauseStopDependency,
        }
    }
}

impl ProcessTask {
    /// Where the task stands after an event. An event that the phase does not wait for
    /// changes nothing.
    pub open spec fn next_phase(self, event: ProcessEvent) -> Phase {
        match (self.phase, event) {
            (Phase::AwaitingStart, ProcessEvent::Command(CommandToProcess::Start)) => {
                Phase::Starting
            },
            (Phase::AwaitingStart, ProcessEvent::CommandsClosed) => Phase::Finished,
            (Phase::Starting, ProcessEvent::Done) => Phase::Running,
            (Phase::Running, ProcessEvent::Command(CommandToProcess::Stop(_, timeout))) => {
                Phase::Stopping(timeout)
            },
            (Phase::Running, ProcessEvent::Signal(signal)) => {
                if signal == self.term_signal {
                    Phase::Delaying(signal)
                } else {
                    Phase::Forwarding
                }
            },
            (Phase::Running, ProcessEvent::Exited(_)) => Phase::Finished,
            (Phase::Delaying(_), ProcessEvent::Done) => Phase::Forwarding,
            (Phase::Forwarding, ProcessEvent::Done) => Phase::Running,
            (Phase::Stopping(_), ProcessEvent::Done) => Phase::AwaitingExit,
            (Phase::AwaitingExit, ProcessEvent::Exited(_)) => Phase::Finished,
            (Phase::AwaitingExit, ProcessEvent::TimedOut) => Phase::Killing,
            (Phase::Killing, ProcessEvent::Done) => Phase::Finished,
            _ => self.phase,
        }
    }

    /// What the task asks for after an event.
    pub open spec fn action(self, event: ProcessEvent) -> ProcessAction {
        match (self.phase, event) {
            (Phase::AwaitingStart, ProcessEvent::Command(CommandToProcess::Start)) => {
                ProcessAction::Spawn
            },
            (Phase::AwaitingStart, ProcessEvent::CommandsClosed) => ProcessAction::End,
            (Phase::Running, ProcessEvent::Command(CommandToProcess::Stop(signal, _))) => {
                ProcessAction::Kill(signal)
            },
            (Phase::Running, ProcessEvent::Signal(signal)) => {
                if signal == self.term_signal {
                    ProcessAction::Sleep(self.stop_delay)
                } else {
                    ProcessAction::Kill(signal)
                }
            },
            (Phase::Running, ProcessEvent::Exited(status)) => {
                ProcessAction::Report(Report::Exited(status))
            },
            (Phase::Delaying(signal), ProcessEvent::Done) => ProcessAction::Kill(signal),
            (Phase::Stopping(timeout), ProcessEvent::Done) => ProcessAction::AwaitExit(timeout),
            (Phase::AwaitingExit, ProcessEvent::Exited(status)) => {
                ProcessAction::Report(Report::Terminated(status))
            },
            (Phase::AwaitingExit, ProcessEvent::TimedOut) => ProcessAction::Kill(self.sigkill),
            (Phase::Killing, ProcessEvent::Done) => ProcessAction::Report(Report::Killed),
            _ => ProcessAction::Await,
        }
    }

    /// The state after an event.
    pub open spec fn after(self, event: ProcessEvent) -> ProcessTask {
        ProcessTask { phase: self.next_phase(event), ..self }
    }

    /// The state after a sequence of events.
    pub open spec fn after_all(self, events: Seq<ProcessEvent>) -> ProcessTask
        decreases events.len(),
    {
        if events.len() == 0 {
            self
        } else {
            self.after_all(events.drop_last()).after(events.last())
        }
    }

    /// What the task asks for after the event at position `i` of a sequence.
    pub open spec fn action_at(self, events: Seq<ProcessEvent>, i: int) -> ProcessAction {
        self.after_all(events.take(i)).action(events[i])
    }

    /// Whether the event at position `k` of a sequence is a command to stop the child process
    /// that is acted on.
    pub open spec fn stop_acted_on(self, events: Seq<ProcessEvent>, k: int) -> bool {
        is_stop(events[k]) && self.action_at(events, k) is Kill
    }

    /// The task before its first command.
    pub open spec fn initial(config: KoordinatorSpecView, signals: SignalNumbers) -> ProcessTask {
        ProcessTask {
            term_signal: signals.configured(config.term_signal),
            stop_delay: config.stop_delay,
            sigkill: signals.sigkill,
            phase: Phase::AwaitingStart,
        }
    }

    /// The task before its first command.
    pub fn new(config: &KoordinatorSpec, signals: &SignalNumbers) -> (task: ProcessTask)
        ensures
            task == ProcessTask::initial(config@, *signals),
            task.stop_delay == config.stop_delay,
            task.sigkill == signals.sigkill,
            task.phase is AwaitingStart,
    {
        ProcessTask {
            term_signal: signals.configured_or_sigterm(config.term_signal.as_str()),
            stop_delay: config.stop_delay,
            sigkill: signals.sigkill,
            phase: Phase::AwaitingStart,
        }
    }

    /// Decides what is done about an event.
    pub fn step(&mut self, event: ProcessEvent) -> (action: ProcessAction)
        ensures
            action == old(self).action(event),
            *final(self) == old(self).after(event),
    {
        match (self.phase, event) {
            (Phase::AwaitingStart, ProcessEvent::Command(CommandToProcess::Start)) => {
                self.phase = Phase::Starting;
                ProcessAction::Spawn
            },
            (Phase::AwaitingStart, ProcessEvent::CommandsClosed) => {
                self.phase = Phase::Finished;
                ProcessAction::End
            },
            (Phase::Starting, ProcessEvent::Done) => {
                self.phase = Phase::Running;
                ProcessAction::Await
            },
            (Phase::Running, ProcessEvent::Command(CommandToProcess::Stop(signal, timeout))) => {
                self.phase = Phase::Stopping(timeout);
                ProcessAction::Kill(signal)
            },
            (Phase::Running, ProcessEvent::Signal(signal)) => {
                if signal == self.term_signal {
                    self.phase = Phase::Delaying(signal);
                    ProcessAction::Sleep(self.stop_delay)
                } else {
                    self.phase = Phase::Forwarding;
                    ProcessAction::Kill(signal)
                }
            },
            (Phase::Running, ProcessEvent::Exited(status)) => {
                self.phase = Phase::Finished;
                ProcessAction::Report(Report::Exited(status))
            },
            (Phase::Delaying(signal), ProcessEvent::Done) => {
                self.phase = Phase::Forwarding;
                ProcessAction::Kill(signal)
            },
            (Phase::Forwarding, ProcessEvent::Done) => {
                self.phase = Phase::Running;
                ProcessAction::Await
            },
            (Phase::Stopping(timeout), ProcessEvent::Done) => {
                self.phase = Phase::AwaitingExit;
                ProcessAction::AwaitExit(timeout)
            },
            (Phase::AwaitingExit, ProcessEvent::Exited(status)) => {
                self.phase = Phase::Finished;
                ProcessAction::Report(Report::Terminated(status))
            },
            (Phase::AwaitingExit, ProcessEvent::TimedOut) => {
                self.phase = Phase::Killing;
                ProcessAction::Kill(self.sigkill)
            },
            (Phase::Killing, ProcessEvent::Done) => {
                self.phase = Phase::Finished;
                ProcessAction::Report(Report::Killed)
            },
            _ => ProcessAction::Await,
        }
    }
}

/// The program to start and its arguments.
pub fn child_command(cmd_and_args: &Vec<String>) -> (command: (String, Vec<String>))
    requires
        cmd_and_args@.len() > 0,
    ensures
        command.0@ == cmd_and_args@[0]@,
        texts(command.1@) == texts(cmd_and_args@).skip(1),
        command.1@.len() == cmd_and_args@.len() - 1,
        forall|i: int|
            0 <= i < command.1@.len() ==> #[trigger] command.1@[i]@ == cmd_and_args@[i + 1]@,
{
    let program: String = cmd_and_args[0].clone();
    let mut args: Vec<String> = Vec::new();
    let mut i: usize = 1;
    while i < cmd_and_args.len()
        invariant
            1 <= i <= cmd_and_args@.len(),
            texts(args@) =~= texts(cmd_and_args@).subrange(1, i as int),
        decreases cmd_and_args@.len() - i,
    {
        let ghost earlier = args@;
        args.push(cmd_and_args[i].clone());
        assert(texts(args@) =~= texts(earlier).push(cmd_and_args@[i as int]@));
        i += 1;
    }
    assert(texts(cmd_and_args@).subrange(1, i as int) =~= texts(cmd_and_args@).skip(1));
    assert(texts(args@).len() == args@.len());
    assert forall|i: int| 0 <= i < args@.len() implies #[trigger] args@[i]@ == cmd_and_args@[i
        + 1]@ by {
        assert(texts(args@)[i] == texts(cmd_and_args@).skip(1)[i]);
    }
    (program, args)
}

/// The process that a signal goes to, in the signed form in which the operating system
/// takes it. There is none once the child process has been waited for.
pub fn kill_target(id: Option<u32>) -> (pid: Option<i32>)
    ensures
        match id {
            Some(number) => pid is Some && pid->0 == signed(number),
            None => pid is None,
        },
        id matches Some(number) && number <= i32::MAX ==> pid is Some && pid->0 == id->0,
{
    match id {
        Some(number) => Some(to_signed(number)),
        None => None,
    }
}

/// Whether an event is a command to stop the child process.
pub open spec fn is_stop(event: ProcessEvent) -> bool {
    event matches ProcessEvent::Command(CommandToProcess::Stop(_, _))
}

/// What a sequence of events leaves unchanged, and what holds of the phase after it: the
/// child process was started if the phase says so, and a signal that is held back was
/// received and is the termination signal.
proof fn lemma_after_all(task: ProcessTask, events: Seq<ProcessEvent>)
    requires
        task.phase is AwaitingStart,
    ensures
        task.after_all(events).term_signal == task.term_signal,
        task.after_all(events).stop_delay == task.stop_delay,
        task.after_all(events).sigkill == task.sigkill,
        task.after_all(events).phase is AwaitingStart ==> forall|k: int|
            0 <= k < events.len() ==> #[trigger] task.action_at(events, k) !is Spawn,
        task.after_all(events).phase is AwaitingStart || task.after_all(events).phase is Finished
            || exists|k: int|
            0 <= k < events.len() && #[trigger] task.action_at(events, k) is Spawn,
        task.after_all(events).phase matches Phase::Delaying(signal) ==> {
            &&& signal == task.term_signal
            &&& exists|k: int| 0 <= k < events.len() && #[trigger] events[k]
                == ProcessEvent::Signal(signal)
        },
        task.after_all(events).phase is AwaitingExit ==> exists|m: int|
            0 <= m < events.len() && #[trigger] task.action_at(events, m) is AwaitExit,
        task.after_all(events).phase is Killing ==> exists|m: int, k: int|
            0 <= m < k < events.len() && #[trigger] task.action_at(events, m) is AwaitExit
                && #[trigger] events[k] is TimedOut,
        match task.after_all(events).phase {
            Phase::Stopping(_) | Phase::AwaitingExit | Phase::Killing => exists|k: int|
                0 <= k < events.len() && #[trigger] task.stop_acted_on(events, k),
            Phase::Finished => true,
            _ => forall|k: int|
                0 <= k < events.len() ==> !#[trigger] task.stop_acted_on(events, k),
        },
    decreases events.len(),
{
    if events.len() > 0 {
        let front = events.drop_last();
        let last = events.len() - 1;
        lemma_after_all(task, front);
        assert(events.take(last) =~= front);
        assert(task.action_at(events, last) == task.after_all(front).action(events.last()));
        assert forall|k: int| 0 <= k < front.len() implies #[trigger] task.action_at(front, k)
            == task.action_at(events, k) by {
            assert(front.take(k) =~= events.take(k));
        }
        assert(forall|k: int| 0 <= k < front.len() ==> events[k] == #[trigger] front[k]);
        assert(events[last] == events.last());
        if task.after_all(front).phase is AwaitingStart && task.after_all(
            events,
        ).phase is AwaitingStart {
            assert forall|k: int| 0 <= k < events.len() implies #[trigger] task.action_at(
                events,
                k,
            ) !is Spawn by {
                if k < last {
                    assert(task.action_at(front, k) !is Spawn);
                }
            }
        }
        if task.after_all(front).phase !is AwaitingStart && task.after_all(
            front,
        ).phase !is Finished {
            let k = choose|k: int|
                0 <= k < front.len() && #[trigger] task.action_at(front, k) is Spawn;
            assert(task.action_at(events, k) is Spawn);
        }
        assert forall|k: int| 0 <= k < front.len() implies #[trigger] task.stop_acted_on(front, k)
            == task.stop_acted_on(events, k) by {
            assert(task.action_at(front, k) == task.action_at(events, k));
        }
        match task.after_all(front).phase {
            Phase::Stopping(_) | Phase::AwaitingExit | Phase::Killing => {
                let k = choose|k: int|
                    0 <= k < front.len() && #[trigger] task.stop_acted_on(front, k);
                assert(task.stop_acted_on(events, k));
            },
            Phase::Finished => {},
            _ => {
                if is_stop(events.last()) && task.after_all(front).phase is Running {
                    assert(task.stop_acted_on(events, last));
                } else {
                    assert forall|k: int| 0 <= k < events.len() implies
                        !#[trigger] task.stop_acted_on(events, k) by {
                        if k < last {
                            assert(!task.stop_acted_on(front, k));
                        }
                    }
                }
            },
        }
        if task.after_all(front).phase is AwaitingExit {
            let m = choose|m: int|
                0 <= m < front.len() && #[trigger] task.action_at(front, m) is AwaitExit;
            assert(task.action_at(events, m) is AwaitExit);
        }
        if task.after_all(front).phase is Killing {
            let (m, k) = choose|m: int, k: int|
                0 <= m < k < front.len() && #[trigger] task.action_at(front, m) is AwaitExit
                    && #[trigger] front[k] is TimedOut;
            assert(task.action_at(events, m) is AwaitExit && events[k] is TimedOut);
        }
    }
}

/// The child process is started at most once.
pub proof fn law_spawn_at_most_once(
    task: ProcessTask,
    events: Seq<ProcessEvent>,
    i: int,
    j: int,
)
    requires
        task.phase is AwaitingStart,
        0 <= i < j < events.len(),
        task.action_at(events, i) is Spawn,
    ensures
        task.action_at(events, j) !is Spawn,
{
    let before = events.take(j);
    lemma_after_all(task, before);
    assert(before.take(i) =~= events.take(i));
    assert(task.action_at(before, i) is Spawn);
}

/// Before the child process is started nothing is done but waiting or giving up: no signal
/// is sent, nothing is held back, and nothing is reported.
pub proof fn law_nothing_before_spawn(task: ProcessTask, events: Seq<ProcessEvent>, i: int)
    requires
        task.phase is AwaitingStart,
        0 <= i < events.len(),
        task.action_at(events, i) !is Await,
        task.action_at(events, i) !is Spawn,
        task.action_at(events, i) !is End,
    ensures
        exists|k: int| 0 <= k < i && #[trigger] task.action_at(events, k) is Spawn,
{
    let before = events.take(i);
    lemma_after_all(task, before);
    let k = choose|k: int| 0 <= k < before.len() && #[trigger] task.action_at(before, k) is Spawn;
    assert(before.take(k) =~= events.take(k));
    assert(task.action_at(events, k) is Spawn);
}

/// A command to stop that comes before the command to start is ignored.
pub proof fn law_stop_before_start_is_ignored(task: ProcessTask, signal: i32, timeout: Duration)
    requires
        task.phase is AwaitingStart,
    ensures
        task.after(ProcessEvent::Command(CommandToProcess::Stop(signal, timeout))) == task,
        task.action(ProcessEvent::Command(CommandToProcess::Stop(signal, timeout))) is Await,
{
}

/// A task that has finished stays finished.
proof fn lemma_finished_for_good(task: ProcessTask, events: Seq<ProcessEvent>)
    requires
        task.phase is Finished,
    ensures
        task.after_all(events) == task,
    decreases events.len(),
{
    if events.len() > 0 {
        lemma_finished_for_good(task, events.drop_last());
    }
}

/// A sequence of events can be taken in two parts.
proof fn lemma_after_all_splits(task: ProcessTask, events: Seq<ProcessEvent>, i: int)
    requires
        0 <= i <= events.len(),
    ensures
        task.after_all(events) == task.after_all(events.take(i)).after_all(events.skip(i)),
    decreases events.len() - i,
{
    if i == events.len() {
        assert(events.take(i) =~= events);
        assert(events.skip(i) =~= Seq::empty());
    } else {
        let front = events.drop_last();
        lemma_after_all_splits(task, front, i);
        assert(front.take(i) =~= events.take(i));
        assert(front.skip(i) =~= events.skip(i).drop_last());
        assert(events.skip(i).last() == events.last());
    }
}

/// Nothing is done after the end of the child process was reported, or after the task gave
/// up waiting for the start: there is no second report, and no signal is sent to a process
/// that has gone.
pub proof fn law_nothing_after_the_end(
    task: ProcessTask,
    events: Seq<ProcessEvent>,
    i: int,
    j: int,
)
    requires
        0 <= i < j < events.len(),
        task.action_at(events, i) is Report || task.action_at(events, i) is End,
    ensures
        task.action_at(events, j) is Await,
{
    let before = events.take(j);
    let reported = events.take(i + 1);
    lemma_after_all_splits(task, before, i + 1);
    assert(before.take(i + 1) =~= reported);
    assert(reported.drop_last() =~= events.take(i));
    assert(reported.last() == events[i]);
    assert(task.after_all(reported).phase is Finished);
    lemma_finished_for_good(task.after_all(reported), before.skip(i + 1));
}

/// The child process is sent no signal but those that were received for it, the one that a
/// command to stop names, and the one that kills it after it did not stop in time.
pub proof fn law_only_signals_asked_for(
    task: ProcessTask,
    events: Seq<ProcessEvent>,
    i: int,
    signal: i32,
)
    requires
        task.phase is AwaitingStart,
        0 <= i < events.len(),
        task.action_at(events, i) == ProcessAction::Kill(signal),
    ensures
        ({
            ||| exists|k: int| 0 <= k <= i && #[trigger] events[k] == ProcessEvent::Signal(signal)
            ||| events[i] matches ProcessEvent::Command(CommandToProcess::Stop(named, _))
                && named == signal
            ||| signal == task.sigkill && events[i] is TimedOut
        }),
{
    let before = events.take(i);
    lemma_after_all(task, before);
    assert(forall|k: int| 0 <= k < i ==> events[k] == #[trigger] before[k]);
    if task.after_all(before).phase is Delaying {
        let k = choose|k: int|
            0 <= k < before.len() && #[trigger] before[k] == ProcessEvent::Signal(signal);
        assert(events[k] == ProcessEvent::Signal(signal));
    }
}

/// That the child process was killed is reported only if it had been given time to stop
/// and that time had passed.
pub proof fn law_killed_only_after_timeout(task: ProcessTask, events: Seq<ProcessEvent>, i: int)
    requires
        task.phase is AwaitingStart,
        0 <= i < events.len(),
        task.action_at(events, i) == ProcessAction::Report(Report::Killed),
    ensures
        exists|m: int, k: int|
            0 <= m < k < i && #[trigger] task.action_at(events, m) is AwaitExit
                && #[trigger] events[k] is TimedOut,
{
    let before = events.take(i);
    lemma_after_all(task, before);
    let (m, k) = choose|m: int, k: int|
        0 <= m < k < before.len() && #[trigger] task.action_at(before, m) is AwaitExit
            && #[trigger] before[k] is TimedOut;
    assert(before.take(m) =~= events.take(m));
    assert(task.action_at(events, m) is AwaitExit && events[k] is TimedOut);
}

/// That the child process was terminated or killed is reported only if a command to stop it
/// was acted on after it was started.
pub proof fn law_stopped_only_on_command(task: ProcessTask, events: Seq<ProcessEvent>, i: int)
    requires
        task.phase is AwaitingStart,
        0 <= i < events.len(),
        task.action_at(events, i) matches ProcessAction::Report(report) && !(report is Exited),
    ensures
        exists|m: int, k: int|
            0 <= m < k < i && #[trigger] task.action_at(events, m) is Spawn
                && #[trigger] task.stop_acted_on(events, k),
{
    let before = events.take(i);
    lemma_after_all(task, before);
    let k = choose|k: int| 0 <= k < before.len() && #[trigger] task.stop_acted_on(before, k);
    assert(before.take(k) =~= events.take(k));
    assert(task.stop_acted_on(events, k));
    law_nothing_before_spawn(task, events, k);
    let m = choose|m: int| 0 <= m < k && #[trigger] task.action_at(events, m) is Spawn;
    assert(task.action_at(events, m) is Spawn && task.stop_acted_on(events, k));
}

/// That the child process exited on its own is reported only if no command to stop it was
/// acted on.
pub proof fn law_exited_only_without_stop(task: ProcessTask, events: Seq<ProcessEvent>, i: int)
    requires
        task.phase is AwaitingStart,
        0 <= i < events.len(),
        task.action_at(events, i) matches ProcessAction::Report(report) && report is Exited,
    ensures
        forall|k: int| 0 <= k < i ==> !#[trigger] task.stop_acted_on(events, k),
{
    let before = events.take(i);
    lemma_after_all(task, before);
    assert forall|k: int| 0 <= k < i implies !#[trigger] task.stop_acted_on(events, k) by {
        assert(before.take(k) =~= events.take(k));
        assert(!task.stop_acted_on(before, k));
    }
}

/// Over a whole run at most one end of the child process is reported, and only after the
/// child process was started. It is never a change of the containers' status. It is that the
/// child process exited on its own if and only if no command to stop it was acted on before,
/// and otherwise that it was terminated or killed. After it nothing is acted on.
pub proof fn law_one_end_is_reported(
    task: ProcessTask,
    events: Seq<ProcessEvent>,
    i: int,
    report: Report,
)
    requires
        task.phase is AwaitingStart,
        0 <= i < events.len(),
        task.action_at(events, i) == ProcessAction::Report(report),
    ensures
        exists|m: int| 0 <= m < i && #[trigger] task.action_at(events, m) is Spawn,
        !(report.event() is ContainersStatusChanged),
        report is Exited <==> forall|k: int|
            0 <= k < i ==> !#[trigger] task.stop_acted_on(events, k),
        forall|j: int| i < j < events.len() ==> #[trigger] task.action_at(events, j) is Await,
        forall|j: int|
            0 <= j < events.len() && j != i ==> #[trigger] task.action_at(events, j) !is Report,
{
    law_nothing_before_spawn(task, events, i);
    if report is Exited {
        law_exited_only_without_stop(task, events, i);
    } else {
        law_stopped_only_on_command(task, events, i);
    }
    assert forall|j: int| i < j < events.len() implies #[trigger] task.action_at(
        events,
        j,
    ) is Await by {
        law_nothing_after_the_end(task, events, i, j);
    }
    assert forall|j: int| 0 <= j < events.len() && j != i implies #[trigger] task.action_at(
        events,
        j,
    ) !is Report by {
        if j < i && task.action_at(events, j) is Report {
            law_nothing_after_the_end(task, events, j, i);
        }
    }
}

/// If no more commands can come before the one to start, the child process is never started
/// and nothing is reported, whatever comes after.
pub proof fn law_no_start_command_no_child(
    task: ProcessTask,
    events: Seq<ProcessEvent>,
    i: int,
    j: int,
)
    requires
        task.phase is AwaitingStart,
        0 <= i < events.len(),
        0 <= j < events.len(),
        events[i] is CommandsClosed,
        forall|k: int|
            0 <= k < i ==> #[trigger] events[k] != ProcessEvent::Command(CommandToProcess::Start),
    ensures
        task.action_at(events, j) is Await || task.action_at(events, j) is End,
{
    lemma_first_closed(events, i);
    let closed = choose|k: int|
        0 <= k <= i && #[trigger] events[k] is CommandsClosed && forall|m: int|
            0 <= m < k ==> #[trigger] events[m] !is CommandsClosed;
    let before = events.take(closed);
    lemma_still_waiting(task, before);
    if j < closed {
        lemma_still_waiting(task, events.take(j));
    } else if j > closed {
        law_nothing_after_the_end(task, events, closed, j);
    }
}

/// If the commands have ended, there is a first event that says so.
proof fn lemma_first_closed(events: Seq<ProcessEvent>, i: int)
    requires
        0 <= i < events.len(),
        events[i] is CommandsClosed,
    ensures
        exists|k: int|
            0 <= k <= i && #[trigger] events[k] is CommandsClosed && forall|m: int|
                0 <= m < k ==> #[trigger] events[m] !is CommandsClosed,
    decreases i,
{
    if exists|m: int| 0 <= m < i && #[trigger] events[m] is CommandsClosed {
        let m = choose|m: int| 0 <= m < i && #[trigger] events[m] is CommandsClosed;
        lemma_first_closed(events, m);
    }
}

/// Without a command to start and without an end of the commands, the task stays where it is.
proof fn lemma_still_waiting(task: ProcessTask, events: Seq<ProcessEvent>)
    requires
        task.phase is AwaitingStart,
        forall|k: int|
            0 <= k < events.len() ==> #[trigger] events[k] !is CommandsClosed && events[k]
                != ProcessEvent::Command(CommandToProcess::Start),
    ensures
        task.after_all(events) == task,
    decreases events.len(),
{
    if events.len() > 0 {
        let front = events.drop_last();
        assert(forall|k: int| 0 <= k < front.len() ==> events[k] == #[trigger] front[k]);
        assert(events[events.len() - 1] == events.last());
        lemma_still_waiting(task, front);
    }
}

/// A received termination signal is passed on after the configured delay, and after that
/// the task waits again.
pub proof fn law_term_signal_is_delayed(task: ProcessTask)
    requires
        task.phase is Running,
    ensures
        ({
            let received = task.after(ProcessEvent::Signal(task.term_signal));
            let delayed = received.after(ProcessEvent::Done);
            let forwarded = delayed.after(ProcessEvent::Done);
            &&& task.action(ProcessEvent::Signal(task.term_signal)) == ProcessAction::Sleep(
                task.stop_delay,
            )
            &&& received.action(ProcessEvent::Done) == ProcessAction::Kill(task.term_signal)
            &&& delayed.action(ProcessEvent::Done) == ProcessAction::Await
            &&& forwarded == task
        }),
{
}

/// Any other received signal is passed on at once, and after that the task waits again.
pub proof fn law_other_signals_are_forwarded_at_once(task: ProcessTask, signal: i32)
    requires
        task.phase is Running,
        signal != task.term_signal,
    ensures
        ({
            let received = task.after(ProcessEvent::Signal(signal));
            let forwarded = received.after(ProcessEvent::Done);
            &&& task.action(ProcessEvent::Signal(signal)) == ProcessAction::Kill(signal)
            &&& received.action(ProcessEvent::Done) == ProcessAction::Await
            &&& forwarded == task
        }),
{
}

/// A command to stop has the child process sent the given signal, and then gives it the
/// given time. If it exits in that time, that is reported; if not, it is killed, and that
/// is reported.
pub proof fn law_stop_then_kill(
    task: ProcessTask,
    signal: i32,
    timeout: Duration,
    status: ExitStatus,
)
    requires
        task.phase is Running,
    ensures
        ({
            let stop = ProcessEvent::Command(CommandToProcess::Stop(signal, timeout));
            let stopping = task.after(stop);
            let waiting = stopping.after(ProcessEvent::Done);
            let killing = waiting.after(ProcessEvent::TimedOut);
            &&& task.action(stop) == ProcessAction::Kill(signal)
            &&& stopping.action(ProcessEvent::Done) == ProcessAction::AwaitExit(timeout)
            &&& waiting.action(ProcessEvent::Exited(status)) == ProcessAction::Report(
                Report::Terminated(status),
            )
            &&& waiting.action(ProcessEvent::TimedOut) == ProcessAction::Kill(task.sigkill)
            &&& killing.action(ProcessEvent::Done) == ProcessAction::Report(Report::Killed)
        }),
{
}

/// A task is made with what the configuration and the platform say, whatever else is
/// configured: the termination signal is the one that the configured name stands for, or
/// `SIGTERM` if it stands for none; the delay is the configured one; and the signal that
/// kills is always `SIGKILL`. It begins by waiting for the command to start.
pub proof fn law_task_is_made_as_configured(config: KoordinatorSpecView, signals: SignalNumbers)
    ensures
        ({
            let task = ProcessTask::initial(config, signals);
            &&& task.sigkill == signals.sigkill
            &&& task.stop_delay == config.stop_delay
            &&& task.phase is AwaitingStart
            &&& match signals.number_of(config.term_signal) {
                Some(number) => task.term_signal == number,
                None => task.term_signal == signals.sigterm,
            }
        }),
{
}

/// Whatever is configured and whatever happened before: if the time to exit has passed, the
/// child process is sent `SIGKILL`, which is signal 9 on every platform, and no other signal.
pub proof fn law_late_child_is_sent_sigkill(
    config: KoordinatorSpecView,
    signals: SignalNumbers,
    events: Seq<ProcessEvent>,
    i: int,
)
    requires
        signals.of_platform(),
        0 <= i < events.len(),
        events[i] is TimedOut,
    ensures
        ({
            let task = ProcessTask::initial(config, signals);
            &&& task.after_all(events.take(i)).phase is AwaitingExit ==> task.action_at(events, i)
                == ProcessAction::Kill(9)
            &&& !(task.after_all(events.take(i)).phase is AwaitingExit) ==> task.action_at(
                events,
                i,
            ) is Await
        }),
{
    lemma_after_all(ProcessTask::initial(config, signals), events.take(i));
}

/// From the command to start on: the child process is started; a command to stop has it sent
/// the signal that the command names; it then has the time that the command names; if it exits
/// in that time, it is reported as terminated with its own status; and if it does not, it is
/// sent `SIGKILL` and reported as killed. All this holds for every configuration.
pub proof fn law_life_of_a_stopped_child(
    config: KoordinatorSpecView,
    signals: SignalNumbers,
    signal: i32,
    timeout: Duration,
    status: ExitStatus,
)
    requires
        signals.of_platform(),
    ensures
        ({
            let start = ProcessEvent::Command(CommandToProcess::Start);
            let stop = ProcessEvent::Command(CommandToProcess::Stop(signal, timeout));
            let task = ProcessTask::initial(config, signals);
            let starting = task.after(start);
            let running = starting.after(ProcessEvent::Done);
            let stopping = running.after(stop);
            let waiting = stopping.after(ProcessEvent::Done);
            let killing = waiting.after(ProcessEvent::TimedOut);
            &&& task.action(start) is Spawn
            &&& starting.action(ProcessEvent::Done) is Await
            &&& running.phase is Running
            &&& running.action(ProcessEvent::Exited(status)) == ProcessAction::Report(
                Report::Exited(status),
            )
            &&& running.action(stop) == ProcessAction::Kill(signal)
            &&& stopping.action(ProcessEvent::Done) == ProcessAction::AwaitExit(timeout)
            &&& waiting.action(ProcessEvent::Exited(status)) == ProcessAction::Report(
                Report::Terminated(status),
            )
            &&& waiting.action(ProcessEvent::TimedOut) == ProcessAction::Kill(9)
            &&& killing.action(ProcessEvent::Done) == ProcessAction::Report(Report::Killed)
            &&& running.after(ProcessEvent::Exited(status)).phase is Finished
            &&& waiting.after(ProcessEvent::Exited(status)).phase is Finished
            &&& killing.after(ProcessEvent::Done).phase is Finished
        }),
{
}

/// For every configuration, a running child process is passed every signal that is received:
/// the termination signal after the configured delay, every other one at once. It keeps
/// running as far as the task is concerned.
pub proof fn law_received_signals_reach_the_child(
    config: KoordinatorSpecView,
    signals: SignalNumbers,
    signal: i32,
)
    ensures
        ({
            let start = ProcessEvent::Command(CommandToProcess::Start);
            let task = ProcessTask::initial(config, signals);
            let running = task.after(start).after(ProcessEvent::Done);
            let received = running.after(ProcessEvent::Signal(signal));
            let passed_on = received.after(ProcessEvent::Done);
            if signal == signals.configured(config.term_signal) {
                &&& running.action(ProcessEvent::Signal(signal)) == ProcessAction::Sleep(
                    config.stop_delay,
                )
                &&& received.action(ProcessEvent::Done) == ProcessAction::Kill(signal)
                &&& passed_on.action(ProcessEvent::Done) is Await
                &&& passed_on.after(ProcessEvent::Done) == running
            } else {
                &&& running.action(ProcessEvent::Signal(signal)) == ProcessAction::Kill(signal)
                &&& received.action(ProcessEvent::Done) is Await
                &&& passed_on == running
            }
        }),
{
}

/// What a task was made with never changes.
pub proof fn law_settings_never_change(task: ProcessTask, event: ProcessEvent)
    ensures
        task.after(event).term_signal == task.term_signal,
        task.after(event).stop_delay == task.stop_delay,
        task.after(event).sigkill == task.sigkill,
{
}

/// An event that the task does not wait for where it stands has it do nothing, and leaves it
/// where it stands.
pub proof fn law_unawaited_events_change_nothing(task: ProcessTask, event: ProcessEvent)
    requires
        match task.phase {
            Phase::AwaitingStart => event != ProcessEvent::Command(CommandToProcess::Start) && event
                !is CommandsClosed,
            Phase::Running => !(event matches ProcessEvent::Command(CommandToProcess::Stop(_, _)))
                && event !is Signal && event !is Exited,
            Phase::AwaitingExit => event !is Exited && event !is TimedOut,
            Phase::Finished => true,
            _ => event !is Done,
        },
    ensures
        task.action(event) is Await,
        task.after(event) == task,
{
}

/// Waiting for the start ends with the command to start, which has the child process started,
/// or with the end of the commands, which has the task give up for good.
pub proof fn law_waiting_for_the_start_ends(task: ProcessTask)
    requires
        task.phase is AwaitingStart,
    ensures
        task.action(ProcessEvent::Command(CommandToProcess::Start)) is Spawn,
        task.after(ProcessEvent::Command(CommandToProcess::Start)).phase is Starting,
        task.action(ProcessEvent::CommandsClosed) is End,
        task.after(ProcessEvent::CommandsClosed).phase is Finished,
{
}

/// Once what the task asked for has been done, it goes on: a signal that was held back is
/// passed on, a child process that was told to stop has the time it was given, and one that
/// was killed is reported; otherwise the task waits again.
pub proof fn law_task_goes_on(task: ProcessTask)
    ensures
        task.phase matches Phase::Delaying(signal) ==> {
            &&& task.action(ProcessEvent::Done) == ProcessAction::Kill(signal)
            &&& task.after(ProcessEvent::Done).phase is Forwarding
        },
        task.phase matches Phase::Stopping(timeout) ==> {
            &&& task.action(ProcessEvent::Done) == ProcessAction::AwaitExit(timeout)
            &&& task.after(ProcessEvent::Done).phase is AwaitingExit
        },
        task.phase is Killing ==> {
            &&& task.action(ProcessEvent::Done) == ProcessAction::Report(Report::Killed)
            &&& task.after(ProcessEvent::Done).phase is Finished
        },
        task.phase is Starting || task.phase is Forwarding ==> {
            &&& task.action(ProcessEvent::Done) is Await
            &&& task.after(ProcessEvent::Done).phase is Running
        },
{
}

/// The exit of the child process is reported with its own status: as its own exit while it
/// runs, and as its termination after it was told to stop.
pub proof fn law_exit_is_reported_with_its_status(task: ProcessTask, status: ExitStatus)
    ensures
        task.action(ProcessEvent::Exited(status)) == ProcessAction::Report(Report::Exited(status))
            <==> task.phase is Running,
        task.action(ProcessEvent::Exited(status)) == ProcessAction::Report(
            Report::Terminated(status),
        ) <==> task.phase is AwaitingExit,
        task.action(ProcessEvent::Exited(status)) is Report <==> task.after(
            ProcessEvent::Exited(status),
        ) != task,
{
}

/// The main loop is told of an end just as it was reported: reports that differ are told as
/// events that differ, and each with the status that it carries.
pub proof fn law_reports_are_told_as_they_are(report: Report, status: ExitStatus)
    ensures
        report == Report::Exited(status) <==> report.event() == EventView::ChildProcessExited(
            status,
        ),
        report == Report::Terminated(status) <==> report.event()
            == EventView::ChildProcessTerminatedBecauseStopDependency(status),
        report is Killed <==> report.event() is ChildProcessKilledBecauseStopDependency,
        report.event() !is ContainersStatusChanged,
{
}

} // verus!
