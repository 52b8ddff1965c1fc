//! The main loop: when the child process is started and stopped, and with which exit code
//! the koordinator ends.

use vstd::prelude::*;

use crate::config::{KoordinatorSpec, KoordinatorSpecView, StopDepExitedAction};
use crate::duration::Duration;
use crate::events::{
    CommandToProcess, ContainersStatus, ContainersStatusView, Event, EventView, ExitStatus,
};
use crate::numbers::{signed, to_signed};
use crate::signals::SignalNumbers;
use crate::text::{
    common, common_strings, contains_all, covers, law_common_is_on_both_lists, law_common_of_one,
    law_common_of_parts, texts,
};

verus! {

/// What the main loop does about a message.
#[derive(Clone, Copy, Debug, PartialEq, Eq, Structural)]
pub enum CoordinatorAction {
    /// It waits for the next message.
    Wait,
    /// It sends a command to the task that runs the child process.
    Send(CommandToProcess),
    /// It ends the koordinator with the given exit code.
    Exit(i32),
}

/// The state of the main loop.
#[derive(Debug)]
pub struct Coordinator {
    config: KoordinatorSpec,
    term_signal: i32,
    started: bool,
}

/// The contents of a `Coordinator`.
#[verifier::ext_equal]
pub struct CoordinatorView {
    /// The configuration.
    pub config: KoordinatorSpecView,
    /// The number of the configured termination signal.
    pub term_signal: i32,
    /// Whether the start of the child process has been commanded.
    pub started: bool,
}

impl View for Coordinator {
    type V = CoordinatorView;

    closed spec fn view(&self) -> CoordinatorView {
        CoordinatorView {
            config: self.config@,
            term_signal: self.term_signal,
            started: self.started,
        }
    }
}

/// The contents of a message, if one came.
pub open spec fn message_view(message: Option<Event>) -> Option<EventView> {
    match message {
        Some(event) => Some(event@),
        None => None,
    }
}

/// Whether an event reports all containers ready that have to be ready before the child
/// process is started.
pub open spec fn reports_ready(config: KoordinatorSpecView, event: EventView) -> bool {
    event matches EventView::ContainersStatusChanged(status) && covers(
        status.ready_containers,
        config.start_deps,
    )
}

/// Whether an event reports a container terminated whose termination stops the child
/// process.
pub open spec fn reports_stop_dep(config: KoordinatorSpecView, event: EventView) -> bool {
    event matches EventView::ContainersStatusChanged(status) && exists|i: int|
        0 <= i < config.stop_deps.len() && #[trigger] status.terminated_containers.contains(
            config.stop_deps[i],
        )
}

impl CoordinatorView {
    /// The state in which the main loop begins.
    pub open spec fn initial(config: KoordinatorSpecView, term_signal: i32) -> CoordinatorView {
        CoordinatorView { config, term_signal, started: false }
    }

    /// The stop dependencies that have terminated.
    pub open spec fn stopped_deps(self, status: ContainersStatusView) -> Seq<Seq<char>> {
        common(self.config.stop_deps, status.terminated_containers)
    }

    /// Whether a status has the child process started.
    pub open spec fn start_due(self, status: ContainersStatusView) -> bool {
        !self.started && covers(status.ready_containers, self.config.start_deps)
    }

    /// Whether a status has the child process stopped.
    pub open spec fn stop_due(self, status: ContainersStatusView) -> bool {
        self.started && self.stopped_deps(status).len() > 0
    }

    /// The command that stops the child process; there is none for HTTP requests, which
    /// are not implemented.
    pub open spec fn stop_command(self) -> Option<CommandToProcess> {
        match self.config.when_stop_dep_exited {
            StopDepExitedAction::Default => Some(
                CommandToProcess::Stop(self.term_signal, self.config.term_timeout),
            ),
            StopDepExitedAction::Signal(signal) => Some(
                CommandToProcess::Stop(signal, self.config.term_timeout),
            ),
            StopDepExitedAction::Http(_) => None,
        }
    }

    /// Whether a message calls for an HTTP request to the child process.
    pub open spec fn http_due(self, message: Option<EventView>) -> bool {
        message matches Some(EventView::ContainersStatusChanged(status)) && self.stop_due(status)
            && self.config.when_stop_dep_exited is Http
    }

    /// The exit code after the child process stopped in time because of a stop dependency.
    pub open spec fn code_when_terminated(self, child_code: i32) -> i32 {
        if self.config.terminated_by_stop_dep_exit_code < 0 {
            child_code
        } else {
            self.config.terminated_by_stop_dep_exit_code
        }
    }

    /// What the main loop does about a message, or about the end of the messages.
    pub open spec fn action(self, message: Option<EventView>) -> CoordinatorAction {
        match message {
            None => CoordinatorAction::Exit(0),
            Some(EventView::ChildProcessExited(status)) => CoordinatorAction::Exit(
                status.code_or_zero(),
            ),
            Some(EventView::ChildProcessTerminatedBecauseStopDependency(status)) => {
                CoordinatorAction::Exit(self.code_when_terminated(status.code_or_zero()))
            },
            Some(EventView::ChildProcessKilledBecauseStopDependency) => CoordinatorAction::Exit(
                signed(self.config.killed_by_stop_dep_exit_code) as i32,
            ),
            Some(EventView::ContainersStatusChanged(status)) => {
                if self.start_due(status) {
                    CoordinatorAction::Send(CommandToProcess::Start)
                } else if self.stop_due(status) {
                    match self.stop_command() {
                        Some(command) => CoordinatorAction::Send(command),
                        None => CoordinatorAction::Wait,
                    }
                } else {
                    CoordinatorAction::Wait
                }
            },
        }
    }

    /// The state after a message.
    pub open spec fn after(self, message: Option<EventView>) -> CoordinatorView {
        match message {
            Some(EventView::ContainersStatusChanged(status)) => CoordinatorView {
                started: self.started || self.start_due(status),
                ..self
            },
            _ => self,
        }
    }

    /// The state after a sequence of messages.
    pub open spec fn after_all(self, events: Seq<EventView>) -> CoordinatorView
        decreases events.len(),
    {
        if events.len() == 0 {
            self
        } else {
            self.after_all(events.drop_last()).after(Some(events.last()))
        }
    }

    /// What the main loop does about the message at position `i` of a sequence.
    pub open spec fn action_at(self, events: Seq<EventView>, i: int) -> CoordinatorAction {
        self.after_all(events.take(i)).action(Some(events[i]))
    }
}

impl Coordinator {
    /// The main loop before its first message.
    pub fn new(config: KoordinatorSpec, signals: &SignalNumbers) -> (coordinator: Coordinator)
        ensures
            coordinator@ == CoordinatorView::initial(
                config@,
                signals.configured(config@.term_signal),
            ),
    {
        let term_signal: i32 = signals.configured_or_sigterm(config.term_signal.as_str());
        Coordinator { config, term_signal, started: false }
    }

    /// Whether the start of the child process has been commanded.
    pub fn has_started(&self) -> (started: bool)
        ensures
            started == self@.started,
    {
        self.started
    }

    /// The stop dependencies that have terminated.
    pub fn stopped_deps(&self, status: &ContainersStatus) -> (names: Vec<String>)
        ensures
            texts(names@) == self@.stopped_deps(status@),
    {
        common_strings(&self.config.stop_deps, &status.terminated_containers)
    }

    /// Whether a message calls for an HTTP request to the child process.
    pub fn asks_for_http(&self, message: &Option<Event>) -> (asks: bool)
        ensures
            asks == self@.http_due(message_view(*message)),
    {
        match message {
            Some(Event::ContainersStatusChanged(status)) => {
                let stopped: Vec<String> = self.stopped_deps(status);
                let http: bool = match self.config.when_stop_dep_exited {
                    StopDepExitedAction::Http(_) => true,
                    _ => false,
                };
                assert(texts(stopped@).len() == stopped@.len());
                self.started && stopped.len() > 0 && http
            },
            _ => false,
        }
    }

    /// Decides what is done about a message, or about the end of the messages.
    pub fn step(&mut self, message: Option<Event>) -> (action: CoordinatorAction)
        requires
            !old(self)@.http_due(message_view(message)),
        ensures
            action == old(self)@.action(message_view(message)),
            final(self)@ == old(self)@.after(message_view(message)),
    {
        match message {
            None => CoordinatorAction::Exit(0),
            Some(Event::ChildProcessExited(status)) => CoordinatorAction::Exit(status.exit_code()),
            Some(Event::ChildProcessTerminatedBecauseStopDependency(status)) => {
                if self.config.terminated_by_stop_dep_exit_code < 0 {
                    CoordinatorAction::Exit(status.exit_code())
                } else {
                    CoordinatorAction::Exit(self.config.terminated_by_stop_dep_exit_code)
                }
            },
            Some(Event::ChildProcessKilledBecauseStopDependency) => {
                CoordinatorAction::Exit(to_signed(self.config.killed_by_stop_dep_exit_code))
            },
            Some(Event::ContainersStatusChanged(status)) => self.on_status(status),
        }
    }

    /// Decides what is done about a change of the containers' status.
    fn on_status(&mut self, status: ContainersStatus) -> (action: CoordinatorAction)
        requires
            !old(self)@.http_due(Some(EventView::ContainersStatusChanged(status@))),
        ensures
            action == old(self)@.action(Some(EventView::ContainersStatusChanged(status@))),
            final(self)@ == old(self)@.after(Some(EventView::ContainersStatusChanged(status@))),
    {
        if !self.started {
            if contains_all(&status.ready_containers, &self.config.start_deps) {
                self.started = true;
                CoordinatorAction::Send(CommandToProcess::Start)
            } else {
                CoordinatorAction::Wait
            }
        } else {
            let stopped: Vec<String> = self.stopped_deps(&status);
            assert(texts(stopped@).len() == stopped@.len());
            if stopped.len() == 0 {
                return CoordinatorAction::Wait;
            }
            match self.config.when_stop_dep_exited {
                StopDepExitedAction::Default => CoordinatorAction::Send(
                    CommandToProcess::Stop(self.term_signal, self.config.term_timeout),
                ),
                StopDepExitedAction::Signal(signal) => CoordinatorAction::Send(
                    CommandToProcess::Stop(signal, self.config.term_timeout),
                ),
                StopDepExitedAction::Http(_) => CoordinatorAction::Wait,
            }
        }
    }
}

/// Messages change neither the configuration nor the termination signal, and the start has
/// been commanded if and only if it had been before or one of the messages reported all
/// start dependencies ready.
proof fn lemma_after_all(c: CoordinatorView, events: Seq<EventView>)
    ensures
        c.after_all(events).config == c.config,
        c.after_all(events).term_signal == c.term_signal,
        c.after_all(events).started <==> c.started || exists|k: int|
            0 <= k < events.len() && reports_ready(c.config, #[trigger] events[k]),
    decreases events.len(),
{
    if events.len() > 0 {
        let front = events.drop_last();
        lemma_after_all(c, front);
        assert(forall|k: int| 0 <= k < front.len() ==> events[k] == #[trigger] front[k]);
        if c.after_all(events).started && !c.started {
            if c.after_all(front).started {
                let k = choose|k: int|
                    0 <= k < front.len() && reports_ready(c.config, #[trigger] front[k]);
                assert(reports_ready(c.config, events[k]));
            } else {
                assert(reports_ready(c.config, events[events.len() - 1]));
            }
        }
        if exists|k: int| 0 <= k < events.len() && reports_ready(c.config, #[trigger] events[k]) {
            let k = choose|k: int|
                0 <= k < events.len() && reports_ready(c.config, #[trigger] events[k]);
            if k < front.len() {
                assert(reports_ready(c.config, front[k]));
            }
        }
    }
}

/// Two lists have something in common if and only if an element of the one is in the other.
proof fn lemma_some_in_common(candidates: Seq<Seq<char>>, present: Seq<Seq<char>>)
    ensures
        common(candidates, present).len() > 0 <==> exists|i: int|
            0 <= i < candidates.len() && #[trigger] present.contains(candidates[i]),
    decreases candidates.len(),
{
    reveal(Seq::filter);
    if candidates.len() > 0 {
        let front = candidates.drop_last();
        lemma_some_in_common(front, present);
        if exists|i: int| 0 <= i < candidates.len() && #[trigger] present.contains(candidates[i]) {
            let i = choose|i: int|
                0 <= i < candidates.len() && #[trigger] present.contains(candidates[i]);
            if i < front.len() {
                assert(present.contains(front[i]));
            }
        }
        if common(front, present).len() > 0 {
            let i = choose|i: int| 0 <= i < front.len() && #[trigger] present.contains(front[i]);
            assert(present.contains(candidates[i]));
        }
        if present.contains(candidates.last()) {
            assert(present.contains(candidates[candidates.len() - 1]));
        }
    }
}

/// The start of the child process is commanded exactly at the first message that reports
/// all start dependencies ready: not before they are ready, and as soon as they are.
pub proof fn law_start_when_first_ready(
    config: KoordinatorSpecView,
    term_signal: i32,
    events: Seq<EventView>,
    i: int,
)
    requires
        0 <= i < events.len(),
    ensures
        CoordinatorView::initial(config, term_signal).action_at(events, i)
            == CoordinatorAction::Send(CommandToProcess::Start) <==> {
            &&& reports_ready(config, events[i])
            &&& forall|k: int| 0 <= k < i ==> !reports_ready(config, #[trigger] events[k])
        },
{
    let before = events.take(i);
    lemma_after_all(CoordinatorView::initial(config, term_signal), before);
    assert(forall|k: int| 0 <= k < i ==> events[k] == #[trigger] before[k]);
    if exists|k: int| 0 <= k < i && reports_ready(config, #[trigger] events[k]) {
        let k = choose|k: int| 0 <= k < i && reports_ready(config, #[trigger] events[k]);
        assert(reports_ready(config, before[k]));
    }
}

/// The start of the child process is commanded at most once.
pub proof fn law_start_at_most_once(
    config: KoordinatorSpecView,
    term_signal: i32,
    events: Seq<EventView>,
    i: int,
    j: int,
)
    requires
        0 <= i < events.len(),
        0 <= j < events.len(),
        CoordinatorView::initial(config, term_signal).action_at(events, i)
            == CoordinatorAction::Send(CommandToProcess::Start),
        CoordinatorView::initial(config, term_signal).action_at(events, j)
            == CoordinatorAction::Send(CommandToProcess::Start),
    ensures
        i == j,
{
    law_start_when_first_ready(config, term_signal, events, i);
    law_start_when_first_ready(config, term_signal, events, j);
}

/// If one of the messages before position `i` reports all start dependencies ready, then
/// at one of those messages the start is commanded.
proof fn lemma_start_before(
    config: KoordinatorSpecView,
    term_signal: i32,
    events: Seq<EventView>,
    i: int,
) -> (k: int)
    requires
        0 <= i <= events.len(),
        exists|k: int| 0 <= k < i && reports_ready(config, #[trigger] events[k]),
    ensures
        0 <= k < i,
        CoordinatorView::initial(config, term_signal).action_at(events, k)
            == CoordinatorAction::Send(CommandToProcess::Start),
    decreases i,
{
    let k = choose|k: int| 0 <= k < i && reports_ready(config, #[trigger] events[k]);
    if exists|m: int| 0 <= m < k && reports_ready(config, #[trigger] events[m]) {
        lemma_start_before(config, term_signal, events, k)
    } else {
        law_start_when_first_ready(config, term_signal, events, k);
        k
    }
}

/// A stop of the child process is commanded exactly at the messages that report a stop
/// dependency terminated after an earlier message had the child process started, unless
/// the configuration asks for an HTTP request. The command carries the configured signal,
/// or the termination signal if none is configured, and the configured timeout.
pub proof fn law_stop_when_stop_dep_terminated(
    config: KoordinatorSpecView,
    term_signal: i32,
    events: Seq<EventView>,
    i: int,
    signal: i32,
    timeout: Duration,
)
    requires
        0 <= i < events.len(),
    ensures
        CoordinatorView::initial(config, term_signal).action_at(events, i)
            == CoordinatorAction::Send(CommandToProcess::Stop(signal, timeout)) <==> {
            &&& reports_stop_dep(config, events[i])
            &&& exists|k: int| 0 <= k < i && reports_ready(config, #[trigger] events[k])
            &&& match config.when_stop_dep_exited {
                StopDepExitedAction::Default => signal == term_signal,
                StopDepExitedAction::Signal(configured) => signal == configured,
                StopDepExitedAction::Http(_) => false,
            }
            &&& timeout == config.term_timeout
        },
{
    let before = events.take(i);
    let c = CoordinatorView::initial(config, term_signal);
    lemma_after_all(c, before);
    assert(forall|k: int| 0 <= k < i ==> events[k] == #[trigger] before[k]);
    if c.after_all(before).started {
        let k = choose|k: int| 0 <= k < i && reports_ready(config, #[trigger] before[k]);
        assert(reports_ready(config, events[k]));
    }
    if exists|k: int| 0 <= k < i && reports_ready(config, #[trigger] events[k]) {
        let k = choose|k: int| 0 <= k < i && reports_ready(config, #[trigger] events[k]);
        assert(reports_ready(config, before[k]));
    }
    if let EventView::ContainersStatusChanged(status) = events[i] {
        lemma_some_in_common(config.stop_deps, status.terminated_containers);
    }
}

/// No stop is commanded before the start was.
pub proof fn law_no_stop_before_start(
    config: KoordinatorSpecView,
    term_signal: i32,
    events: Seq<EventView>,
    i: int,
    signal: i32,
    timeout: Duration,
)
    requires
        0 <= i < events.len(),
        CoordinatorView::initial(config, term_signal).action_at(events, i)
            == CoordinatorAction::Send(CommandToProcess::Stop(signal, timeout)),
    ensures
        exists|k: int|
            0 <= k < i && #[trigger] CoordinatorView::initial(config, term_signal).action_at(
                events,
                k,
            ) == CoordinatorAction::Send(CommandToProcess::Start),
{
    law_stop_when_stop_dep_terminated(config, term_signal, events, i, signal, timeout);
    let k = lemma_start_before(config, term_signal, events, i);
}

/// The koordinator ends exactly when it is told that its child process has ended.
pub proof fn law_exit_when_child_has_ended(c: CoordinatorView, events: Seq<EventView>, i: int)
    requires
        0 <= i < events.len(),
    ensures
        c.action_at(events, i) is Exit <==> !(events[i] is ContainersStatusChanged),
{
}

/// Without start dependencies the first status of the pod has the child process started.
pub proof fn law_no_start_deps_start_at_once(c: CoordinatorView, status: ContainersStatusView)
    requires
        c.config.start_deps.len() == 0,
        !c.started,
    ensures
        c.action(Some(EventView::ContainersStatusChanged(status))) == CoordinatorAction::Send(
            CommandToProcess::Start,
        ),
{
}

/// Without stop dependencies no status of the pod has the child process stopped.
pub proof fn law_no_stop_deps_no_stop(c: CoordinatorView, status: ContainersStatusView)
    requires
        c.config.stop_deps.len() == 0,
    ensures
        !c.stop_due(status),
        !(c.action(Some(EventView::ContainersStatusChanged(status))) matches CoordinatorAction::Send(
            CommandToProcess::Stop(_, _),
        )),
{
    lemma_some_in_common(c.config.stop_deps, status.terminated_containers);
}

/// Further ready containers never hold up the start: what has the child process started
/// still does when more containers are ready.
pub proof fn law_more_ready_containers_still_start(
    c: CoordinatorView,
    fewer: ContainersStatusView,
    more: ContainersStatusView,
)
    requires
        covers(more.ready_containers, fewer.ready_containers),
        c.start_due(fewer),
    ensures
        c.start_due(more),
{
    assert forall|i: int| 0 <= i < c.config.start_deps.len() implies
        #[trigger] more.ready_containers.contains(c.config.start_deps[i]) by {
        assert(fewer.ready_containers.contains(c.config.start_deps[i]));
        let k = choose|k: int|
            0 <= k < fewer.ready_containers.len() && fewer.ready_containers[k]
                == c.config.start_deps[i];
        assert(more.ready_containers.contains(fewer.ready_containers[k]));
    }
}

/// Further terminated containers never hold up the stop.
pub proof fn law_more_terminated_containers_still_stop(
    c: CoordinatorView,
    fewer: ContainersStatusView,
    more: ContainersStatusView,
)
    requires
        covers(more.terminated_containers, fewer.terminated_containers),
        c.stop_due(fewer),
    ensures
        c.stop_due(more),
{
    lemma_some_in_common(c.config.stop_deps, fewer.terminated_containers);
    lemma_some_in_common(c.config.stop_deps, more.terminated_containers);
    let i = choose|i: int|
        0 <= i < c.config.stop_deps.len() && #[trigger] fewer.terminated_containers.contains(
            c.config.stop_deps[i],
        );
    let k = choose|k: int|
        0 <= k < fewer.terminated_containers.len() && fewer.terminated_containers[k]
            == c.config.stop_deps[i];
    assert(more.terminated_containers.contains(fewer.terminated_containers[k]));
}

/// The main loop begins with its configuration and its termination signal as they are, and
/// without having commanded the start.
pub proof fn law_begins_unstarted(config: KoordinatorSpecView, term_signal: i32)
    ensures
        ({
            let c = CoordinatorView::initial(config, term_signal);
            &&& c.config == config
            &&& c.term_signal == term_signal
            &&& !c.started
        }),
{
}

/// A message changes nothing but whether the start has been commanded, and that only by
/// commanding it; it is never forgotten.
pub proof fn law_only_the_start_is_remembered(c: CoordinatorView, message: Option<EventView>)
    ensures
        c.after(message).config == c.config,
        c.after(message).term_signal == c.term_signal,
        c.after(message).started <==> c.started || c.action(message) == CoordinatorAction::Send(
            CommandToProcess::Start,
        ),
{
}

/// A status has the child process started if and only if it was not started before and every
/// single start dependency is among the ready containers.
pub proof fn law_started_once_every_start_dep_is_ready(
    c: CoordinatorView,
    status: ContainersStatusView,
)
    ensures
        c.action(Some(EventView::ContainersStatusChanged(status))) == CoordinatorAction::Send(
            CommandToProcess::Start,
        ) <==> !c.started && forall|i: int|
            0 <= i < c.config.start_deps.len() ==> status.ready_containers.contains(
                #[trigger] c.config.start_deps[i],
            ),
        c.start_due(status) <==> !c.started && forall|i: int|
            0 <= i < c.config.start_deps.len() ==> status.ready_containers.contains(
                #[trigger] c.config.start_deps[i],
            ),
        reports_ready(c.config, EventView::ContainersStatusChanged(status)) <==> forall|i: int|
            0 <= i < c.config.start_deps.len() ==> status.ready_containers.contains(
                #[trigger] c.config.start_deps[i],
            ),
{
}

/// A status has the child process stopped if and only if it was started before and one of the
/// stop dependencies, whichever it is, is among the terminated containers. The signal is the
/// one that is configured for this, or the termination signal if none is; the time that the
/// child process has is the configured one. Only an HTTP request that is asked for instead is
/// not sent.
pub proof fn law_stopped_once_a_stop_dep_has_terminated(
    c: CoordinatorView,
    status: ContainersStatusView,
    signal: i32,
    timeout: Duration,
)
    ensures
        c.action(Some(EventView::ContainersStatusChanged(status))) == CoordinatorAction::Send(
            CommandToProcess::Stop(signal, timeout),
        ) <==> {
            &&& c.started
            &&& exists|i: int|
                0 <= i < c.config.stop_deps.len() && status.terminated_containers.contains(
                    #[trigger] c.config.stop_deps[i],
                )
            &&& c.config.when_stop_dep_exited == StopDepExitedAction::Signal(signal) || (
            c.config.when_stop_dep_exited is Default && signal == c.term_signal)
            &&& timeout == c.config.term_timeout
        },
        c.stop_due(status) <==> c.started && exists|i: int|
            0 <= i < c.config.stop_deps.len() && status.terminated_containers.contains(
                #[trigger] c.config.stop_deps[i],
            ),
        c.http_due(Some(EventView::ContainersStatusChanged(status))) <==> {
            &&& c.started
            &&& exists|i: int|
                0 <= i < c.config.stop_deps.len() && status.terminated_containers.contains(
                    #[trigger] c.config.stop_deps[i],
                )
            &&& c.config.when_stop_dep_exited is Http
        },
        reports_stop_dep(c.config, EventView::ContainersStatusChanged(status)) <==> exists|i: int|
            0 <= i < c.config.stop_deps.len() && status.terminated_containers.contains(
                #[trigger] c.config.stop_deps[i],
            ),
{
    lemma_some_in_common(c.config.stop_deps, status.terminated_containers);
    if exists|i: int|
        0 <= i < c.config.stop_deps.len() && status.terminated_containers.contains(
            #[trigger] c.config.stop_deps[i],
        ) {
        let i = choose|i: int|
            0 <= i < c.config.stop_deps.len() && status.terminated_containers.contains(
                #[trigger] c.config.stop_deps[i],
            );
        let event = EventView::ContainersStatusChanged(status);
        assert(event->ContainersStatusChanged_0.terminated_containers.contains(
            c.config.stop_deps[i],
        ));
        assert(status.terminated_containers.contains(c.config.stop_deps[i]));
    }
}

/// The exit code is that of the child process if it exited on its own, and 0 if a signal ended
/// it. If it was stopped in time because of a stop dependency, the exit code is the configured
/// one, or if that is negative again that of the child process. If it had to be killed, it is
/// the one configured for this, with the same bits. Without any more messages it is 0.
pub proof fn law_exit_code_says_how_the_child_ended(c: CoordinatorView, exit: ExitStatus, code: i32)
    ensures
        exit.code == Some(code) ==> c.action(Some(EventView::ChildProcessExited(exit)))
            == CoordinatorAction::Exit(code),
        exit.code is None ==> c.action(Some(EventView::ChildProcessExited(exit)))
            == CoordinatorAction::Exit(0),
        c.config.terminated_by_stop_dep_exit_code >= 0 ==> c.action(
            Some(EventView::ChildProcessTerminatedBecauseStopDependency(exit)),
        ) == CoordinatorAction::Exit(c.config.terminated_by_stop_dep_exit_code),
        c.config.terminated_by_stop_dep_exit_code < 0 ==> c.action(
            Some(EventView::ChildProcessTerminatedBecauseStopDependency(exit)),
        ) == c.action(Some(EventView::ChildProcessExited(exit))),
        c.action(Some(EventView::ChildProcessKilledBecauseStopDependency)) matches
            CoordinatorAction::Exit(killed) && (killed - c.config.killed_by_stop_dep_exit_code)
            % 0x1_0000_0000 == 0,
        c.action(None) == CoordinatorAction::Exit(0),
{
}

/// No message but a status calls for an HTTP request, and no status ends the koordinator.
pub proof fn law_only_a_status_calls_for_http(c: CoordinatorView, message: Option<EventView>)
    ensures
        c.http_due(message) ==> message is Some && message->0 is ContainersStatusChanged,
        c.action(message) is Exit <==> !(message is Some && message->0 is ContainersStatusChanged),
{
}

/// The stop dependencies that are said to have terminated are stop dependencies, and they are
/// among the terminated containers; none of these is left out. They are in the order in which
/// they are configured: those of a first part of the list come before those of the rest.
pub proof fn law_stopped_deps_are_the_terminated_ones(
    c: CoordinatorView,
    first: CoordinatorView,
    rest: CoordinatorView,
    status: ContainersStatusView,
    name: Seq<char>,
)
    ensures
        c.stopped_deps(status).contains(name) <==> c.config.stop_deps.contains(name)
            && status.terminated_containers.contains(name),
        c.config.stop_deps == first.config.stop_deps + rest.config.stop_deps ==> c.stopped_deps(
            status,
        ) == first.stopped_deps(status) + rest.stopped_deps(status),
        c.config.stop_deps == seq![name] ==> c.stopped_deps(status).len() <= 1,
{
    law_common_is_on_both_lists(c.config.stop_deps, status.terminated_containers, name);
    law_common_of_parts(
        first.config.stop_deps,
        rest.config.stop_deps,
        status.terminated_containers,
    );
    law_common_of_one(name, status.terminated_containers);
}

/// The contents of a message are those of the event, if one came.
pub proof fn law_messages_are_seen_as_they_are(message: Option<Event>)
    ensures
        message is None <==> message_view(message) is None,
        message matches Some(event) ==> message_view(message) == Some(event@),
{
}

} // verus!
