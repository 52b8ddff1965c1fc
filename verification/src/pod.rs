//! The pod that the koordinator runs in, as far as it looks at it.

use vstd::prelude::*;

use crate::events::{ContainersStatus, ContainersStatusView, Event, EventView};
use crate::text::texts;

verus! {

/// The state of a container.
#[derive(Clone, Copy, Debug, PartialEq, Eq, Structural)]
pub struct ContainerState {
    /// Whether the container has terminated.
    pub terminated: bool,
}

/// The status of one container of a pod.
#[derive(Debug)]
pub struct ContainerStatus {
    pub name: String,
    pub ready: bool,
    pub state: Option<ContainerState>,
}

/// The status of a pod.
#[derive(Debug)]
pub struct PodStatus {
    pub container_statuses: Option<Vec<ContainerStatus>>,
}

/// A pod.
#[derive(Debug)]
pub struct Pod {
    pub status: Option<PodStatus>,
}

/// What watching the pod brings.
#[derive(Debug)]
pub enum WatchEvent {
    /// The pod is in the given condition.
    Applied(Pod),
    /// The pod was deleted.
    Deleted,
    /// Watching the pod failed.
    Failed,
}

/// What is done about something that watching the pod brought.
#[derive(Debug)]
pub enum WatchAction {
    /// The main loop is told.
    Send(Event),
    /// The pod is no longer watched.
    Stop,
}

/// The contents of a `WatchAction`.
pub enum WatchActionView {
    Send(EventView),
    Stop,
}

impl View for WatchAction {
    type V = WatchActionView;

    open spec fn view(&self) -> WatchActionView {
        match self {
            WatchAction::Send(event) => WatchActionView::Send(event@),
            WatchAction::Stop => WatchActionView::Stop,
        }
    }
}

impl ContainerStatus {
    /// Whether the container is known to have terminated.
    pub open spec fn has_terminated(self) -> bool {
        self.state is Some && self.state->0.terminated
    }
}

impl Pod {
    /// The statuses of the containers that the pod reports; none if it reports no status.
    pub open spec fn container_statuses(self) -> Seq<ContainerStatus> {
        match self.status {
            Some(PodStatus { container_statuses: Some(statuses) }) => statuses@,
            _ => Seq::empty(),
        }
    }

    /// The names of the containers that are ready and of those that have terminated, each
    /// in the order in which the pod reports them.
    pub open spec fn containers(self) -> ContainersStatusView {
        ContainersStatusView {
            ready_containers: ready_names(self.container_statuses()),
            terminated_containers: terminated_names(self.container_statuses()),
        }
    }
}

/// The names of the containers that are ready.
pub open spec fn ready_names(statuses: Seq<ContainerStatus>) -> Seq<Seq<char>> {
    statuses.filter(|c: ContainerStatus| c.ready).map_values(|c: ContainerStatus| c.name@)
}

/// The names of the containers that have terminated.
pub open spec fn terminated_names(statuses: Seq<ContainerStatus>) -> Seq<Seq<char>> {
    statuses.filter(|c: ContainerStatus| c.has_terminated()).map_values(
        |c: ContainerStatus| c.name@,
    )
}

proof fn lemma_names_push(statuses: Seq<ContainerStatus>, last: ContainerStatus)
    ensures
        ready_names(statuses.push(last)) == (if last.ready {
            ready_names(statuses).push(last.name@)
        } else {
            ready_names(statuses)
        }),
        terminated_names(statuses.push(last)) == (if last.has_terminated() {
            terminated_names(statuses).push(last.name@)
        } else {
            terminated_names(statuses)
        }),
{
    statuses.lemma_filter_push(last, |c: ContainerStatus| c.ready);
    statuses.lemma_filter_push(last, |c: ContainerStatus| c.has_terminated());
    assert(ready_names(statuses.push(last)) =~= if last.ready {
        ready_names(statuses).push(last.name@)
    } else {
        ready_names(statuses)
    });
    assert(terminated_names(statuses.push(last)) =~= if last.has_terminated() {
        terminated_names(statuses).push(last.name@)
    } else {
        terminated_names(statuses)
    });
}

/// The ready and the terminated containers of a pod.
pub fn containers_status(p: &Pod) -> (containers: ContainersStatus)
    ensures
        containers@ == p.containers(),
{
    let mut ready_containers: Vec<String> = Vec::new();
    let mut terminated_containers: Vec<String> = Vec::new();
    proof {
        reveal(Seq::filter);
        assert(ready_names(Seq::empty()) =~= Seq::empty());
        assert(terminated_names(Seq::empty()) =~= Seq::empty());
        assert(texts(ready_containers@) =~= Seq::empty());
    }
    if let Some(PodStatus { container_statuses: Some(statuses) }) = &p.status {
        let mut i: usize = 0;
        assert(statuses@.take(0) =~= Seq::empty());
        while i < statuses.len()
            invariant
                i <= statuses@.len(),
                texts(ready_containers@) == ready_names(statuses@.take(i as int)),
                texts(terminated_containers@) == terminated_names(statuses@.take(i as int)),
            decreases statuses@.len() - i,
        {
            let c: &ContainerStatus = &statuses[i];
            proof {
                lemma_names_push(statuses@.take(i as int), *c);
                assert(statuses@.take(i + 1) =~= statuses@.take(i as int).push(*c));
            }
            let terminated: bool = match &c.state {
                Some(state) => state.terminated,
                None => false,
            };
            if c.ready {
                let ghost earlier = ready_containers@;
                ready_containers.push(c.name.clone());
                assert(texts(ready_containers@) =~= texts(earlier).push(c.name@));
            }
            if terminated {
                let ghost earlier = terminated_containers@;
                terminated_containers.push(c.name.clone());
                assert(texts(terminated_containers@) =~= texts(earlier).push(c.name@));
            }
            i += 1;
        }
        assert(statuses@.take(i as int) =~= statuses@);
    }
    ContainersStatus { ready_containers, terminated_containers }
}

/// What is done about something that watching the pod brought, or about the end of the
/// watch.
pub open spec fn watch_action(event: Option<WatchEvent>) -> WatchActionView {
    match event {
        Some(WatchEvent::Applied(pod)) => {
            WatchActionView::Send(EventView::ContainersStatusChanged(pod.containers()))
        },
        _ => WatchActionView::Stop,
    }
}

/// What the main loop is told over a whole watch: each event is acted on in turn, until one
/// has the watch stop.
pub open spec fn told(events: Seq<WatchEvent>) -> Seq<EventView>
    decreases events.len(),
{
    if events.len() == 0 {
        Seq::empty()
    } else {
        match watch_action(Some(events.first())) {
            WatchActionView::Send(event) => seq![event] + told(events.drop_first()),
            WatchActionView::Stop => Seq::empty(),
        }
    }
}

/// Decides what is done about something that watching the pod brought: every condition of
/// the pod is reported, and the watch ends with a failure, with the deletion of the pod,
/// or when nothing more comes.
pub fn on_watch_event(event: Option<WatchEvent>) -> (action: WatchAction)
    ensures
        action@ == watch_action(event),
        match event {
            Some(WatchEvent::Applied(pod)) => action matches WatchAction::Send(
                Event::ContainersStatusChanged(status),
            ) && status@ == pod.containers(),
            _ => action is Stop,
        },
{
    match event {
        Some(WatchEvent::Applied(pod)) => {
            WatchAction::Send(Event::ContainersStatusChanged(containers_status(&pod)))
        },
        Some(WatchEvent::Deleted) => WatchAction::Stop,
        Some(WatchEvent::Failed) => WatchAction::Stop,
        None => WatchAction::Stop,
    }
}

/// A name is reported as ready if and only if a container of that name is ready, and as
/// terminated if and only if a container of that name has terminated.
pub proof fn law_reported_names(pod: Pod, name: Seq<char>)
    ensures
        pod.containers().ready_containers.contains(name) <==> exists|i: int|
            0 <= i < pod.container_statuses().len()
                && (#[trigger] pod.container_statuses()[i]).name@ == name
                && pod.container_statuses()[i].ready,
        pod.containers().terminated_containers.contains(name) <==> exists|i: int|
            0 <= i < pod.container_statuses().len()
                && (#[trigger] pod.container_statuses()[i]).name@ == name
                && pod.container_statuses()[i].state is Some
                && pod.container_statuses()[i].state->0.terminated,
{
    lemma_reported_names(pod.container_statuses(), name);
}

proof fn lemma_reported_names(statuses: Seq<ContainerStatus>, name: Seq<char>)
    ensures
        ready_names(statuses).contains(name) <==> exists|i: int|
            0 <= i < statuses.len() && (#[trigger] statuses[i]).name@ == name && statuses[i].ready,
        terminated_names(statuses).contains(name) <==> exists|i: int|
            0 <= i < statuses.len() && (#[trigger] statuses[i]).name@ == name
                && statuses[i].has_terminated(),
    decreases statuses.len(),
{
    if statuses.len() == 0 {
        reveal(Seq::filter);
    } else {
        let front = statuses.drop_last();
        let last = statuses.last();
        lemma_reported_names(front, name);
        lemma_names_push(front, last);
        assert(statuses =~= front.push(last));
        assert(forall|i: int| 0 <= i < front.len() ==> statuses[i] == #[trigger] front[i]);
        assert(statuses[statuses.len() - 1] == last);
        let ready = ready_names(front);
        assert(ready.push(last.name@)[ready.len() as int] == last.name@);
        assert(forall|i: int|
            0 <= i < ready.len() ==> ready.push(last.name@)[i] == #[trigger] ready[i]);
        let ended = terminated_names(front);
        assert(ended.push(last.name@)[ended.len() as int] == last.name@);
        assert(forall|i: int|
            0 <= i < ended.len() ==> ended.push(last.name@)[i] == #[trigger] ended[i]);
    }
}

/// Watching is given up for nothing but a failure, the deletion of the pod, or the end of
/// what the watch brings.
pub proof fn law_every_condition_is_reported(event: Option<WatchEvent>)
    ensures
        watch_action(event) is Send <==> event is Some && event->0 is Applied,
{
}

/// Over a whole watch the main loop is told the status of every condition of the pod that
/// comes before the first failure or deletion, in the order in which they come, and nothing
/// else: `n` is where that failure or deletion is, or the end of the events if there is none.
pub proof fn law_told_until_failure_or_deletion(events: Seq<WatchEvent>, n: int)
    requires
        0 <= n <= events.len(),
        forall|i: int| 0 <= i < n ==> #[trigger] events[i] is Applied,
        n < events.len() ==> !(events[n] is Applied),
    ensures
        told(events).len() == n,
        forall|i: int|
            0 <= i < n ==> #[trigger] told(events)[i] == EventView::ContainersStatusChanged(
                events[i]->Applied_0.containers(),
            ),
    decreases events.len(),
{
    if n > 0 {
        let rest = events.drop_first();
        assert(events[0] is Applied);
        assert forall|i: int| 0 <= i < n - 1 implies #[trigger] rest[i] is Applied by {
            assert(events[i + 1] is Applied);
        }
        law_told_until_failure_or_deletion(rest, n - 1);
        assert forall|i: int| 0 <= i < n implies #[trigger] told(events)[i]
            == EventView::ContainersStatusChanged(events[i]->Applied_0.containers()) by {
            if i > 0 {
                assert(told(events)[i] == told(rest)[i - 1]);
                assert(rest[i - 1] == events[i]);
            }
        }
    }
}

/// What the main loop was told is never taken back: more events of the watch only add to it,
/// and after a failure or a deletion they add nothing.
pub proof fn law_more_events_only_add(events: Seq<WatchEvent>, more: Seq<WatchEvent>)
    ensures
        told(events).is_prefix_of(told(events + more)),
        (exists|i: int| 0 <= i < events.len() && !(#[trigger] events[i] is Applied)) ==> told(
            events + more,
        ) == told(events),
    decreases events.len(),
{
    let all = events + more;
    if events.len() > 0 {
        let rest = events.drop_first();
        law_more_events_only_add(rest, more);
        assert(all.first() == events.first());
        assert(all.drop_first() =~= rest + more);
        if events.first() is Applied {
            let first = EventView::ContainersStatusChanged(
                events.first()->Applied_0.containers(),
            );
            assert(told(events) == seq![first] + told(rest));
            assert(told(all) == seq![first] + told(rest + more));
            assert(told(events) =~= told(all).subrange(0, told(events).len() as int)) by {
                assert forall|i: int| 0 <= i < told(events).len() implies #[trigger] told(
                    events,
                )[i] == told(all)[i] by {
                    if i > 0 {
                        assert(told(rest)[i - 1] == told(rest + more).subrange(
                            0,
                            told(rest).len() as int,
                        )[i - 1]);
                    }
                }
            }
            if exists|i: int| 0 <= i < events.len() && !(#[trigger] events[i] is Applied) {
                let i = choose|i: int|
                    0 <= i < events.len() && !(#[trigger] events[i] is Applied);
                assert(rest[i - 1] == events[i]);
            }
        }
    }
}

/// A name is reported as terminated if and only if the pod reports a container of that name
/// whose state is known and says that it has terminated, and as ready if and only if the pod
/// reports a container of that name that it calls ready. Nothing else about a container
/// matters.
pub proof fn law_reported_for_what_the_pod_says(
    pod: Pod,
    statuses: Vec<ContainerStatus>,
    name: Seq<char>,
)
    requires
        pod.status == Some(PodStatus { container_statuses: Some(statuses) }),
    ensures
        pod.containers().ready_containers.contains(name) <==> exists|i: int|
            0 <= i < statuses@.len() && (#[trigger] statuses@[i]).name@ == name
                && statuses@[i].ready,
        pod.containers().terminated_containers.contains(name) <==> exists|i: int|
            0 <= i < statuses@.len() && (#[trigger] statuses@[i]).name@ == name
                && statuses@[i].state is Some && statuses@[i].state->0.terminated,
{
    lemma_reported_names(statuses@, name);
}

/// A pod that reports no status of its containers has none that is ready or terminated.
pub proof fn law_nothing_is_reported_without_a_status(pod: Pod)
    requires
        match pod.status {
            Some(status) => status.container_statuses is None || status.container_statuses->0@.len()
                == 0,
            None => true,
        },
    ensures
        pod.containers().ready_containers.len() == 0,
        pod.containers().terminated_containers.len() == 0,
{
    reveal(Seq::filter);
}

/// A pod with one container more reports that container last: its name is added to the ready
/// ones if it is ready, to the terminated ones if it has terminated, and nothing else changes.
pub proof fn law_one_more_container(
    pod: Pod,
    statuses: Vec<ContainerStatus>,
    larger_pod: Pod,
    more_statuses: Vec<ContainerStatus>,
    last: ContainerStatus,
)
    requires
        pod.status == Some(PodStatus { container_statuses: Some(statuses) }),
        larger_pod.status == Some(PodStatus { container_statuses: Some(more_statuses) }),
        more_statuses@ == statuses@.push(last),
    ensures
        last.ready ==> larger_pod.containers().ready_containers
            == pod.containers().ready_containers.push(last.name@),
        !last.ready ==> larger_pod.containers().ready_containers
            == pod.containers().ready_containers,
        last.state is Some && last.state->0.terminated
            ==> larger_pod.containers().terminated_containers
            == pod.containers().terminated_containers.push(last.name@),
        !(last.state is Some && last.state->0.terminated)
            ==> larger_pod.containers().terminated_containers
            == pod.containers().terminated_containers,
{
    lemma_names_push(statuses@, last);
}

/// What the main loop is told of a condition of the pod are the containers of that pod.
pub proof fn law_the_pod_itself_is_reported(pod: Pod, action: WatchAction)
    ensures
        watch_action(Some(WatchEvent::Applied(pod))) == WatchActionView::Send(
            EventView::ContainersStatusChanged(pod.containers()),
        ),
        action is Stop <==> action@ is Stop,
        action matches WatchAction::Send(event) ==> action@ == WatchActionView::Send(event@),
{
}

} // verus!
