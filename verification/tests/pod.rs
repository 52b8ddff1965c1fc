use koordinator::events::Event;
use koordinator::pod::{
    containers_status, on_watch_event, ContainerState, ContainerStatus, Pod, PodStatus,
    WatchAction, WatchEvent,
};

fn container(name: &str, ready: bool, state: Option<bool>) -> ContainerStatus {
    ContainerStatus {
        name: name.to_string(),
        ready,
        state: state.map(|terminated| ContainerState { terminated }),
    }
}

fn pod(containers: Vec<ContainerStatus>) -> Pod {
    Pod {
        status: Some(PodStatus {
            container_statuses: Some(containers),
        }),
    }
}

#[test]
fn ready_and_terminated_containers_are_listed_in_order() {
    let status = containers_status(&pod(vec![
        container("d", true, Some(false)),
        container("c", false, Some(true)),
        container("b", true, None),
        container("a", false, None),
        container("e", true, Some(true)),
    ]));
    assert_eq!(status.ready_containers, vec!["d", "b", "e"]);
    assert_eq!(status.terminated_containers, vec!["c", "e"]);
}

#[test]
fn a_pod_without_status_has_no_containers() {
    for pod in [
        Pod { status: None },
        Pod {
            status: Some(PodStatus {
                container_statuses: None,
            }),
        },
        pod(vec![]),
    ] {
        let status = containers_status(&pod);
        assert!(status.ready_containers.is_empty());
        assert!(status.terminated_containers.is_empty());
    }
}

#[test]
fn a_name_is_reported_iff_a_container_of_that_name_is_in_that_condition() {
    let status = containers_status(&pod(vec![
        container("twice", false, Some(false)),
        container("twice", true, Some(false)),
    ]));
    assert_eq!(status.ready_containers, vec!["twice"]);
    assert!(status.terminated_containers.is_empty());
}

#[test]
fn every_condition_of_the_pod_is_reported() {
    let action = on_watch_event(Some(WatchEvent::Applied(pod(vec![container("a", true, None)]))));
    match action {
        WatchAction::Send(Event::ContainersStatusChanged(status)) => {
            assert_eq!(status.ready_containers, vec!["a"]);
            assert!(status.terminated_containers.is_empty());
        }
        other => panic!("{:?}", other),
    }
}

#[test]
fn the_watch_ends_with_a_failure_a_deletion_or_its_end() {
    assert!(matches!(on_watch_event(Some(WatchEvent::Deleted)), WatchAction::Stop));
    assert!(matches!(on_watch_event(Some(WatchEvent::Failed)), WatchAction::Stop));
    assert!(matches!(on_watch_event(None), WatchAction::Stop));
}

/// The ready containers of each status that a watch has the main loop told.
fn told(events: Vec<WatchEvent>) -> Vec<Vec<String>> {
    let mut told = vec![];
    for event in events {
        match on_watch_event(Some(event)) {
            WatchAction::Send(Event::ContainersStatusChanged(status)) => {
                told.push(status.ready_containers)
            }
            WatchAction::Send(other) => panic!("{:?}", other),
            WatchAction::Stop => break,
        }
    }
    told
}

fn applied(name: &str) -> WatchEvent {
    WatchEvent::Applied(pod(vec![container(name, true, None)]))
}

#[test]
fn conditions_are_told_in_order_until_a_failure_or_a_deletion() {
    assert_eq!(told(vec![applied("a"), applied("b")]), vec![vec!["a"], vec!["b"]]);
    assert_eq!(
        told(vec![applied("a"), applied("b"), WatchEvent::Failed, applied("c")]),
        vec![vec!["a"], vec!["b"]]
    );
    assert!(told(vec![WatchEvent::Deleted, applied("a")]).is_empty());
}

#[test]
fn more_of_a_watch_only_adds_to_what_was_told() {
    assert_eq!(told(vec![applied("a")]), vec![vec!["a"]]);
    assert_eq!(told(vec![applied("a"), applied("b")])[..1], told(vec![applied("a")])[..]);
    assert_eq!(
        told(vec![applied("a"), WatchEvent::Deleted, applied("b")]),
        told(vec![applied("a"), WatchEvent::Deleted])
    );
}
