use koordinator::config::{
    default_term_signal, default_term_timeout, killed_by_stop_dep_exit_code,
    terminated_by_stop_dep_exit_code, KoordinatorSpec, SpecError, SpecFields, StopByStopDepHttp,
    StopDepExitedAction,
};
use koordinator::duration::Duration;

fn no_fields() -> SpecFields {
    SpecFields {
        start_deps: None,
        stop_deps: None,
        stop_delay: None,
        when_stop_dep_exited: None,
        term_signal: None,
        term_timeout: None,
        killed_by_stop_dep_exit_code: None,
        terminated_by_stop_dep_exit_code: None,
    }
}

fn strings(items: &[&str]) -> Vec<String> {
    items.iter().map(|s| s.to_string()).collect()
}

#[test]
fn defaults() {
    assert_eq!(killed_by_stop_dep_exit_code(), 137);
    assert_eq!(terminated_by_stop_dep_exit_code(), 0);
    assert_eq!(default_term_signal(), "SIGTERM");
    assert_eq!(default_term_timeout(), Duration { secs: 30, nanos: 0 });
    assert_eq!(StopDepExitedAction::default(), StopDepExitedAction::Default);
    assert_eq!(Duration::zero(), Duration { secs: 0, nanos: 0 });
    assert_eq!(Duration::from_secs(7), Duration { secs: 7, nanos: 0 });
}

#[test]
fn absent_fields_have_their_defaults() {
    let config = KoordinatorSpec::from_fields(no_fields()).unwrap();
    assert!(config.start_deps.is_empty());
    assert!(config.stop_deps.is_empty());
    assert_eq!(config.stop_delay, Duration { secs: 0, nanos: 0 });
    assert_eq!(config.when_stop_dep_exited, StopDepExitedAction::Default);
    assert_eq!(config.term_signal, "SIGTERM");
    assert_eq!(config.term_timeout, Duration { secs: 30, nanos: 0 });
    assert_eq!(config.killed_by_stop_dep_exit_code, 137);
    assert_eq!(config.terminated_by_stop_dep_exit_code, 0);
}

#[test]
fn present_fields_are_kept() {
    let config = KoordinatorSpec::from_fields(SpecFields {
        start_deps: Some(strings(&["cloud-sql-proxy"])),
        stop_deps: Some(strings(&["main-container", "other"])),
        stop_delay: Some("10s".to_string()),
        when_stop_dep_exited: Some(StopDepExitedAction::Http(StopByStopDepHttp::Post)),
        term_signal: Some("SIGQUIT".to_string()),
        term_timeout: Some("1m+30".to_string()),
        killed_by_stop_dep_exit_code: Some(9),
        terminated_by_stop_dep_exit_code: Some(-1),
    })
    .unwrap();
    assert_eq!(config.start_deps, strings(&["cloud-sql-proxy"]));
    assert_eq!(config.stop_deps, strings(&["main-container", "other"]));
    assert_eq!(config.stop_delay, Duration { secs: 10, nanos: 0 });
    assert_eq!(
        config.when_stop_dep_exited,
        StopDepExitedAction::Http(StopByStopDepHttp::Post)
    );
    assert_eq!(config.term_signal, "SIGQUIT");
    assert_eq!(config.term_timeout, Duration { secs: 90, nanos: 0 });
    assert_eq!(config.killed_by_stop_dep_exit_code, 9);
    assert_eq!(config.terminated_by_stop_dep_exit_code, -1);
}

#[test]
fn an_unreadable_delay_is_an_error() {
    let result = KoordinatorSpec::from_fields(SpecFields {
        stop_delay: Some("soon".to_string()),
        ..no_fields()
    });
    assert!(matches!(result, Err(SpecError::StopDelay(_))));
}

#[test]
fn an_unreadable_timeout_is_an_error() {
    let result = KoordinatorSpec::from_fields(SpecFields {
        term_timeout: Some("".to_string()),
        ..no_fields()
    });
    match result {
        Err(SpecError::TermTimeout(reason)) => assert_eq!(reason, "Empty input"),
        other => panic!("{:?}", other),
    }
}

#[test]
fn the_delay_is_looked_at_before_the_timeout() {
    let result = KoordinatorSpec::assemble(
        no_fields(),
        Some(Err("first".to_string())),
        Some(Err("second".to_string())),
    );
    match result {
        Err(SpecError::StopDelay(reason)) => assert_eq!(reason, "first"),
        other => panic!("{:?}", other),
    }
}

#[test]
fn only_durations_are_rejected() {
    let good = Duration { secs: 1, nanos: 5 };
    let config = KoordinatorSpec::assemble(no_fields(), Some(Ok(good)), Some(Ok(good))).unwrap();
    assert_eq!(config.stop_delay, good);
    assert_eq!(config.term_timeout, good);
    assert!(KoordinatorSpec::assemble(no_fields(), None, Some(Err(String::new()))).is_err());
}

#[test]
fn durations_are_read() {
    assert_eq!(Duration::parse("10s"), Ok(Duration { secs: 10, nanos: 0 }));
    assert_eq!(Duration::parse("500ms"), Ok(Duration { secs: 0, nanos: 500_000_000 }));
    assert_eq!(Duration::parse("2m 1s 29ms 17us"), Ok(Duration { secs: 121, nanos: 29_017_000 }));
    assert_eq!(Duration::parse("1d"), Ok(Duration { secs: 86_400, nanos: 0 }));
    assert_eq!(Duration::parse("1h*2"), Ok(Duration { secs: 7_200, nanos: 0 }));
    assert_eq!(Duration::parse("5"), Ok(Duration { secs: 5, nanos: 0 }));
    assert!(Duration::parse("").is_err());
    assert!(Duration::parse("-1s").is_err());
    assert!(Duration::parse("99999999999999999999y").is_err());
}

#[test]
fn durations_agree_with_duration_str() {
    for text in ["1ns", "1us", "3ms", "59s", "7m", "1w", "1mon", "1y", "1m+1s*2", "x"] {
        let expected = duration_str::parse(text);
        match Duration::parse(text) {
            Ok(duration) => {
                assert_eq!(
                    std::time::Duration::new(duration.secs, duration.nanos),
                    expected.unwrap()
                );
                assert!(duration.nanos < koordinator::duration::NANOS_PER_SEC);
            }
            Err(reason) => assert_eq!(reason, expected.unwrap_err()),
        }
    }
}

#[test]
fn a_parse_outcome_becomes_a_duration() {
    assert_eq!(
        Duration::from_parsed(Ok((3, 4))),
        Ok(Duration { secs: 3, nanos: 4 })
    );
    assert_eq!(
        Duration::from_parsed(Err("no".to_string())),
        Err("no".to_string())
    );
}

#[test]
fn the_length_determines_the_duration() {
    assert_eq!(Duration::parse("1m"), Duration::parse("60s"));
    assert_eq!(Duration::parse("1500ms"), Duration::parse("1s 500ms"));
    assert_ne!(Duration::parse("1s"), Duration::parse("1ms"));
}
