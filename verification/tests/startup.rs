use koordinator::config::{KoordinatorSpec, SpecError, SpecFields};
use koordinator::init::copy_destination;
use koordinator::startup::{
    determine_pod_name, determine_pod_namespace, load_env_config, prepare, wants_pod_name_file,
    wants_pod_namespace_file, StartupError,
};

fn some(text: &str) -> Option<String> {
    Some(text.to_string())
}

fn config() -> Result<KoordinatorSpec, SpecError> {
    KoordinatorSpec::from_fields(SpecFields {
        start_deps: None,
        stop_deps: None,
        stop_delay: None,
        when_stop_dep_exited: None,
        term_signal: None,
        term_timeout: None,
        killed_by_stop_dep_exit_code: None,
        terminated_by_stop_dep_exit_code: None,
    })
}

fn command() -> Vec<String> {
    vec!["/main-app".to_string(), "--port=1".to_string()]
}

#[test]
fn without_a_configuration_the_empty_one_holds() {
    assert_eq!(load_env_config(None, None, None).spec, "{}");
    let env = load_env_config(some("p"), some("n"), some("{\"stopDeps\":[]}"));
    assert_eq!(env.spec, "{\"stopDeps\":[]}");
    assert_eq!(env.pod_name, some("p"));
    assert_eq!(env.pod_namespace, some("n"));
}

#[test]
fn a_setting_wins_over_the_file() {
    let set = load_env_config(some("p"), some("n"), None);
    assert_eq!(determine_pod_name(&set, some("file")), some("p"));
    assert_eq!(determine_pod_name(&set, None), some("p"));
    assert_eq!(determine_pod_namespace(&set, some("file")), some("n"));
    let unset = load_env_config(None, None, None);
    assert_eq!(determine_pod_name(&unset, some("file\n")), some("file\n"));
    assert_eq!(determine_pod_name(&unset, None), None);
    assert_eq!(determine_pod_namespace(&unset, some("file")), some("file"));
    assert_eq!(determine_pod_namespace(&unset, None), None);
}

#[test]
fn begins_with_everything_needed() {
    let startup = prepare(config(), command(), some("p"), some("n")).unwrap();
    assert_eq!(startup.cmd_and_args, command());
    assert_eq!(startup.pod_name, "p");
    assert_eq!(startup.pod_namespace, "n");
    assert_eq!(startup.config.term_signal, "SIGTERM");
}

#[test]
fn the_first_thing_missing_is_the_error() {
    let unusable = || Err(SpecError::Document("bad".to_string()));
    match prepare(unusable(), vec![], None, None) {
        Err(StartupError::Spec(SpecError::Document(reason))) => assert_eq!(reason, "bad"),
        other => panic!("{:?}", other),
    }
    assert!(matches!(
        prepare(config(), vec![], None, None),
        Err(StartupError::NoCommand)
    ));
    assert!(matches!(
        prepare(config(), command(), None, None),
        Err(StartupError::NoPodName)
    ));
    assert!(matches!(
        prepare(config(), command(), some("p"), None),
        Err(StartupError::NoPodNamespace)
    ));
}

#[test]
fn the_koordinator_is_copied_to_the_first_argument() {
    assert_eq!(copy_destination(&vec![]), None);
    assert_eq!(copy_destination(&vec!["copy".to_string()]), None);
    let args: Vec<String> = ["copy", "/koordinator", "x"].iter().map(|s| s.to_string()).collect();
    assert_eq!(copy_destination(&args), some("/koordinator"));
}

#[test]
fn files_are_read_only_if_they_matter() {
    let unusable = || Err(SpecError::Document("bad".to_string()));
    let unset = load_env_config(None, None, None);
    let set = load_env_config(some("p"), some("n"), None);
    assert!(wants_pod_name_file(&config(), &command(), &unset));
    assert!(!wants_pod_name_file(&config(), &command(), &set));
    assert!(!wants_pod_name_file(&config(), &vec![], &unset));
    assert!(!wants_pod_name_file(&unusable(), &command(), &unset));
    assert!(wants_pod_namespace_file(&config(), &command(), &some("p"), &unset));
    assert!(!wants_pod_namespace_file(&config(), &command(), &some("p"), &set));
    assert!(!wants_pod_namespace_file(&config(), &command(), &None, &unset));
    assert!(!wants_pod_namespace_file(&config(), &vec![], &some("p"), &unset));
    assert!(!wants_pod_namespace_file(&unusable(), &command(), &some("p"), &unset));
}
