//! What the koordinator needs to know before it begins.

use vstd::prelude::*;

use crate::config::{
    result_view, KoordinatorSpec, KoordinatorSpecView, SpecError, SpecErrorView,
};
use crate::text::texts;

verus! {

/// The settings that come from the environment.
#[derive(Debug)]
pub struct EnvConfig {
    pub pod_name: Option<String>,
    pub pod_namespace: Option<String>,
    /// The configuration, as a JSON document.
    pub spec: String,
}

/// All that the koordinator needs to begin.
#[derive(Debug)]
pub struct Startup {
    pub config: KoordinatorSpec,
    pub cmd_and_args: Vec<String>,
    pub pod_name: String,
    pub pod_namespace: String,
}

/// Why the koordinator cannot begin.
#[derive(Debug)]
pub enum StartupError {
    /// The configuration cannot be used.
    Spec(SpecError),
    /// There is no command to execute.
    NoCommand,
    /// The name of the pod is not known.
    NoPodName,
    /// The namespace of the pod is not known.
    NoPodNamespace,
}

/// The contents of a `Startup`.
#[verifier::ext_equal]
pub struct StartupView {
    pub config: KoordinatorSpecView,
    pub cmd_and_args: Seq<Seq<char>>,
    pub pod_name: Seq<char>,
    pub pod_namespace: Seq<char>,
}

/// The contents of a `StartupError`.
pub enum StartupErrorView {
    Spec(SpecErrorView),
    NoCommand,
    NoPodName,
    NoPodNamespace,
}

impl View for Startup {
    type V = StartupView;

    open spec fn view(&self) -> StartupView {
        StartupView {
            config: self.config@,
            cmd_and_args: texts(self.cmd_and_args@),
            pod_name: self.pod_name@,
            pod_namespace: self.pod_namespace@,
        }
    }
}

impl View for StartupError {
    type V = StartupErrorView;

    open spec fn view(&self) -> StartupErrorView {
        match self {
            StartupError::Spec(error) => StartupErrorView::Spec(error@),
            StartupError::NoCommand => StartupErrorView::NoCommand,
            StartupError::NoPodName => StartupErrorView::NoPodName,
            StartupError::NoPodNamespace => StartupErrorView::NoPodNamespace,
        }
    }
}

/// The text of a string, if there is one.
pub open spec fn text_of(string: Option<String>) -> Option<Seq<char>> {
    match string {
        Some(s) => Some(s@),
        None => None,
    }
}

/// The value of a setting, or what the file says if it is not set.
pub open spec fn set_or_read(
    setting: Option<Seq<char>>,
    file: Option<Seq<char>>,
) -> Option<Seq<char>> {
    match setting {
        Some(value) => Some(value),
        None => file,
    }
}

/// The settings, from the values of the environment variables that are set. Without a
/// configuration the empty one holds.
pub fn load_env_config(
    pod_name: Option<String>,
    pod_namespace: Option<String>,
    spec_json: Option<String>,
) -> (config: EnvConfig)
    ensures
        config.pod_name == pod_name,
        config.pod_namespace == pod_namespace,
        config.spec@ == (match spec_json {
            Some(json) => json@,
            None => "{}"@,
        }),
{
    EnvConfig {
        pod_name,
        pod_namespace,
        spec: match spec_json {
            Some(json) => json,
            None => "{}".to_string(),
        },
    }
}

fn set_or_file(setting: &Option<String>, file: Option<String>) -> (value: Option<String>)
    ensures
        text_of(value) == set_or_read(text_of(*setting), text_of(file)),
{
    match setting {
        Some(value) => Some(value.clone()),
        None => file,
    }
}

/// The name of the pod: the one that is set, or else the contents of the file that holds
/// it, if the file could be read.
pub fn determine_pod_name(config: &EnvConfig, file: Option<String>) -> (name: Option<String>)
    ensures
        text_of(name) == set_or_read(text_of(config.pod_name), text_of(file)),
        config.pod_name matches Some(set) ==> name is Some && name->0@ == set@,
        config.pod_name is None ==> (name is Some <==> file is Some),
        config.pod_name is None && file is Some ==> name->0@ == file->0@,
{
    set_or_file(&config.pod_name, file)
}

/// The namespace of the pod: the one that is set, or else the contents of the file that
/// holds it, if the file could be read.
pub fn determine_pod_namespace(
    config: &EnvConfig,
    file: Option<String>,
) -> (namespace: Option<String>)
    ensures
        text_of(namespace) == set_or_read(text_of(config.pod_namespace), text_of(file)),
        config.pod_namespace matches Some(set) ==> namespace is Some && namespace->0@ == set@,
        config.pod_namespace is None ==> (namespace is Some <==> file is Some),
        config.pod_namespace is None && file is Some ==> namespace->0@ == file->0@,
{
    set_or_file(&config.pod_namespace, file)
}

/// Whether the file with the name of the pod has to be read: nothing is missing yet, and the
/// name is not set.
pub open spec fn pod_name_file_wanted(
    config: Result<KoordinatorSpecView, SpecErrorView>,
    cmd_and_args: Seq<Seq<char>>,
    pod_name: Option<Seq<char>>,
) -> bool {
    config is Ok && cmd_and_args.len() > 0 && pod_name is None
}

/// Whether the file with the namespace of the pod has to be read: nothing is missing yet, with
/// the name of the pod determined, and the namespace is not set.
pub open spec fn pod_namespace_file_wanted(
    config: Result<KoordinatorSpecView, SpecErrorView>,
    cmd_and_args: Seq<Seq<char>>,
    determined_name: Option<Seq<char>>,
    pod_namespace: Option<Seq<char>>,
) -> bool {
    config is Ok && cmd_and_args.len() > 0 && determined_name is Some && pod_namespace is None
}

/// Whether the file with the name of the pod has to be read.
pub fn wants_pod_name_file(
    config: &Result<KoordinatorSpec, SpecError>,
    cmd_and_args: &Vec<String>,
    settings: &EnvConfig,
) -> (wanted: bool)
    ensures
        wanted == pod_name_file_wanted(
            result_view(*config),
            texts(cmd_and_args@),
            text_of(settings.pod_name),
        ),
        wanted <==> config is Ok && cmd_and_args@.len() > 0 && settings.pod_name is None,
{
    assert(texts(cmd_and_args@).len() == cmd_and_args@.len());
    config.is_ok() && cmd_and_args.len() > 0 && settings.pod_name.is_none()
}

/// Whether the file with the namespace of the pod has to be read, once the name of the pod was
/// determined as far as it can be.
pub fn wants_pod_namespace_file(
    config: &Result<KoordinatorSpec, SpecError>,
    cmd_and_args: &Vec<String>,
    determined_name: &Option<String>,
    settings: &EnvConfig,
) -> (wanted: bool)
    ensures
        wanted == pod_namespace_file_wanted(
            result_view(*config),
            texts(cmd_and_args@),
            text_of(*determined_name),
            text_of(settings.pod_namespace),
        ),
        wanted <==> config is Ok && cmd_and_args@.len() > 0 && determined_name is Some
            && settings.pod_namespace is None,
{
    assert(texts(cmd_and_args@).len() == cmd_and_args@.len());
    config.is_ok() && cmd_and_args.len() > 0 && determined_name.is_some()
        && settings.pod_namespace.is_none()
}

/// What the koordinator begins with, or what it misses first.
pub open spec fn prepared(
    config: Result<KoordinatorSpecView, SpecErrorView>,
    cmd_and_args: Seq<Seq<char>>,
    pod_name: Option<Seq<char>>,
    pod_namespace: Option<Seq<char>>,
) -> Result<StartupView, StartupErrorView> {
    match config {
        Err(error) => Err(StartupErrorView::Spec(error)),
        Ok(config) => if cmd_and_args.len() == 0 {
            Err(StartupErrorView::NoCommand)
        } else {
            match (pod_name, pod_namespace) {
                (None, _) => Err(StartupErrorView::NoPodName),
                (_, None) => Err(StartupErrorView::NoPodNamespace),
                (Some(pod_name), Some(pod_namespace)) => Ok(
                    StartupView { config, cmd_and_args, pod_name, pod_namespace },
                ),
            }
        },
    }
}

/// The outcome of `prepare`.
pub open spec fn startup_view(
    startup: Result<Startup, StartupError>,
) -> Result<StartupView, StartupErrorView> {
    match startup {
        Ok(startup) => Ok(startup@),
        Err(error) => Err(error@),
    }
}

/// Puts together what the koordinator begins with: it needs a configuration, a command,
/// and the name and the namespace of its pod. The first of these that is missing is the
/// error.
pub fn prepare(
    config: Result<KoordinatorSpec, SpecError>,
    cmd_and_args: Vec<String>,
    pod_name: Option<String>,
    pod_namespace: Option<String>,
) -> (startup: Result<Startup, StartupError>)
    ensures
        startup_view(startup) == prepared(
            result_view(config),
            texts(cmd_and_args@),
            text_of(pod_name),
            text_of(pod_namespace),
        ),
        startup matches Ok(s) ==> {
            &&& config == Ok::<KoordinatorSpec, SpecError>(s.config)
            &&& s.cmd_and_args@ == cmd_and_args@
            &&& s.cmd_and_args@.len() > 0
            &&& pod_name == Some(s.pod_name)
            &&& pod_namespace == Some(s.pod_namespace)
        },
        config matches Err(error) ==> startup == Err::<Startup, StartupError>(
            StartupError::Spec(error),
        ),
        config is Ok && cmd_and_args@.len() == 0 ==> startup == Err::<Startup, StartupError>(
            StartupError::NoCommand,
        ),
        config is Ok && cmd_and_args@.len() > 0 && pod_name is None ==> startup == Err::<
            Startup,
            StartupError,
        >(StartupError::NoPodName),
        config is Ok && cmd_and_args@.len() > 0 && pod_name is Some && pod_namespace is None
            ==> startup == Err::<Startup, StartupError>(StartupError::NoPodNamespace),
        config is Ok && cmd_and_args@.len() > 0 && pod_name is Some && pod_namespace is Some
            ==> startup is Ok,
{
    assert(texts(cmd_and_args@).len() == cmd_and_args@.len());
    let config: KoordinatorSpec = match config {
        Ok(config) => config,
        Err(error) => {
            return Err(StartupError::Spec(error));
        },
    };
    if cmd_and_args.len() == 0 {
        return Err(StartupError::NoCommand);
    }
    let pod_name: String = match pod_name {
        Some(name) => name,
        None => {
            return Err(StartupError::NoPodName);
        },
    };
    let pod_namespace: String = match pod_namespace {
        Some(namespace) => namespace,
        None => {
            return Err(StartupError::NoPodNamespace);
        },
    };
    Ok(Startup { config, cmd_and_args, pod_name, pod_namespace })
}

/// A name that is set is used whatever the file says.
pub proof fn law_setting_wins_over_file(setting: Seq<char>, file: Option<Seq<char>>)
    ensures
        set_or_read(Some(setting), file) == Some(setting),
{
}

/// The koordinator begins if and only if it has a configuration, a command, and the name
/// and the namespace of its pod.
pub proof fn law_begins_with_everything_needed(
    config: Result<KoordinatorSpecView, SpecErrorView>,
    cmd_and_args: Seq<Seq<char>>,
    pod_name: Option<Seq<char>>,
    pod_namespace: Option<Seq<char>>,
)
    ensures
        prepared(config, cmd_and_args, pod_name, pod_namespace) is Ok <==> {
            &&& config is Ok
            &&& cmd_and_args.len() > 0
            &&& pod_name is Some
            &&& pod_namespace is Some
        },
{
}

/// A file that does not have to be read makes no difference to how the koordinator begins.
pub proof fn law_unwanted_files_make_no_difference(
    config: Result<KoordinatorSpecView, SpecErrorView>,
    cmd_and_args: Seq<Seq<char>>,
    pod_name: Option<Seq<char>>,
    pod_namespace: Option<Seq<char>>,
    name_file: Option<Seq<char>>,
    namespace_file: Option<Seq<char>>,
)
    ensures
        ({
            let begin = |name: Option<Seq<char>>, namespace: Option<Seq<char>>|
                prepared(
                    config,
                    cmd_and_args,
                    set_or_read(pod_name, name),
                    set_or_read(pod_namespace, namespace),
                );
            let name = set_or_read(pod_name, name_file);
            &&& !pod_name_file_wanted(config, cmd_and_args, pod_name) ==> begin(
                name_file,
                namespace_file,
            ) == begin(None, namespace_file)
            &&& !pod_namespace_file_wanted(config, cmd_and_args, name, pod_namespace) ==> begin(
                name_file,
                namespace_file,
            ) == begin(name_file, None)
        }),
{
}

/// A name that is not set is what the file says, and there is none without the file.
pub proof fn law_unset_is_read_from_file(file: Option<Seq<char>>)
    ensures
        set_or_read(None, file) == file,
{
}

/// If the koordinator begins, it begins with what it was given: the same configuration, the
/// whole command with every argument in its place, and the name and the namespace of the pod.
pub proof fn law_begins_with_what_it_was_given(
    config: Result<KoordinatorSpecView, SpecErrorView>,
    cmd_and_args: Seq<Seq<char>>,
    pod_name: Option<Seq<char>>,
    pod_namespace: Option<Seq<char>>,
    startup: StartupView,
)
    requires
        prepared(config, cmd_and_args, pod_name, pod_namespace) == Ok::<
            StartupView,
            StartupErrorView,
        >(startup),
    ensures
        config == Ok::<KoordinatorSpecView, SpecErrorView>(startup.config),
        startup.cmd_and_args == cmd_and_args,
        startup.cmd_and_args.len() > 0,
        pod_name == Some(startup.pod_name),
        pod_namespace == Some(startup.pod_namespace),
{
}

/// If the koordinator does not begin, the first thing that is missing is named: a usable
/// configuration, then a command, then the name of the pod, then its namespace.
pub proof fn law_first_missing_thing_is_named(
    config: Result<KoordinatorSpecView, SpecErrorView>,
    cmd_and_args: Seq<Seq<char>>,
    pod_name: Option<Seq<char>>,
    pod_namespace: Option<Seq<char>>,
    error: StartupErrorView,
)
    requires
        prepared(config, cmd_and_args, pod_name, pod_namespace) == Err::<
            StartupView,
            StartupErrorView,
        >(error),
    ensures
        config matches Err(unusable) ==> error == StartupErrorView::Spec(unusable),
        error is Spec <==> config is Err,
        error is NoCommand <==> config is Ok && cmd_and_args.len() == 0,
        error is NoPodName <==> config is Ok && cmd_and_args.len() > 0 && pod_name is None,
        error is NoPodNamespace <==> config is Ok && cmd_and_args.len() > 0 && pod_name is Some
            && pod_namespace is None,
{
}

/// A file has to be read if and only if its contents can make a difference to how the
/// koordinator begins.
pub proof fn law_wanted_files_make_a_difference(
    config: Result<KoordinatorSpecView, SpecErrorView>,
    cmd_and_args: Seq<Seq<char>>,
    pod_name: Option<Seq<char>>,
    pod_namespace: Option<Seq<char>>,
    file: Seq<char>,
    other: Option<Seq<char>>,
)
    ensures
        pod_name_file_wanted(config, cmd_and_args, pod_name) <==> prepared(
            config,
            cmd_and_args,
            set_or_read(pod_name, Some(file)),
            other,
        ) != prepared(config, cmd_and_args, set_or_read(pod_name, None), other),
        pod_namespace_file_wanted(config, cmd_and_args, other, pod_namespace) <==> prepared(
            config,
            cmd_and_args,
            other,
            set_or_read(pod_namespace, Some(file)),
        ) != prepared(config, cmd_and_args, other, set_or_read(pod_namespace, None)),
{
}

/// The contents of what the koordinator begins with are the configuration, every part of the
/// command in its place, and the name and the namespace of the pod.
pub proof fn law_startup_holds_the_whole_command(startup: Startup)
    ensures
        startup@.config == startup.config@,
        startup@.cmd_and_args.len() == startup.cmd_and_args@.len(),
        forall|i: int|
            0 <= i < startup.cmd_and_args@.len() ==> #[trigger] startup@.cmd_and_args[i]
                == startup.cmd_and_args@[i]@,
        startup@.pod_name == startup.pod_name@,
        startup@.pod_namespace == startup.pod_namespace@,
{
}

/// The outcome of the preparations is seen as it is.
pub proof fn law_startup_outcome_is_seen_as_it_is(
    outcome: Result<Startup, StartupError>,
    string: Option<String>,
)
    ensures
        match outcome {
            Ok(startup) => startup_view(outcome) == Ok::<StartupView, StartupErrorView>(startup@),
            Err(error) => startup_view(outcome) == Err::<StartupView, StartupErrorView>(error@),
        },
        outcome matches Err(StartupError::Spec(error)) ==> outcome->Err_0@
            == StartupErrorView::Spec(error@),
        outcome matches Err(error) ==> {
            &&& error is NoCommand <==> error@ is NoCommand
            &&& error is NoPodName <==> error@ is NoPodName
            &&& error is NoPodNamespace <==> error@ is NoPodNamespace
        },
        text_of(string) is Some <==> string is Some,
        string matches Some(s) ==> text_of(string) == Some(s@),
{
}

} // verus!
