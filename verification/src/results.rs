//! What the functions of the library give back: laws on their results, in terms of what they
//! were given.

use vstd::prelude::*;

use crate::config::{
    default_term_signal, default_term_timeout, killed_by_stop_dep_exit_code,
    terminated_by_stop_dep_exit_code, KoordinatorSpec, SpecError, SpecFields, StopDepExitedAction,
};
use crate::coordinator::{
    law_started_once_every_start_dep_is_ready,
    law_stopped_once_a_stop_dep_has_terminated, Coordinator, CoordinatorAction,
};
use crate::duration::{duration_str_parse, Duration};
use crate::events::{CommandToProcess, ContainersStatus, Event, ExitStatus};
use crate::init::copy_destination;
use crate::numbers::to_signed;
use crate::pod::{
    containers_status, law_nothing_is_reported_without_a_status, law_one_more_container,
    law_reported_for_what_the_pod_says, on_watch_event, ContainerStatus, Pod, PodStatus,
    WatchAction, WatchEvent,
};
use crate::process::{
    child_command, kill_target, Phase, ProcessAction, ProcessEvent, ProcessTask, Report,
};
use crate::signals::{
    law_names_stand_for_their_signals, signal_int_to_name, signal_name_to_int, HandledSignal,
    SignalNumbers,
};
use crate::startup::{
    determine_pod_name, determine_pod_namespace, load_env_config, prepare, wants_pod_name_file,
    wants_pod_namespace_file, EnvConfig, Startup, StartupError,
};
use crate::text::{
    common_strings, contains_all, contains_text, law_common_is_on_both_lists, same_text, texts,
};

verus! {

/// The exit code of a child process is the one it exited with, or 0 if a signal ended it.
pub proof fn law_exit_code_result(status: ExitStatus, code: i32)
    requires
        call_ensures(ExitStatus::exit_code, (&status,), code),
    ensures
        status.code matches Some(own) ==> code == own,
        status.code is None ==> code == 0,
{
}

/// The program to start is the first part of the command line, and its arguments are all the
/// other parts, in their order.
pub proof fn law_child_command_result(line: Vec<String>, command: (String, Vec<String>))
    requires
        line@.len() > 0,
        call_ensures(child_command, (&line,), command),
    ensures
        command.0@ == line@[0]@,
        command.1@.len() == line@.len() - 1,
        forall|i: int| 0 <= i < command.1@.len() ==> #[trigger] command.1@[i]@ == line@[i + 1]@,
{
}

/// A signal goes to the process with the given number, and to none without one.
pub proof fn law_kill_target_result(id: Option<u32>, pid: Option<i32>)
    requires
        call_ensures(kill_target, (id,), pid),
    ensures
        id is Some <==> pid is Some,
        id is Some ==> (pid->0 - id->0) % 0x1_0000_0000 == 0,
{
}

/// A number is taken as the signed one with the same bits.
pub proof fn law_to_signed_result(number: u32, result: i32)
    requires
        call_ensures(to_signed, (number,), result),
    ensures
        (result - number) % 0x1_0000_0000 == 0,
{
}

/// The koordinator is copied to the directory that the first argument names.
pub proof fn law_copy_destination_result(args: Vec<String>, destination: Option<String>)
    requires
        call_ensures(copy_destination, (&args,), destination),
    ensures
        destination is Some <==> args@.len() >= 2,
        destination matches Some(directory) ==> directory@ == args@[1]@,
{
}

/// The settings are those that the environment holds; without a configuration the empty one
/// holds.
pub proof fn law_load_env_config_result(
    pod_name: Option<String>,
    pod_namespace: Option<String>,
    spec_json: Option<String>,
    config: EnvConfig,
)
    requires
        call_ensures(load_env_config, (pod_name, pod_namespace, spec_json), config),
    ensures
        config.pod_name == pod_name,
        config.pod_namespace == pod_namespace,
        spec_json matches Some(json) ==> config.spec@ == json@,
        spec_json is None ==> config.spec@ == "{}"@,
{
}

/// The name of the pod is the one that is set, and else what its file says.
pub proof fn law_determine_pod_name_result(
    config: EnvConfig,
    file: Option<String>,
    name: Option<String>,
)
    requires
        call_ensures(determine_pod_name, (&config, file), name),
    ensures
        config.pod_name matches Some(set) ==> name matches Some(found) && found@ == set@,
        config.pod_name is None && file is Some ==> name is Some && name->0@ == file->0@,
        config.pod_name is None && file is None ==> name is None,
{
}

/// The namespace of the pod is the one that is set, and else what its file says.
pub proof fn law_determine_pod_namespace_result(
    config: EnvConfig,
    file: Option<String>,
    namespace: Option<String>,
)
    requires
        call_ensures(determine_pod_namespace, (&config, file), namespace),
    ensures
        config.pod_namespace matches Some(set) ==> namespace matches Some(found) && found@ == set@,
        config.pod_namespace is None && file is Some ==> namespace is Some && namespace->0@
            == file->0@,
        config.pod_namespace is None && file is None ==> namespace is None,
{
}

/// A file is wanted if what it holds is not set, and if nothing that comes before is missing.
pub proof fn law_wanted_files_result(
    config: Result<KoordinatorSpec, SpecError>,
    line: Vec<String>,
    name: Option<String>,
    settings: EnvConfig,
    wants_name: bool,
    wants_namespace: bool,
)
    requires
        call_ensures(wants_pod_name_file, (&config, &line, &settings), wants_name),
        call_ensures(wants_pod_namespace_file, (&config, &line, &name, &settings), wants_namespace),
    ensures
        wants_name <==> config is Ok && line@.len() > 0 && settings.pod_name is None,
        wants_namespace <==> config is Ok && line@.len() > 0 && name is Some
            && settings.pod_namespace is None,
{
}

/// The koordinator begins with all that it was given and nothing else, or names the first
/// thing that is missing.
pub proof fn law_prepare_result(
    config: Result<KoordinatorSpec, SpecError>,
    line: Vec<String>,
    pod_name: Option<String>,
    pod_namespace: Option<String>,
    startup: Result<Startup, StartupError>,
)
    requires
        call_ensures(prepare, (config, line, pod_name, pod_namespace), startup),
    ensures
        startup is Ok <==> config is Ok && line@.len() > 0 && pod_name is Some && pod_namespace
            is Some,
        startup matches Ok(s) ==> {
            &&& config == Ok::<KoordinatorSpec, SpecError>(s.config)
            &&& s.cmd_and_args@ == line@
            &&& pod_name == Some(s.pod_name)
            &&& pod_namespace == Some(s.pod_namespace)
        },
        startup matches Err(error) ==> {
            &&& error is Spec <==> config is Err
            &&& config matches Err(reason) ==> error == StartupError::Spec(reason)
            &&& error is NoCommand <==> config is Ok && line@.len() == 0
            &&& error is NoPodName <==> config is Ok && line@.len() > 0 && pod_name is None
            &&& error is NoPodNamespace <==> config is Ok && line@.len() > 0 && pod_name is Some
                && pod_namespace is None
        },
{
}

/// The defaults of the configuration.
pub proof fn law_defaults_results(killed: u32, terminated: i32, name: String, timeout: Duration)
    requires
        call_ensures(killed_by_stop_dep_exit_code, (), killed),
        call_ensures(terminated_by_stop_dep_exit_code, (), terminated),
        call_ensures(default_term_signal, (), name),
        call_ensures(default_term_timeout, (), timeout),
    ensures
        killed == 128 + 9,
        terminated == 0,
        name@ == "SIGTERM"@,
        timeout.secs == 30,
        timeout.nanos == 0,
{
}

/// A configuration holds every field that is there as it was written, and the default of every
/// other. It is refused only for a duration that cannot be read, with the reason for that.
pub proof fn law_assemble_result(
    fields: SpecFields,
    stop_delay: Option<Result<Duration, String>>,
    term_timeout: Option<Result<Duration, String>>,
    result: Result<KoordinatorSpec, SpecError>,
)
    requires
        call_ensures(KoordinatorSpec::assemble, (fields, stop_delay, term_timeout), result),
    ensures
        match (stop_delay, term_timeout) {
            (Some(Err(reason)), _) => result matches Err(SpecError::StopDelay(given)) && given@
                == reason@,
            (_, Some(Err(reason))) => result matches Err(SpecError::TermTimeout(given)) && given@
                == reason@,
            _ => result is Ok,
        },
        result matches Ok(config) ==> {
            &&& fields.start_deps matches Some(names) ==> config.start_deps@ == names@
            &&& fields.start_deps is None ==> config.start_deps@.len() == 0
            &&& fields.stop_deps matches Some(names) ==> config.stop_deps@ == names@
            &&& fields.stop_deps is None ==> config.stop_deps@.len() == 0
            &&& stop_delay matches Some(Ok(duration)) ==> config.stop_delay == duration
            &&& stop_delay is None ==> config.stop_delay.secs == 0 && config.stop_delay.nanos == 0
            &&& fields.when_stop_dep_exited matches Some(action) ==> config.when_stop_dep_exited
                == action
            &&& fields.when_stop_dep_exited is None ==> config.when_stop_dep_exited is Default
            &&& fields.term_signal matches Some(name) ==> config.term_signal@ == name@
            &&& fields.term_signal is None ==> config.term_signal@ == "SIGTERM"@
            &&& term_timeout matches Some(Ok(duration)) ==> config.term_timeout == duration
            &&& term_timeout is None ==> config.term_timeout.secs == 30
                && config.term_timeout.nanos == 0
            &&& fields.killed_by_stop_dep_exit_code matches Some(code)
                ==> config.killed_by_stop_dep_exit_code == code
            &&& fields.killed_by_stop_dep_exit_code is None ==> config.killed_by_stop_dep_exit_code
                == 137
            &&& fields.terminated_by_stop_dep_exit_code matches Some(code)
                ==> config.terminated_by_stop_dep_exit_code == code
            &&& fields.terminated_by_stop_dep_exit_code is None
                ==> config.terminated_by_stop_dep_exit_code == 0
        },
{
}

/// Reading a configuration keeps every field that is there and gives every other its default.
/// It succeeds if and only if the durations that are there can be read; the time they stand
/// for is what the parser makes of their texts.
pub proof fn law_from_fields_result(
    fields: SpecFields,
    result: Result<KoordinatorSpec, SpecError>,
)
    requires
        call_ensures(KoordinatorSpec::from_fields, (fields,), result),
    ensures
        result is Ok <==> {
            &&& fields.stop_delay matches Some(text) ==> duration_str_parse(text@) is Ok
            &&& fields.term_timeout matches Some(text) ==> duration_str_parse(text@) is Ok
        },
        result matches Err(error) ==> {
            &&& error is StopDelay <==> fields.stop_delay is Some && duration_str_parse(
                fields.stop_delay->0@,
            ) is Err
            &&& error matches SpecError::StopDelay(reason) ==> duration_str_parse(
                fields.stop_delay->0@,
            ) == Err::<(u64, u32), Seq<char>>(reason@)
            &&& error matches SpecError::TermTimeout(reason) ==> duration_str_parse(
                fields.term_timeout->0@,
            ) == Err::<(u64, u32), Seq<char>>(reason@)
            &&& error !is Document
        },
        result matches Ok(config) ==> {
            &&& fields.start_deps matches Some(names) ==> {
                &&& config.start_deps@.len() == names@.len()
                &&& forall|i: int|
                    0 <= i < names@.len() ==> #[trigger] config.start_deps@[i]@ == names@[i]@
            }
            &&& fields.start_deps is None ==> config.start_deps@.len() == 0
            &&& fields.stop_deps matches Some(names) ==> {
                &&& config.stop_deps@.len() == names@.len()
                &&& forall|i: int|
                    0 <= i < names@.len() ==> #[trigger] config.stop_deps@[i]@ == names@[i]@
            }
            &&& fields.stop_deps is None ==> config.stop_deps@.len() == 0
            &&& fields.stop_delay matches Some(text) ==> duration_str_parse(text@) == Ok::<
                (u64, u32),
                Seq<char>,
            >((config.stop_delay.secs, config.stop_delay.nanos))
            &&& fields.stop_delay is None ==> config.stop_delay.secs == 0
                && config.stop_delay.nanos == 0
            &&& fields.when_stop_dep_exited matches Some(action) ==> config.when_stop_dep_exited
                == action
            &&& fields.when_stop_dep_exited is None ==> config.when_stop_dep_exited is Default
            &&& fields.term_signal matches Some(name) ==> config.term_signal@ == name@
            &&& fields.term_signal is None ==> config.term_signal@ == "SIGTERM"@
            &&& fields.term_timeout matches Some(text) ==> duration_str_parse(text@) == Ok::<
                (u64, u32),
                Seq<char>,
            >((config.term_timeout.secs, config.term_timeout.nanos))
            &&& fields.term_timeout is None ==> config.term_timeout.secs == 30
                && config.term_timeout.nanos == 0
            &&& fields.killed_by_stop_dep_exit_code matches Some(code)
                ==> config.killed_by_stop_dep_exit_code == code
            &&& fields.killed_by_stop_dep_exit_code is None ==> config.killed_by_stop_dep_exit_code
                == 137
            &&& fields.terminated_by_stop_dep_exit_code matches Some(code)
                ==> config.terminated_by_stop_dep_exit_code == code
            &&& fields.terminated_by_stop_dep_exit_code is None
                ==> config.terminated_by_stop_dep_exit_code == 0
        },
{
    if let Ok(config) = result {
        assert(texts(config.start_deps@).len() == config.start_deps@.len());
        assert(texts(config.stop_deps@).len() == config.stop_deps@.len());
        if let Some(names) = fields.start_deps {
            assert(texts(config.start_deps@) == texts(names@));
            assert(texts(names@).len() == names@.len());
            assert forall|i: int| 0 <= i < names@.len() implies #[trigger] config.start_deps@[i]@
                == names@[i]@ by {
                assert(texts(config.start_deps@)[i] == texts(names@)[i]);
            }
        }
        if let Some(names) = fields.stop_deps {
            assert(texts(config.stop_deps@) == texts(names@));
            assert(texts(names@).len() == names@.len());
            assert forall|i: int| 0 <= i < names@.len() implies #[trigger] config.stop_deps@[i]@
                == names@[i]@ by {
                assert(texts(config.stop_deps@)[i] == texts(names@)[i]);
            }
        }
    }
}

/// A duration is read as the parser reads it.
pub proof fn law_parse_result(text: &str, outcome: Result<Duration, String>)
    requires
        call_ensures(Duration::parse, (text,), outcome),
    ensures
        outcome matches Ok(duration) ==> {
            &&& duration_str_parse(text@) == Ok::<(u64, u32), Seq<char>>(
                (duration.secs, duration.nanos),
            )
            &&& duration.nanos < 1_000_000_000
        },
        outcome matches Err(reason) ==> duration_str_parse(text@) == Err::<(u64, u32), Seq<char>>(
            reason@,
        ),
{
}

/// A parsed duration has the seconds and nanoseconds that were parsed, and a span of whole
/// seconds has these and nothing more.
pub proof fn law_durations_results(
    parsed: Result<(u64, u32), String>,
    outcome: Result<Duration, String>,
    secs: u64,
    span: Duration,
    zero: Duration,
)
    requires
        call_ensures(Duration::from_parsed, (parsed,), outcome),
        call_ensures(Duration::from_secs, (secs,), span),
        call_ensures(Duration::zero, (), zero),
    ensures
        parsed matches Ok(parts) ==> outcome matches Ok(duration) && duration.secs == parts.0
            && duration.nanos == parts.1,
        parsed matches Err(reason) ==> outcome matches Err(given) && given@ == reason@,
        span.secs == secs && span.nanos == 0,
        zero.secs == 0 && zero.nanos == 0,
{
}

/// The containers of a pod are found by what the pod says of them: a name is among the
/// terminated ones if and only if the state of a container of that name is known and says
/// that it has terminated, and among the ready ones if and only if a container of that name
/// is called ready.
pub proof fn law_containers_status_result(
    pod: Pod,
    statuses: Vec<ContainerStatus>,
    containers: ContainersStatus,
    name: Seq<char>,
)
    requires
        pod.status == Some(PodStatus { container_statuses: Some(statuses) }),
        call_ensures(containers_status, (&pod,), containers),
    ensures
        (exists|j: int|
            0 <= j < containers.ready_containers@.len()
                && #[trigger] containers.ready_containers@[j]@ == name) <==> exists|i: int|
            0 <= i < statuses@.len() && (#[trigger] statuses@[i]).name@ == name
                && statuses@[i].ready,
        (exists|j: int|
            0 <= j < containers.terminated_containers@.len()
                && #[trigger] containers.terminated_containers@[j]@ == name) <==> exists|i: int|
            0 <= i < statuses@.len() && (#[trigger] statuses@[i]).name@ == name
                && statuses@[i].state is Some && statuses@[i].state->0.terminated,
{
    law_reported_for_what_the_pod_says(pod, statuses, name);
    lemma_among_texts(containers.ready_containers@, name);
    lemma_among_texts(containers.terminated_containers@, name);
}

/// A pod that reports no status of its containers has none on either list.
pub proof fn law_containers_status_without_status(pod: Pod, containers: ContainersStatus)
    requires
        match pod.status {
            Some(status) => status.container_statuses is None || status.container_statuses->0@.len()
                == 0,
            None => true,
        },
        call_ensures(containers_status, (&pod,), containers),
    ensures
        containers.ready_containers@.len() == 0,
        containers.terminated_containers@.len() == 0,
{
    law_nothing_is_reported_without_a_status(pod);
    assert(texts(containers.ready_containers@).len() == containers.ready_containers@.len());
    assert(texts(containers.terminated_containers@).len()
        == containers.terminated_containers@.len());
}

/// A text is among those of strings if and only if one of the strings holds it.
proof fn lemma_among_texts(strings: Seq<String>, text: Seq<char>)
    ensures
        texts(strings).contains(text) <==> exists|j: int|
            0 <= j < strings.len() && #[trigger] strings[j]@ == text,
{
    if texts(strings).contains(text) {
        let j = choose|j: int| 0 <= j < texts(strings).len() && texts(strings)[j] == text;
        assert(strings[j]@ == text);
    }
    if exists|j: int| 0 <= j < strings.len() && #[trigger] strings[j]@ == text {
        let j = choose|j: int| 0 <= j < strings.len() && #[trigger] strings[j]@ == text;
        assert(texts(strings)[j] == text);
    }
}

/// The containers of a pod are listed in the order in which the pod reports them: a pod with
/// one container more has that container's name at the end of the lists it belongs on, and
/// the lists are the same otherwise.
pub proof fn law_containers_status_order(
    pod: Pod,
    statuses: Vec<ContainerStatus>,
    containers: ContainersStatus,
    larger_pod: Pod,
    more_statuses: Vec<ContainerStatus>,
    more_containers: ContainersStatus,
    last: ContainerStatus,
)
    requires
        pod.status == Some(PodStatus { container_statuses: Some(statuses) }),
        larger_pod.status == Some(PodStatus { container_statuses: Some(more_statuses) }),
        more_statuses@ == statuses@.push(last),
        call_ensures(containers_status, (&pod,), containers),
        call_ensures(containers_status, (&larger_pod,), more_containers),
    ensures
        more_containers.ready_containers@.len() == containers.ready_containers@.len() + if last.ready {
            1int
        } else {
            0
        },
        forall|i: int|
            0 <= i < containers.ready_containers@.len()
                ==> #[trigger] more_containers.ready_containers@[i]@
                == containers.ready_containers@[i]@,
        more_containers.terminated_containers@.len() == containers.terminated_containers@.len()
            + if last.state is Some && last.state->0.terminated {
            1int
        } else {
            0
        },
        forall|i: int|
            0 <= i < containers.terminated_containers@.len()
                ==> #[trigger] more_containers.terminated_containers@[i]@
                == containers.terminated_containers@[i]@,
        last.ready ==> more_containers.ready_containers@.last()@ == last.name@,
        last.state is Some && last.state->0.terminated
            ==> more_containers.terminated_containers@.last()@ == last.name@,
{
    law_one_more_container(pod, statuses, larger_pod, more_statuses, last);
    assert(texts(containers.ready_containers@).len() == containers.ready_containers@.len());
    assert(texts(more_containers.ready_containers@).len()
        == more_containers.ready_containers@.len());
    assert(texts(containers.terminated_containers@).len()
        == containers.terminated_containers@.len());
    assert(texts(more_containers.terminated_containers@).len()
        == more_containers.terminated_containers@.len());
    assert(last.ready ==> texts(more_containers.ready_containers@).last() == last.name@);
    assert(last.state is Some && last.state->0.terminated ==> texts(
        more_containers.terminated_containers@,
    ).last() == last.name@);
    assert forall|i: int| 0 <= i < containers.ready_containers@.len() implies
        #[trigger] more_containers.ready_containers@[i]@ == containers.ready_containers@[i]@ by {
        assert(texts(more_containers.ready_containers@)[i] == texts(
            containers.ready_containers@,
        )[i]);
    }
    assert forall|i: int| 0 <= i < containers.terminated_containers@.len() implies
        #[trigger] more_containers.terminated_containers@[i]@
        == containers.terminated_containers@[i]@ by {
        assert(texts(more_containers.terminated_containers@)[i] == texts(
            containers.terminated_containers@,
        )[i]);
    }
}

/// Every condition of the pod is told to the main loop, with the very containers of the pod;
/// everything else ends the watch.
pub proof fn law_on_watch_event_result(
    event: Option<WatchEvent>,
    action: WatchAction,
    containers: ContainersStatus,
)
    requires
        call_ensures(on_watch_event, (event,), action),
    ensures
        action is Stop <==> !(event is Some && event->0 is Applied),
        event matches Some(WatchEvent::Applied(pod)) ==> call_ensures(
            containers_status,
            (&pod,),
            containers,
        ) ==> (action matches WatchAction::Send(Event::ContainersStatusChanged(status)) && status@
            == containers@),
{
}

/// The numbers of this platform are those of POSIX; that of `SIGUSR1` is one of a few.
pub proof fn law_of_this_platform_result(signals: SignalNumbers)
    requires
        call_ensures(SignalNumbers::of_this_platform, (), signals),
    ensures
        signals.sighup == 1,
        signals.sigint == 2,
        signals.sigquit == 3,
        signals.sigkill == 9,
        signals.sigterm == 15,
        signals.sigusr1 == 10 || signals.sigusr1 == 16 || signals.sigusr1 == 18 || signals.sigusr1
            == 25 || signals.sigusr1 == 30,
{
}

/// A name gives the number of its own signal, and none if the koordinator does not know it; a
/// configured name that it does not know gives that of `SIGTERM`.
pub proof fn law_name_to_int_results(
    signals: SignalNumbers,
    name: &str,
    number: Option<i32>,
    configured: i32,
)
    requires
        call_ensures(SignalNumbers::name_to_int, (&signals, name), number),
        call_ensures(SignalNumbers::configured_or_sigterm, (&signals, name), configured),
    ensures
        name@ == "SIGINT"@ ==> number == Some(signals.sigint),
        name@ == "SIGTERM"@ ==> number == Some(signals.sigterm),
        name@ == "SIGQUIT"@ ==> number == Some(signals.sigquit),
        name@ == "SIGHUP"@ ==> number == Some(signals.sighup),
        name@ == "SIGUSR1"@ ==> number == Some(signals.sigusr1),
        number is Some <==> name@ == "SIGINT"@ || name@ == "SIGTERM"@ || name@ == "SIGQUIT"@
            || name@ == "SIGHUP"@ || name@ == "SIGUSR1"@,
        number matches Some(known) ==> configured == known,
        number is None ==> configured == signals.sigterm,
{
    law_names_stand_for_their_signals(signals, name@);
}

/// A number gives the name of the signal that has it; where the numbers differ, that is the
/// name which gives the number.
pub proof fn law_int_to_name_result(
    signals: SignalNumbers,
    number: i32,
    name: Option<&'static str>,
)
    requires
        call_ensures(SignalNumbers::int_to_name, (&signals, number), name),
    ensures
        name matches Some(text) ==> {
            ||| text@ == "SIGINT"@ && number == signals.sigint
            ||| text@ == "SIGTERM"@ && number == signals.sigterm
            ||| text@ == "SIGQUIT"@ && number == signals.sigquit
            ||| text@ == "SIGHUP"@ && number == signals.sighup
            ||| text@ == "SIGUSR1"@ && number == signals.sigusr1
        },
        name is Some <==> number == signals.sigint || number == signals.sigterm || number
            == signals.sigquit || number == signals.sighup || number == signals.sigusr1,
{
}

/// On this platform the names and numbers of all signals but `SIGUSR1` are known.
pub proof fn law_platform_names_results(
    name: &str,
    number: Option<i32>,
    given: i32,
    found: Option<&'static str>,
)
    requires
        call_ensures(signal_name_to_int, (name,), number),
        call_ensures(signal_int_to_name, (given,), found),
    ensures
        name@ == "SIGINT"@ ==> number == Some(2i32),
        name@ == "SIGTERM"@ ==> number == Some(15i32),
        name@ == "SIGQUIT"@ ==> number == Some(3i32),
        name@ == "SIGHUP"@ ==> number == Some(1i32),
        number is Some <==> name@ == "SIGINT"@ || name@ == "SIGTERM"@ || name@ == "SIGQUIT"@
            || name@ == "SIGHUP"@ || name@ == "SIGUSR1"@,
        given == 2 ==> found is Some && found->0@ == "SIGINT"@,
        given == 15 ==> found is Some && found->0@ == "SIGTERM"@,
        given == 3 ==> found is Some && found->0@ == "SIGQUIT"@,
        given == 1 ==> found is Some && found->0@ == "SIGHUP"@,
        given != 2 && given != 15 && given != 3 && given != 1 && found is Some ==> found->0@
            == "SIGUSR1"@,
{
}

/// A received signal is passed on as what it is.
pub proof fn law_forward_result(signals: SignalNumbers, signal: HandledSignal, number: i32)
    requires
        call_ensures(SignalNumbers::forward, (&signals, signal), number),
    ensures
        signal is Interrupt ==> number == signals.sigint,
        signal is Terminate ==> number == signals.sigterm,
        signal is Quit ==> number == signals.sigquit,
        signal is Hangup ==> number == signals.sighup,
        signal is UserDefined1 ==> number == signals.sigusr1,
{
}

/// Text is compared and looked for character by character.
pub proof fn law_text_results(
    a: &str,
    b: &str,
    same: bool,
    strings: Vec<String>,
    text: String,
    found: bool,
)
    requires
        call_ensures(same_text, (a, b), same),
        call_ensures(contains_text, (&strings, &text), found),
    ensures
        same <==> a@ == b@,
        found <==> exists|k: int| 0 <= k < strings@.len() && #[trigger] strings@[k]@ == text@,
{
}

/// All of the wanted strings are there if and only if each of them is.
pub proof fn law_contains_all_result(present: Vec<String>, wanted: Vec<String>, all: bool)
    requires
        call_ensures(contains_all, (&present, &wanted), all),
    ensures
        all <==> forall|i: int|
            0 <= i < wanted@.len() ==> texts(present@).contains((#[trigger] wanted@[i])@),
{
    assert(texts(wanted@).len() == wanted@.len());
    assert(forall|i: int| 0 <= i < wanted@.len() ==> texts(wanted@)[i] == (#[trigger] wanted@[i])@);
    if !all {
        let i = choose|i: int|
            0 <= i < texts(wanted@).len() && !(#[trigger] texts(present@).contains(
                texts(wanted@)[i],
            ));
        assert(texts(wanted@)[i] == wanted@[i]@);
    }
}

/// What is found in common is on both lists, and nothing that is on both is left out.
pub proof fn law_common_strings_result(
    candidates: Vec<String>,
    present: Vec<String>,
    found: Vec<String>,
    text: Seq<char>,
)
    requires
        call_ensures(common_strings, (&candidates, &present), found),
    ensures
        texts(found@).contains(text) <==> texts(candidates@).contains(text) && texts(
            present@,
        ).contains(text),
{
    law_common_is_on_both_lists(texts(candidates@), texts(present@), text);
}

/// A task is made with the configured delay, with the number of the configured termination
/// signal, and with `SIGKILL` as the signal that kills, whatever else is configured.
pub proof fn law_task_new_result(
    config: KoordinatorSpec,
    signals: SignalNumbers,
    task: ProcessTask,
)
    requires
        call_ensures(ProcessTask::new, (&config, &signals), task),
    ensures
        task.sigkill == signals.sigkill,
        task.stop_delay == config.stop_delay,
        task.phase is AwaitingStart,
        config.term_signal@ == "SIGINT"@ ==> task.term_signal == signals.sigint,
        config.term_signal@ == "SIGQUIT"@ ==> task.term_signal == signals.sigquit,
        config.term_signal@ == "SIGHUP"@ ==> task.term_signal == signals.sighup,
        config.term_signal@ == "SIGUSR1"@ ==> task.term_signal == signals.sigusr1,
        config.term_signal@ != "SIGINT"@ && config.term_signal@ != "SIGQUIT"@
            && config.term_signal@ != "SIGHUP"@ && config.term_signal@ != "SIGUSR1"@
            ==> task.term_signal == signals.sigterm,
{
    law_names_stand_for_their_signals(signals, config.term_signal@);
}

/// A step leaves alone what the task was made with. Nothing is done before the command to
/// start, which has the child process started. While it runs, a received signal is passed on,
/// the termination signal after the delay; its exit is reported; and a command to stop has it
/// sent the signal and then given the time that the command names. If it exits in that time,
/// it is reported as terminated; if not, it is killed and reported as killed. Every other
/// event has nothing done.
pub proof fn law_task_step_result(
    task: &mut ProcessTask,
    event: ProcessEvent,
    action: ProcessAction,
)
    requires
        call_ensures(ProcessTask::step, (task, event), action),
    ensures
        final(task).sigkill == old(task).sigkill,
        final(task).stop_delay == old(task).stop_delay,
        final(task).term_signal == old(task).term_signal,
        action is Spawn <==> old(task).phase is AwaitingStart && event == ProcessEvent::Command(
            CommandToProcess::Start,
        ),
        action is Spawn ==> final(task).phase is Starting,
        action is End <==> old(task).phase is AwaitingStart && event is CommandsClosed,
        action is End ==> final(task).phase is Finished,
        (old(task).phase is Starting || old(task).phase is Forwarding) && event is Done ==> action
            is Await && final(task).phase is Running,
        old(task).phase is Running ==> match event {
            ProcessEvent::Command(CommandToProcess::Stop(signal, timeout)) => action
                == ProcessAction::Kill(signal) && final(task).phase == Phase::Stopping(timeout),
            ProcessEvent::Signal(signal) => if signal == old(task).term_signal {
                action == ProcessAction::Sleep(old(task).stop_delay) && final(task).phase
                    == Phase::Delaying(signal)
            } else {
                action == ProcessAction::Kill(signal) && final(task).phase is Forwarding
            },
            ProcessEvent::Exited(status) => action == ProcessAction::Report(Report::Exited(status))
                && final(task).phase is Finished,
            _ => true,
        },
        old(task).phase matches Phase::Delaying(signal) ==> event is Done ==> action
            == ProcessAction::Kill(signal) && final(task).phase is Forwarding,
        old(task).phase matches Phase::Stopping(timeout) ==> event is Done ==> action
            == ProcessAction::AwaitExit(timeout) && final(task).phase is AwaitingExit,
        old(task).phase is AwaitingExit && event is TimedOut ==> action == ProcessAction::Kill(
            old(task).sigkill,
        ) && final(task).phase is Killing,
        event matches ProcessEvent::Exited(status) ==> old(task).phase is AwaitingExit ==> action
            == ProcessAction::Report(Report::Terminated(status)) && final(task).phase is Finished,
        old(task).phase is Killing && event is Done ==> action == ProcessAction::Report(
            Report::Killed,
        ) && final(task).phase is Finished,
        (match old(task).phase {
            Phase::AwaitingStart => event != ProcessEvent::Command(CommandToProcess::Start) && event
                !is CommandsClosed,
            Phase::Running => !(event matches ProcessEvent::Command(CommandToProcess::Stop(_, _)))
                && event !is Signal && event !is Exited,
            Phase::AwaitingExit => event !is Exited && event !is TimedOut,
            Phase::Finished => true,
            _ => event !is Done,
        }) ==> action is Await && *final(task) == *old(task),
{
}

/// The child process of a task that was made on this platform, started and told to stop, is
/// sent signal 9 if its time passes, for every configuration and every command to stop. The
/// steps are given one after the other.
pub proof fn law_late_child_is_sent_sigkill_result(
    config: KoordinatorSpec,
    signals: SignalNumbers,
    made: ProcessTask,
    started: &mut ProcessTask,
    running: &mut ProcessTask,
    told: &mut ProcessTask,
    waiting: &mut ProcessTask,
    late: &mut ProcessTask,
    signal: i32,
    timeout: Duration,
    actions: (ProcessAction, ProcessAction, ProcessAction, ProcessAction, ProcessAction),
)
    requires
        call_ensures(SignalNumbers::of_this_platform, (), signals),
        call_ensures(ProcessTask::new, (&config, &signals), made),
        *old(started) == made,
        call_ensures(
            ProcessTask::step,
            (started, ProcessEvent::Command(CommandToProcess::Start)),
            actions.0,
        ),
        *old(running) == *final(started),
        call_ensures(ProcessTask::step, (running, ProcessEvent::Done), actions.1),
        *old(told) == *final(running),
        call_ensures(
            ProcessTask::step,
            (told, ProcessEvent::Command(CommandToProcess::Stop(signal, timeout))),
            actions.2,
        ),
        *old(waiting) == *final(told),
        call_ensures(ProcessTask::step, (waiting, ProcessEvent::Done), actions.3),
        *old(late) == *final(waiting),
        call_ensures(ProcessTask::step, (late, ProcessEvent::TimedOut), actions.4),
    ensures
        actions.0 is Spawn,
        actions.2 == ProcessAction::Kill(signal),
        actions.3 == ProcessAction::AwaitExit(timeout),
        actions.4 == ProcessAction::Kill(9),
{
}

/// The main loop is told of the end of the child process as it was reported.
pub proof fn law_into_event_result(report: Report, event: Event)
    requires
        call_ensures(Report::into_event, (report,), event),
    ensures
        report matches Report::Exited(status) ==> event == Event::ChildProcessExited(status),
        report matches Report::Terminated(status) ==> event
            == Event::ChildProcessTerminatedBecauseStopDependency(status),
        report is Killed ==> event is ChildProcessKilledBecauseStopDependency,
{
}

/// The main loop is made with the whole configuration and with the number of the configured
/// termination signal, and without having commanded the start.
pub proof fn law_coordinator_new_result(
    config: KoordinatorSpec,
    signals: SignalNumbers,
    coordinator: Coordinator,
)
    requires
        call_ensures(Coordinator::new, (config, &signals), coordinator),
    ensures
        coordinator@.config == config@,
        coordinator@.config.start_deps == texts(config.start_deps@),
        coordinator@.config.stop_deps == texts(config.stop_deps@),
        coordinator@.config.when_stop_dep_exited == config.when_stop_dep_exited,
        coordinator@.config.term_timeout == config.term_timeout,
        coordinator@.config.killed_by_stop_dep_exit_code == config.killed_by_stop_dep_exit_code,
        coordinator@.config.terminated_by_stop_dep_exit_code
            == config.terminated_by_stop_dep_exit_code,
        !coordinator@.started,
        config.term_signal@ == "SIGINT"@ ==> coordinator@.term_signal == signals.sigint,
        config.term_signal@ == "SIGQUIT"@ ==> coordinator@.term_signal == signals.sigquit,
        config.term_signal@ == "SIGHUP"@ ==> coordinator@.term_signal == signals.sighup,
        config.term_signal@ == "SIGUSR1"@ ==> coordinator@.term_signal == signals.sigusr1,
        config.term_signal@ != "SIGINT"@ && config.term_signal@ != "SIGQUIT"@
            && config.term_signal@ != "SIGHUP"@ && config.term_signal@ != "SIGUSR1"@
            ==> coordinator@.term_signal == signals.sigterm,
{
    law_names_stand_for_their_signals(signals, config.term_signal@);
}

/// A status has the main loop command the start if and only if that was not done before and
/// every start dependency is among the ready containers, and a stop if and only if the start
/// was commanded before and a stop dependency is among the terminated ones. A stop carries the
/// configured signal and the configured time. Nothing but the start is remembered.
pub proof fn law_coordinator_status_result(
    coordinator: &mut Coordinator,
    status: ContainersStatus,
    action: CoordinatorAction,
    signal: i32,
    timeout: Duration,
)
    requires
        call_ensures(
            Coordinator::step,
            (coordinator, Some(Event::ContainersStatusChanged(status))),
            action,
        ),
    ensures
        final(coordinator)@.config == old(coordinator)@.config,
        final(coordinator)@.term_signal == old(coordinator)@.term_signal,
        final(coordinator)@.started <==> old(coordinator)@.started || action
            == CoordinatorAction::Send(CommandToProcess::Start),
        action !is Exit,
        action == CoordinatorAction::Send(CommandToProcess::Start) <==> {
            &&& !old(coordinator)@.started
            &&& forall|i: int|
                0 <= i < old(coordinator)@.config.start_deps.len() ==> texts(
                    status.ready_containers@,
                ).contains(#[trigger] old(coordinator)@.config.start_deps[i])
        },
        action == CoordinatorAction::Send(CommandToProcess::Stop(signal, timeout)) <==> {
            &&& old(coordinator)@.started
            &&& exists|i: int|
                0 <= i < old(coordinator)@.config.stop_deps.len() && texts(
                    status.terminated_containers@,
                ).contains(#[trigger] old(coordinator)@.config.stop_deps[i])
            &&& {
                ||| old(coordinator)@.config.when_stop_dep_exited == StopDepExitedAction::Signal(
                    signal,
                )
                ||| old(coordinator)@.config.when_stop_dep_exited is Default && signal == old(
                    coordinator,
                )@.term_signal
            }
            &&& timeout == old(coordinator)@.config.term_timeout
        },
{
    law_started_once_every_start_dep_is_ready(old(coordinator)@, status@);
    law_stopped_once_a_stop_dep_has_terminated(old(coordinator)@, status@, signal, timeout);
}

/// Everything but a status ends the koordinator: with the exit code of the child process if
/// that exited on its own, with the configured one if it was stopped in time, unless that is
/// negative, with the one configured for this if it was killed, and with 0 if nothing more
/// comes.
pub proof fn law_coordinator_end_result(
    coordinator: &mut Coordinator,
    message: Option<Event>,
    action: CoordinatorAction,
)
    requires
        call_ensures(Coordinator::step, (coordinator, message), action),
        !(message is Some && message->0 is ContainersStatusChanged),
    ensures
        action is Exit,
        final(coordinator)@ == old(coordinator)@,
        message is None ==> action == CoordinatorAction::Exit(0),
        message matches Some(Event::ChildProcessExited(status)) ==> {
            &&& status.code matches Some(code) ==> action == CoordinatorAction::Exit(code)
            &&& status.code is None ==> action == CoordinatorAction::Exit(0)
        },
        message matches Some(Event::ChildProcessTerminatedBecauseStopDependency(status)) ==> {
            let configured = old(coordinator)@.config.terminated_by_stop_dep_exit_code;
            &&& configured >= 0 ==> action == CoordinatorAction::Exit(configured)
            &&& configured < 0 && status.code is Some ==> action == CoordinatorAction::Exit(
                status.code->0,
            )
            &&& configured < 0 && status.code is None ==> action == CoordinatorAction::Exit(0)
        },
        message matches Some(Event::ChildProcessKilledBecauseStopDependency) ==> (action matches
            CoordinatorAction::Exit(code) && (code - old(
            coordinator,
        )@.config.killed_by_stop_dep_exit_code) % 0x1_0000_0000 == 0),
{
}

/// The main loop can be asked whether it has commanded the start, which stop dependencies have
/// terminated, and whether an HTTP request is called for: that is so for a status that has the
/// child process stopped where such a request is configured.
pub proof fn law_coordinator_questions_results(
    coordinator: Coordinator,
    status: ContainersStatus,
    message: Option<Event>,
    started: bool,
    names: Vec<String>,
    asks: bool,
    name: Seq<char>,
)
    requires
        call_ensures(Coordinator::has_started, (&coordinator,), started),
        call_ensures(Coordinator::stopped_deps, (&coordinator, &status), names),
        call_ensures(Coordinator::asks_for_http, (&coordinator, &message), asks),
    ensures
        started == coordinator@.started,
        texts(names@).contains(name) <==> coordinator@.config.stop_deps.contains(name) && texts(
            status.terminated_containers@,
        ).contains(name),
        asks ==> message is Some && message->0 is ContainersStatusChanged,
        message == Some(Event::ContainersStatusChanged(status)) ==> (asks <==> {
            &&& coordinator@.started
            &&& coordinator@.config.when_stop_dep_exited is Http
            &&& exists|i: int|
                0 <= i < coordinator@.config.stop_deps.len() && texts(
                    status.terminated_containers@,
                ).contains(#[trigger] coordinator@.config.stop_deps[i])
        }),
{
    law_common_is_on_both_lists(
        coordinator@.config.stop_deps,
        texts(status.terminated_containers@),
        name,
    );
    law_stopped_once_a_stop_dep_has_terminated(
        coordinator@,
        status@,
        0,
        coordinator@.config.term_timeout,
    );
}

} // verus!
