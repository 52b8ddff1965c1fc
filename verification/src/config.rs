//! The configuration of the koordinator.

use vstd::prelude::*;

use crate::duration::{duration_str_parse, outcome_of, outcome_view, Duration};
use crate::signals::libc_sigkill;
use crate::text::texts;

verus! {

/// The HTTP methods with which a child process can be asked to stop.
#[derive(Clone, Copy, Debug, PartialEq, Eq, Structural)]
pub enum StopByStopDepHttp {
    Get,
    Post,
    Put,
}

/// What is done once one of the stop dependencies has exited.
#[derive(Clone, Copy, Debug, PartialEq, Eq, Structural)]
pub enum StopDepExitedAction {
    /// The configured termination signal is sent to the child process.
    Default,
    /// The given signal is sent to the child process.
    Signal(i32),
    /// An HTTP request is sent to the child process.
    Http(StopByStopDepHttp),
}

/// The configuration as it is written down: a field that is absent has its default,
/// and durations are still text.
#[derive(Debug)]
pub struct SpecFields {
    pub start_deps: Option<Vec<String>>,
    pub stop_deps: Option<Vec<String>>,
    pub stop_delay: Option<String>,
    pub when_stop_dep_exited: Option<StopDepExitedAction>,
    pub term_signal: Option<String>,
    pub term_timeout: Option<String>,
    pub killed_by_stop_dep_exit_code: Option<u32>,
    pub terminated_by_stop_dep_exit_code: Option<i32>,
}

/// The configuration of the koordinator.
#[derive(Clone, Debug)]
pub struct KoordinatorSpec {
    /// The containers that have to be ready before the child process is started.
    pub start_deps: Vec<String>,
    /// The containers whose termination stops the child process.
    pub stop_deps: Vec<String>,
    /// The delay between receiving the termination signal and passing it on to the
    /// child process.
    pub stop_delay: Duration,
    /// What is done once one of the stop dependencies has exited.
    pub when_stop_dep_exited: StopDepExitedAction,
    /// The name of the termination signal.
    pub term_signal: String,
    /// How long a child process may take to exit after it was told to stop because of
    /// a stop dependency; after that it is killed.
    pub term_timeout: Duration,
    /// The exit code of the koordinator once its child process has been killed because
    /// of a stop dependency.
    pub killed_by_stop_dep_exit_code: u32,
    /// The exit code of the koordinator once its child process has exited in time
    /// because of a stop dependency. A negative value stands for the exit code of the
    /// child process.
    pub terminated_by_stop_dep_exit_code: i32,
}

/// Why a configuration cannot be used.
#[derive(Debug)]
pub enum SpecError {
    /// The configuration is not a document of the expected form.
    Document(String),
    /// The delay before the termination signal is passed on is no duration.
    StopDelay(String),
    /// The time allowed for termination is no duration.
    TermTimeout(String),
}

/// The contents of a `KoordinatorSpec`.
#[verifier::ext_equal]
pub struct KoordinatorSpecView {
    pub start_deps: Seq<Seq<char>>,
    pub stop_deps: Seq<Seq<char>>,
    pub stop_delay: Duration,
    pub when_stop_dep_exited: StopDepExitedAction,
    pub term_signal: Seq<char>,
    pub term_timeout: Duration,
    pub killed_by_stop_dep_exit_code: u32,
    pub terminated_by_stop_dep_exit_code: i32,
}

/// The contents of a `SpecError`.
pub enum SpecErrorView {
    Document(Seq<char>),
    StopDelay(Seq<char>),
    TermTimeout(Seq<char>),
}

impl View for KoordinatorSpec {
    type V = KoordinatorSpecView;

    open spec fn view(&self) -> KoordinatorSpecView {
        KoordinatorSpecView {
            start_deps: texts(self.start_deps@),
            stop_deps: texts(self.stop_deps@),
            stop_delay: self.stop_delay,
            when_stop_dep_exited: self.when_stop_dep_exited,
            term_signal: self.term_signal@,
            term_timeout: self.term_timeout,
            killed_by_stop_dep_exit_code: self.killed_by_stop_dep_exit_code,
            terminated_by_stop_dep_exit_code: self.terminated_by_stop_dep_exit_code,
        }
    }
}

impl View for SpecError {
    type V = SpecErrorView;

    open spec fn view(&self) -> SpecErrorView {
        match self {
            SpecError::Document(reason) => SpecErrorView::Document(reason@),
            SpecError::StopDelay(reason) => SpecErrorView::StopDelay(reason@),
            SpecError::TermTimeout(reason) => SpecErrorView::TermTimeout(reason@),
        }
    }
}

/// The list that a field stands for.
pub open spec fn list_or_empty(field: Option<Vec<String>>) -> Seq<Seq<char>> {
    match field {
        Some(strings) => texts(strings@),
        None => Seq::empty(),
    }
}

/// What reading the text of a duration field gives, if the field is there.
pub open spec fn read_field(field: Option<String>) -> Option<Result<Duration, Seq<char>>> {
    match field {
        Some(text) => Some(outcome_of(duration_str_parse(text@))),
        None => None,
    }
}

/// What has been read of a duration field, with the reason of a failure taken as text.
pub open spec fn field_view(
    field: Option<Result<Duration, String>>,
) -> Option<Result<Duration, Seq<char>>> {
    match field {
        Some(outcome) => Some(outcome_view(outcome)),
        None => None,
    }
}

/// The duration of a field that holds one, or the default of a field that is absent.
pub open spec fn duration_or(
    field: Option<Result<Duration, Seq<char>>>,
    default: Duration,
) -> Duration {
    match field {
        Some(Ok(duration)) => duration,
        _ => default,
    }
}

/// The configuration that the fields stand for, given what was read of the two
/// durations: every absent field has its default. A field that holds no duration makes
/// the configuration unusable; the delay is looked at first.
pub open spec fn assembled(
    fields: SpecFields,
    stop_delay: Option<Result<Duration, Seq<char>>>,
    term_timeout: Option<Result<Duration, Seq<char>>>,
) -> Result<KoordinatorSpecView, SpecErrorView> {
    if let Some(Err(reason)) = stop_delay {
        Err(SpecErrorView::StopDelay(reason))
    } else if let Some(Err(reason)) = term_timeout {
        Err(SpecErrorView::TermTimeout(reason))
    } else {
        Ok(
            KoordinatorSpecView {
                start_deps: list_or_empty(fields.start_deps),
                stop_deps: list_or_empty(fields.stop_deps),
                stop_delay: duration_or(stop_delay, Duration { secs: 0, nanos: 0 }),
                when_stop_dep_exited: match fields.when_stop_dep_exited {
                    Some(action) => action,
                    None => StopDepExitedAction::Default,
                },
                term_signal: match fields.term_signal {
                    Some(name) => name@,
                    None => "SIGTERM"@,
                },
                term_timeout: duration_or(term_timeout, Duration { secs: 30, nanos: 0 }),
                killed_by_stop_dep_exit_code: match fields.killed_by_stop_dep_exit_code {
                    Some(code) => code,
                    None => 137,
                },
                terminated_by_stop_dep_exit_code: match fields.terminated_by_stop_dep_exit_code {
                    Some(code) => code,
                    None => 0,
                },
            },
        )
    }
}

/// The outcome of reading a configuration.
pub open spec fn result_view(
    result: Result<KoordinatorSpec, SpecError>,
) -> Result<KoordinatorSpecView, SpecErrorView> {
    match result {
        Ok(config) => Ok(config@),
        Err(error) => Err(error@),
    }
}

/// The default exit code for a child process that had to be killed because of a stop
/// dependency: 128 plus the number of `SIGKILL`, as a shell reports it.
pub fn killed_by_stop_dep_exit_code() -> (code: u32)
    ensures
        code == 137,
{
    128u32 + libc_sigkill() as u32
}

/// The default exit code for a child process that exited in time because of a stop
/// dependency: success, so that a sidecar container of a job does not count as failed.
pub fn terminated_by_stop_dep_exit_code() -> (code: i32)
    ensures
        code == 0,
{
    0
}

/// The name of the default termination signal.
pub fn default_term_signal() -> (name: String)
    ensures
        name@ == "SIGTERM"@,
{
    "SIGTERM".to_string()
}

/// The default time that a child process has to exit before it is killed.
pub fn default_term_timeout() -> (timeout: Duration)
    ensures
        timeout == (Duration { secs: 30, nanos: 0 }),
        timeout.well_formed(),
{
    Duration::from_secs(30)
}

impl Default for StopDepExitedAction {
    fn default() -> (action: StopDepExitedAction)
        ensures
            action == StopDepExitedAction::Default,
    {
        StopDepExitedAction::Default
    }
}

impl KoordinatorSpecView {
    /// The durations of the configuration are well formed.
    pub open spec fn well_formed(self) -> bool {
        self.stop_delay.well_formed() && self.term_timeout.well_formed()
    }
}

impl KoordinatorSpec {
    /// The configuration that the fields stand for, given what was read of the two
    /// durations.
    pub fn assemble(
        fields: SpecFields,
        stop_delay: Option<Result<Duration, String>>,
        term_timeout: Option<Result<Duration, String>>,
    ) -> (result: Result<KoordinatorSpec, SpecError>)
        ensures
            result_view(result) == assembled(fields, field_view(stop_delay), field_view(term_timeout)),
            match (stop_delay, term_timeout) {
                (Some(Err(reason)), _) => result matches Err(SpecError::StopDelay(given))
                    && given@ == reason@,
                (_, Some(Err(reason))) => result matches Err(SpecError::TermTimeout(given))
                    && given@ == reason@,
                _ => result is Ok,
            },
            result matches Ok(config) ==> {
                &&& fields.start_deps matches Some(names) ==> config.start_deps@ == names@
                &&& fields.start_deps is None ==> config.start_deps@.len() == 0
                &&& fields.stop_deps matches Some(names) ==> config.stop_deps@ == names@
                &&& fields.stop_deps is None ==> config.stop_deps@.len() == 0
                &&& stop_delay matches Some(Ok(duration)) ==> config.stop_delay == duration
                &&& stop_delay is None ==> config.stop_delay.secs == 0 && config.stop_delay.nanos
                    == 0
                &&& fields.when_stop_dep_exited matches Some(action)
                    ==> config.when_stop_dep_exited == action
                &&& fields.when_stop_dep_exited is None ==> config.when_stop_dep_exited is Default
                &&& fields.term_signal matches Some(name) ==> config.term_signal@ == name@
                &&& fields.term_signal is None ==> config.term_signal@ == "SIGTERM"@
                &&& term_timeout matches Some(Ok(duration)) ==> config.term_timeout == duration
                &&& term_timeout is None ==> config.term_timeout.secs == 30
                    && config.term_timeout.nanos == 0
                &&& fields.killed_by_stop_dep_exit_code matches Some(code)
                    ==> config.killed_by_stop_dep_exit_code == code
                &&& fields.killed_by_stop_dep_exit_code is None
                    ==> config.killed_by_stop_dep_exit_code == 137
                &&& fields.terminated_by_stop_dep_exit_code matches Some(code)
                    ==> config.terminated_by_stop_dep_exit_code == code
                &&& fields.terminated_by_stop_dep_exit_code is None
                    ==> config.terminated_by_stop_dep_exit_code == 0
            },
    {
        let stop_delay: Duration = match stop_delay {
            Some(Ok(duration)) => duration,
            Some(Err(reason)) => {
                return Err(SpecError::StopDelay(reason));
            },
            None => Duration::zero(),
        };
        let term_timeout: Duration = match term_timeout {
            Some(Ok(duration)) => duration,
            Some(Err(reason)) => {
                return Err(SpecError::TermTimeout(reason));
            },
            None => default_term_timeout(),
        };
        let config = KoordinatorSpec {
            start_deps: match fields.start_deps {
                Some(names) => names,
                None => Vec::new(),
            },
            stop_deps: match fields.stop_deps {
                Some(names) => names,
                None => Vec::new(),
            },
            stop_delay,
            when_stop_dep_exited: match fields.when_stop_dep_exited {
                Some(action) => action,
                None => StopDepExitedAction::default(),
            },
            term_signal: match fields.term_signal {
                Some(name) => name,
                None => default_term_signal(),
            },
            term_timeout,
            killed_by_stop_dep_exit_code: match fields.killed_by_stop_dep_exit_code {
                Some(code) => code,
                None => killed_by_stop_dep_exit_code(),
            },
            terminated_by_stop_dep_exit_code: match fields.terminated_by_stop_dep_exit_code {
                Some(code) => code,
                None => terminated_by_stop_dep_exit_code(),
            },
        };
        proof {
            assert(config@.start_deps =~= list_or_empty(fields.start_deps));
            assert(config@.stop_deps =~= list_or_empty(fields.stop_deps));
        }
        Ok(config)
    }

    /// Reads the durations of the fields and fills in the defaults.
    pub fn from_fields(fields: SpecFields) -> (result: Result<KoordinatorSpec, SpecError>)
        ensures
            result_view(result) == assembled(
                fields,
                read_field(fields.stop_delay),
                read_field(fields.term_timeout),
            ),
            result matches Ok(config) ==> config@.well_formed(),
    {
        let stop_delay: Option<Result<Duration, String>> = match &fields.stop_delay {
            Some(text) => Some(Duration::parse(text.as_str())),
            None => None,
        };
        let term_timeout: Option<Result<Duration, String>> = match &fields.term_timeout {
            Some(text) => Some(Duration::parse(text.as_str())),
            None => None,
        };
        KoordinatorSpec::assemble(fields, stop_delay, term_timeout)
    }
}

/// A configuration is unusable if and only if it holds a duration that cannot be read.
pub proof fn law_only_durations_are_rejected(
    fields: SpecFields,
    stop_delay: Option<Result<Duration, Seq<char>>>,
    term_timeout: Option<Result<Duration, Seq<char>>>,
)
    ensures
        assembled(fields, stop_delay, term_timeout) is Err <==> {
            ||| stop_delay is Some && stop_delay->0 is Err
            ||| term_timeout is Some && term_timeout->0 is Err
        },
{
}

/// Every field that is there is kept as it was written: the lists with all their names in
/// their order, and everything else with the value it has.
pub proof fn law_present_fields_are_kept(
    fields: SpecFields,
    stop_delay: Option<Result<Duration, Seq<char>>>,
    term_timeout: Option<Result<Duration, Seq<char>>>,
    config: KoordinatorSpecView,
)
    requires
        assembled(fields, stop_delay, term_timeout) == Ok::<KoordinatorSpecView, SpecErrorView>(
            config,
        ),
    ensures
        fields.start_deps matches Some(names) ==> {
            &&& config.start_deps.len() == names@.len()
            &&& forall|i: int|
                0 <= i < names@.len() ==> #[trigger] config.start_deps[i] == names@[i]@
        },
        fields.stop_deps matches Some(names) ==> {
            &&& config.stop_deps.len() == names@.len()
            &&& forall|i: int|
                0 <= i < names@.len() ==> #[trigger] config.stop_deps[i] == names@[i]@
        },
        stop_delay matches Some(Ok(duration)) ==> config.stop_delay == duration,
        fields.when_stop_dep_exited matches Some(action) ==> config.when_stop_dep_exited == action,
        fields.term_signal matches Some(name) ==> config.term_signal == name@,
        term_timeout matches Some(Ok(duration)) ==> config.term_timeout == duration,
        fields.killed_by_stop_dep_exit_code matches Some(code)
            ==> config.killed_by_stop_dep_exit_code == code,
        fields.terminated_by_stop_dep_exit_code matches Some(code)
            ==> config.terminated_by_stop_dep_exit_code == code,
{
}

/// Every field that is absent has its default, whatever the others say: no dependencies, no
/// delay, `SIGTERM`, half a minute to exit, the exit code of a killed process for a child
/// process that was killed, and success for one that was terminated.
pub proof fn law_absent_fields_have_their_defaults(
    fields: SpecFields,
    stop_delay: Option<Result<Duration, Seq<char>>>,
    term_timeout: Option<Result<Duration, Seq<char>>>,
    config: KoordinatorSpecView,
)
    requires
        assembled(fields, stop_delay, term_timeout) == Ok::<KoordinatorSpecView, SpecErrorView>(
            config,
        ),
    ensures
        fields.start_deps is None ==> config.start_deps.len() == 0,
        fields.stop_deps is None ==> config.stop_deps.len() == 0,
        stop_delay is None ==> config.stop_delay.secs == 0 && config.stop_delay.nanos == 0,
        fields.when_stop_dep_exited is None ==> config.when_stop_dep_exited is Default,
        fields.term_signal is None ==> config.term_signal == "SIGTERM"@,
        term_timeout is None ==> config.term_timeout.secs == 30 && config.term_timeout.nanos == 0,
        fields.killed_by_stop_dep_exit_code is None ==> config.killed_by_stop_dep_exit_code == 128
            + 9,
        fields.terminated_by_stop_dep_exit_code is None
            ==> config.terminated_by_stop_dep_exit_code == 0,
{
}

/// A configuration whose durations can be read is usable. If the delay cannot be read, the
/// reason for that is given, and else the reason why the time for termination cannot be.
pub proof fn law_reason_of_the_first_unreadable_duration(
    fields: SpecFields,
    stop_delay: Option<Result<Duration, Seq<char>>>,
    term_timeout: Option<Result<Duration, Seq<char>>>,
    reason: Seq<char>,
)
    ensures
        assembled(fields, stop_delay, term_timeout) == Err::<KoordinatorSpecView, SpecErrorView>(
            SpecErrorView::StopDelay(reason),
        ) <==> stop_delay == Some(Err::<Duration, Seq<char>>(reason)),
        assembled(fields, stop_delay, term_timeout) == Err::<KoordinatorSpecView, SpecErrorView>(
            SpecErrorView::TermTimeout(reason),
        ) <==> term_timeout == Some(Err::<Duration, Seq<char>>(reason)) && !(stop_delay matches Some(
            Err(_),
        )),
        !(assembled(fields, stop_delay, term_timeout) matches Err(SpecErrorView::Document(_))),
{
}

/// A duration field that is there stands for what the parser makes of its text.
pub proof fn law_duration_fields_are_read(
    text: String,
    secs: u64,
    nanos: u32,
    reason: Seq<char>,
)
    ensures
        read_field(None) is None,
        duration_str_parse(text@) == Ok::<(u64, u32), Seq<char>>((secs, nanos)) ==> read_field(
            Some(text),
        ) == Some(Ok::<Duration, Seq<char>>(Duration { secs, nanos })),
        duration_str_parse(text@) == Err::<(u64, u32), Seq<char>>(reason) ==> read_field(Some(text))
            == Some(Err::<Duration, Seq<char>>(reason)),
{
}

/// What has been read of a duration field is seen as it is.
pub proof fn law_read_field_is_seen_as_it_is(duration: Duration, reason: String)
    ensures
        field_view(None) is None,
        field_view(Some(Ok(duration))) == Some(Ok::<Duration, Seq<char>>(duration)),
        field_view(Some(Err(reason))) == Some(Err::<Duration, Seq<char>>(reason@)),
{
}

/// The contents of a configuration are its settings, the lists with all their names in their
/// order. They are well formed if no duration has a second's worth of nanoseconds.
pub proof fn law_configuration_holds_all_settings(config: KoordinatorSpec)
    ensures
        config@.start_deps.len() == config.start_deps@.len(),
        forall|i: int|
            0 <= i < config.start_deps@.len() ==> #[trigger] config@.start_deps[i]
                == config.start_deps@[i]@,
        config@.stop_deps.len() == config.stop_deps@.len(),
        forall|i: int|
            0 <= i < config.stop_deps@.len() ==> #[trigger] config@.stop_deps[i]
                == config.stop_deps@[i]@,
        config@.stop_delay == config.stop_delay,
        config@.when_stop_dep_exited == config.when_stop_dep_exited,
        config@.term_signal == config.term_signal@,
        config@.term_timeout == config.term_timeout,
        config@.killed_by_stop_dep_exit_code == config.killed_by_stop_dep_exit_code,
        config@.terminated_by_stop_dep_exit_code == config.terminated_by_stop_dep_exit_code,
        config@.well_formed() <==> config.stop_delay.nanos < 1_000_000_000
            && config.term_timeout.nanos < 1_000_000_000,
{
}

/// The outcome of reading a configuration is seen as it is, with the text of its reason if it
/// is a failure.
pub proof fn law_configuration_outcome_is_seen_as_it_is(
    result: Result<KoordinatorSpec, SpecError>,
    reason: String,
)
    ensures
        result matches Ok(config) ==> result_view(result) == Ok::<
            KoordinatorSpecView,
            SpecErrorView,
        >(config@),
        result == Err::<KoordinatorSpec, SpecError>(SpecError::Document(reason)) ==> result_view(
            result,
        ) == Err::<KoordinatorSpecView, SpecErrorView>(SpecErrorView::Document(reason@)),
        result == Err::<KoordinatorSpec, SpecError>(SpecError::StopDelay(reason)) ==> result_view(
            result,
        ) == Err::<KoordinatorSpecView, SpecErrorView>(SpecErrorView::StopDelay(reason@)),
        result == Err::<KoordinatorSpec, SpecError>(SpecError::TermTimeout(reason)) ==> result_view(
            result,
        ) == Err::<KoordinatorSpecView, SpecErrorView>(SpecErrorView::TermTimeout(reason@)),
{
}

} // verus!
