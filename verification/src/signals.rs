//! Signals: their names and their numbers.

use vstd::prelude::*;

use crate::text::same_text;

verus! {

/// `libc::SIGHUP`, which is 1 on every platform that `libc` gives it on.
#[verifier::external_body]
fn libc_sighup() -> (number: i32)
    ensures
        number == 1,
{
    libc::SIGHUP
}

/// `libc::SIGINT`, which is 2 on every platform that `libc` gives it on.
#[verifier::external_body]
fn libc_sigint() -> (number: i32)
    ensures
        number == 2,
{
    libc::SIGINT
}

/// `libc::SIGQUIT`, which is 3 on every platform that `libc` gives it on.
#[verifier::external_body]
fn libc_sigquit() -> (number: i32)
    ensures
        number == 3,
{
    libc::SIGQUIT
}

/// `libc::SIGKILL`, which is 9 on every platform that `libc` gives it on.
#[verifier::external_body]
pub(crate) fn libc_sigkill() -> (number: i32)
    ensures
        number == 9,
{
    libc::SIGKILL
}

/// `libc::SIGTERM`, which is 15 on every platform that `libc` gives it on.
#[verifier::external_body]
fn libc_sigterm() -> (number: i32)
    ensures
        number == 15,
{
    libc::SIGTERM
}

/// `libc::SIGUSR1`. Its number differs between platforms: it is 10 on Linux for most
/// processors, 16 on Linux for MIPS, 18 on Haiku, 25 on RTEMS and 30 on the BSDs, and on
/// every other platform it is one of these. Which of them it is, is left unsaid.
#[verifier::external_body]
fn libc_sigusr1() -> (number: i32)
    ensures
        number == 10 || number == 16 || number == 18 || number == 25 || number == 30,
{
    libc::SIGUSR1
}

/// The numbers that a platform gives to the signals the koordinator knows.
#[derive(Clone, Copy, Debug, PartialEq, Eq, Structural)]
pub struct SignalNumbers {
    pub sighup: i32,
    pub sigint: i32,
    pub sigquit: i32,
    pub sigkill: i32,
    pub sigterm: i32,
    pub sigusr1: i32,
}

/// The signals that the koordinator receives on behalf of its child process.
#[derive(Clone, Copy, Debug, PartialEq, Eq, Structural)]
pub enum HandledSignal {
    Interrupt,
    Terminate,
    Quit,
    Hangup,
    UserDefined1,
}

impl SignalNumbers {
    /// What holds of the numbers on every platform: all but that of `SIGUSR1` are
    /// fixed, and that of `SIGUSR1` is one of a few, none of which is another signal's.
    pub open spec fn of_platform(self) -> bool {
        &&& self.sighup == 1
        &&& self.sigint == 2
        &&& self.sigquit == 3
        &&& self.sigkill == 9
        &&& self.sigterm == 15
        &&& self.sigusr1 == 10 || self.sigusr1 == 16 || self.sigusr1 == 18 || self.sigusr1 == 25
            || self.sigusr1 == 30
    }

    /// The number of the signal with the given name, if the koordinator knows it.
    pub open spec fn number_of(self, name: Seq<char>) -> Option<i32> {
        if name == "SIGINT"@ {
            Some(self.sigint)
        } else if name == "SIGTERM"@ {
            Some(self.sigterm)
        } else if name == "SIGQUIT"@ {
            Some(self.sigquit)
        } else if name == "SIGHUP"@ {
            Some(self.sighup)
        } else if name == "SIGUSR1"@ {
            Some(self.sigusr1)
        } else {
            None
        }
    }

    /// The name of the signal with the given number, if the koordinator knows it.
    pub open spec fn name_of(self, number: i32) -> Option<Seq<char>> {
        if number == self.sigint {
            Some("SIGINT"@)
        } else if number == self.sigterm {
            Some("SIGTERM"@)
        } else if number == self.sigquit {
            Some("SIGQUIT"@)
        } else if number == self.sighup {
            Some("SIGHUP"@)
        } else if number == self.sigusr1 {
            Some("SIGUSR1"@)
        } else {
            None
        }
    }

    /// The number of the signal that a configured name stands for: `SIGTERM` for a
    /// name that the koordinator does not know.
    pub open spec fn configured(self, name: Seq<char>) -> i32 {
        match self.number_of(name) {
            Some(number) => number,
            None => self.sigterm,
        }
    }

    /// The number under which a received signal is passed on.
    pub open spec fn forwarded(self, signal: HandledSignal) -> i32 {
        match signal {
            HandledSignal::Interrupt => self.sigint,
            HandledSignal::Terminate => self.sigterm,
            HandledSignal::Quit => self.sigquit,
            HandledSignal::Hangup => self.sighup,
            HandledSignal::UserDefined1 => self.sigusr1,
        }
    }

    /// The numbers of the platform this program was compiled for.
    pub fn of_this_platform() -> (signals: SignalNumbers)
        ensures
            signals.of_platform(),
    {
        SignalNumbers {
            sighup: libc_sighup(),
            sigint: libc_sigint(),
            sigquit: libc_sigquit(),
            sigkill: libc_sigkill(),
            sigterm: libc_sigterm(),
            sigusr1: libc_sigusr1(),
        }
    }

    /// The number of the signal with the given name.
    pub fn name_to_int(&self, name: &str) -> (number: Option<i32>)
        ensures
            number == self.number_of(name@),
    {
        if same_text(name, "SIGINT") {
            Some(self.sigint)
        } else if same_text(name, "SIGTERM") {
            Some(self.sigterm)
        } else if same_text(name, "SIGQUIT") {
            Some(self.sigquit)
        } else if same_text(name, "SIGHUP") {
            Some(self.sighup)
        } else if same_text(name, "SIGUSR1") {
            Some(self.sigusr1)
        } else {
            None
        }
    }

    /// The name of the signal with the given number.
    pub fn int_to_name(&self, number: i32) -> (name: Option<&'static str>)
        ensures
            match name {
                Some(text) => self.name_of(number) == Some(text@),
                None => self.name_of(number) is None,
            },
    {
        if number == self.sigint {
            Some("SIGINT")
        } else if number == self.sigterm {
            Some("SIGTERM")
        } else if number == self.sigquit {
            Some("SIGQUIT")
        } else if number == self.sighup {
            Some("SIGHUP")
        } else if number == self.sigusr1 {
            Some("SIGUSR1")
        } else {
            None
        }
    }

    /// The number of the termination signal that a configuration names.
    pub fn configured_or_sigterm(&self, name: &str) -> (number: i32)
        ensures
            number == self.configured(name@),
    {
        match self.name_to_int(name) {
            Some(number) => number,
            None => self.sigterm,
        }
    }

    /// The number under which a received signal is passed on to the child process.
    pub fn forward(&self, signal: HandledSignal) -> (number: i32)
        ensures
            number == self.forwarded(signal),
    {
        match signal {
            HandledSignal::Interrupt => self.sigint,
            HandledSignal::Terminate => self.sigterm,
            HandledSignal::Quit => self.sigquit,
            HandledSignal::Hangup => self.sighup,
            HandledSignal::UserDefined1 => self.sigusr1,
        }
    }
}

/// The number of the signal with the given name on this platform.
pub fn signal_name_to_int(name: &str) -> (number: Option<i32>)
    ensures
        exists|signals: SignalNumbers| #[trigger]
            signals.of_platform() && number == signals.number_of(name@),
        name@ == "SIGINT"@ ==> number == Some(2i32),
        name@ == "SIGTERM"@ ==> number == Some(15i32),
        name@ == "SIGQUIT"@ ==> number == Some(3i32),
        name@ == "SIGHUP"@ ==> number == Some(1i32),
        name@ == "SIGUSR1"@ <==> number is Some && (number->0 == 10 || number->0 == 16
            || number->0 == 18 || number->0 == 25 || number->0 == 30),
        number is Some <==> name@ == "SIGINT"@ || name@ == "SIGTERM"@ || name@ == "SIGQUIT"@
            || name@ == "SIGHUP"@ || name@ == "SIGUSR1"@,
{
    proof {
        lemma_names_differ();
    }
    SignalNumbers::of_this_platform().name_to_int(name)
}

/// The name of the signal with the given number on this platform.
pub fn signal_int_to_name(number: i32) -> (name: Option<&'static str>)
    ensures
        exists|signals: SignalNumbers| #[trigger]
            signals.of_platform() && (match name {
                Some(text) => signals.name_of(number) == Some(text@),
                None => signals.name_of(number) is None,
            }),
        number == 2 ==> name is Some && name->0@ == "SIGINT"@,
        number == 15 ==> name is Some && name->0@ == "SIGTERM"@,
        number == 3 ==> name is Some && name->0@ == "SIGQUIT"@,
        number == 1 ==> name is Some && name->0@ == "SIGHUP"@,
        number == 10 || number == 16 || number == 18 || number == 25 || number == 30 ==> (
        name matches Some(text) ==> text@ == "SIGUSR1"@),
        name is Some ==> number == 2 || number == 15 || number == 3 || number == 1 || number == 10
            || number == 16 || number == 18 || number == 25 || number == 30,
{
    SignalNumbers::of_this_platform().int_to_name(number)
}

proof fn lemma_names_differ()
    ensures
        "SIGINT"@ != "SIGTERM"@,
        "SIGINT"@ != "SIGQUIT"@,
        "SIGINT"@ != "SIGHUP"@,
        "SIGINT"@ != "SIGUSR1"@,
        "SIGTERM"@ != "SIGQUIT"@,
        "SIGTERM"@ != "SIGHUP"@,
        "SIGTERM"@ != "SIGUSR1"@,
        "SIGQUIT"@ != "SIGHUP"@,
        "SIGQUIT"@ != "SIGUSR1"@,
        "SIGHUP"@ != "SIGUSR1"@,
{
    reveal_strlit("SIGINT");
    reveal_strlit("SIGTERM");
    reveal_strlit("SIGQUIT");
    reveal_strlit("SIGHUP");
    reveal_strlit("SIGUSR1");
    assert("SIGINT"@[3] == 'I');
    assert("SIGTERM"@[3] == 'T');
    assert("SIGQUIT"@[3] == 'Q');
    assert("SIGHUP"@[3] == 'H');
    assert("SIGUSR1"@[3] == 'U');
}

/// Names and numbers are inverse to each other: a name stands for a number if and
/// only if that number stands for the name.
pub proof fn law_names_and_numbers_are_inverse(
    signals: SignalNumbers,
    name: Seq<char>,
    number: i32,
)
    requires
        signals.of_platform(),
    ensures
        signals.number_of(name) == Some(number) <==> signals.name_of(number) == Some(name),
{
    lemma_names_differ();
}

/// The signals that are received are exactly those that have a name: each is passed
/// on under a number with a name, and every name belongs to one of them.
pub proof fn law_handled_signals_are_the_named_ones(signals: SignalNumbers, number: i32)
    requires
        signals.of_platform(),
    ensures
        signals.name_of(number) is Some <==> exists|handled: HandledSignal|
            #[trigger] signals.forwarded(handled) == number,
{
    if signals.name_of(number) is Some {
        if number == signals.sigint {
            assert(signals.forwarded(HandledSignal::Interrupt) == number);
        } else if number == signals.sigterm {
            assert(signals.forwarded(HandledSignal::Terminate) == number);
        } else if number == signals.sigquit {
            assert(signals.forwarded(HandledSignal::Quit) == number);
        } else if number == signals.sighup {
            assert(signals.forwarded(HandledSignal::Hangup) == number);
        } else {
            assert(signals.forwarded(HandledSignal::UserDefined1) == number);
        }
    }
}

/// Distinct signals are passed on under distinct numbers, none of them `SIGKILL`.
pub proof fn law_forwarded_numbers_are_distinct(
    signals: SignalNumbers,
    first: HandledSignal,
    second: HandledSignal,
)
    requires
        signals.of_platform(),
    ensures
        signals.forwarded(first) == signals.forwarded(second) <==> first == second,
        signals.forwarded(first) != signals.sigkill,
{
}

/// The numbers of a platform are those that POSIX gives to the signals, but for that of
/// `SIGUSR1`, which is one of a few.
pub proof fn law_platform_numbers(signals: SignalNumbers)
    ensures
        signals.of_platform() <==> {
            &&& signals.sighup == 1
            &&& signals.sigint == 2
            &&& signals.sigquit == 3
            &&& signals.sigkill == 9
            &&& signals.sigterm == 15
            &&& signals.sigusr1 == 10 || signals.sigusr1 == 16 || signals.sigusr1 == 18
                || signals.sigusr1 == 25 || signals.sigusr1 == 30
        },
{
}

/// Every known name stands for its own signal, whatever numbers a platform gives, and no
/// other name stands for any. A configured name stands for the same signal, and for `SIGTERM`
/// if it is not known.
pub proof fn law_names_stand_for_their_signals(signals: SignalNumbers, name: Seq<char>)
    ensures
        name == "SIGINT"@ ==> signals.number_of(name) == Some(signals.sigint),
        name == "SIGTERM"@ ==> signals.number_of(name) == Some(signals.sigterm),
        name == "SIGQUIT"@ ==> signals.number_of(name) == Some(signals.sigquit),
        name == "SIGHUP"@ ==> signals.number_of(name) == Some(signals.sighup),
        name == "SIGUSR1"@ ==> signals.number_of(name) == Some(signals.sigusr1),
        signals.number_of(name) is Some <==> name == "SIGINT"@ || name == "SIGTERM"@ || name
            == "SIGQUIT"@ || name == "SIGHUP"@ || name == "SIGUSR1"@,
        signals.number_of(name) matches Some(number) ==> signals.configured(name) == number,
        signals.number_of(name) is None ==> signals.configured(name) == signals.sigterm,
{
    lemma_names_differ();
}

/// Where the signals have different numbers, every one of these numbers has the name of its
/// signal, and no other number has a name.
pub proof fn law_numbers_have_the_names_of_their_signals(signals: SignalNumbers, number: i32)
    requires
        signals.sigint != signals.sigterm,
        signals.sigint != signals.sigquit,
        signals.sigint != signals.sighup,
        signals.sigint != signals.sigusr1,
        signals.sigterm != signals.sigquit,
        signals.sigterm != signals.sighup,
        signals.sigterm != signals.sigusr1,
        signals.sigquit != signals.sighup,
        signals.sigquit != signals.sigusr1,
        signals.sighup != signals.sigusr1,
    ensures
        number == signals.sigint <==> signals.name_of(number) == Some("SIGINT"@),
        number == signals.sigterm <==> signals.name_of(number) == Some("SIGTERM"@),
        number == signals.sigquit <==> signals.name_of(number) == Some("SIGQUIT"@),
        number == signals.sighup <==> signals.name_of(number) == Some("SIGHUP"@),
        number == signals.sigusr1 <==> signals.name_of(number) == Some("SIGUSR1"@),
        signals.name_of(number) is Some ==> number == signals.sigint || number == signals.sigterm
            || number == signals.sigquit || number == signals.sighup || number == signals.sigusr1,
{
    lemma_names_differ();
}

/// A received signal is passed on as the signal it is: under the number that its own name
/// stands for.
pub proof fn law_signals_are_passed_on_as_they_are(signals: SignalNumbers)
    ensures
        signals.forwarded(HandledSignal::Interrupt) == signals.sigint,
        signals.forwarded(HandledSignal::Terminate) == signals.sigterm,
        signals.forwarded(HandledSignal::Quit) == signals.sigquit,
        signals.forwarded(HandledSignal::Hangup) == signals.sighup,
        signals.forwarded(HandledSignal::UserDefined1) == signals.sigusr1,
        signals.number_of("SIGINT"@) == Some(signals.forwarded(HandledSignal::Interrupt)),
        signals.number_of("SIGTERM"@) == Some(signals.forwarded(HandledSignal::Terminate)),
        signals.number_of("SIGQUIT"@) == Some(signals.forwarded(HandledSignal::Quit)),
        signals.number_of("SIGHUP"@) == Some(signals.forwarded(HandledSignal::Hangup)),
        signals.number_of("SIGUSR1"@) == Some(signals.forwarded(HandledSignal::UserDefined1)),
{
    lemma_names_differ();
}

} // verus!
