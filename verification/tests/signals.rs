use koordinator::signals::{
    signal_int_to_name, signal_name_to_int, HandledSignal, SignalNumbers,
};

const MIPS: SignalNumbers = SignalNumbers {
    sighup: 1,
    sigint: 2,
    sigquit: 3,
    sigkill: 9,
    sigterm: 15,
    sigusr1: 16,
};

const NAMES: [&str; 5] = ["SIGINT", "SIGTERM", "SIGQUIT", "SIGHUP", "SIGUSR1"];

#[test]
fn names_have_the_numbers_of_libc() {
    assert_eq!(signal_name_to_int("SIGINT"), Some(libc::SIGINT));
    assert_eq!(signal_name_to_int("SIGTERM"), Some(libc::SIGTERM));
    assert_eq!(signal_name_to_int("SIGQUIT"), Some(libc::SIGQUIT));
    assert_eq!(signal_name_to_int("SIGHUP"), Some(libc::SIGHUP));
    assert_eq!(signal_name_to_int("SIGUSR1"), Some(libc::SIGUSR1));
}

#[test]
fn unknown_names_have_no_number() {
    for name in ["", "SIGKILL", "SIGUSR2", "TERM", "sigterm", "SIGTERM ", "SIGTER", "SIGT\u{e9}RM"] {
        assert_eq!(signal_name_to_int(name), None);
    }
}

#[test]
fn numbers_have_names() {
    assert_eq!(signal_int_to_name(libc::SIGINT), Some("SIGINT"));
    assert_eq!(signal_int_to_name(libc::SIGTERM), Some("SIGTERM"));
    assert_eq!(signal_int_to_name(libc::SIGQUIT), Some("SIGQUIT"));
    assert_eq!(signal_int_to_name(libc::SIGHUP), Some("SIGHUP"));
    assert_eq!(signal_int_to_name(libc::SIGUSR1), Some("SIGUSR1"));
}

#[test]
fn unknown_numbers_have_no_name() {
    for number in [0, -1, libc::SIGKILL, libc::SIGUSR2, i32::MAX, i32::MIN] {
        assert_eq!(signal_int_to_name(number), None);
    }
}

#[test]
fn names_and_numbers_are_inverse() {
    for signals in [SignalNumbers::of_this_platform(), MIPS] {
        for name in NAMES {
            let number = signals.name_to_int(name).unwrap();
            assert_eq!(signals.int_to_name(number), Some(name));
        }
    }
}

#[test]
fn numbers_differ_between_platforms() {
    assert_eq!(MIPS.name_to_int("SIGUSR1"), Some(16));
    assert_eq!(MIPS.int_to_name(16), Some("SIGUSR1"));
    assert_eq!(MIPS.int_to_name(10), None);
}

#[test]
fn this_platform_has_the_numbers_of_libc() {
    let signals = SignalNumbers::of_this_platform();
    assert_eq!(signals.sighup, libc::SIGHUP);
    assert_eq!(signals.sigint, libc::SIGINT);
    assert_eq!(signals.sigquit, libc::SIGQUIT);
    assert_eq!(signals.sigkill, libc::SIGKILL);
    assert_eq!(signals.sigterm, libc::SIGTERM);
    assert_eq!(signals.sigusr1, libc::SIGUSR1);
}

#[test]
fn an_unknown_termination_signal_is_sigterm() {
    let signals = SignalNumbers::of_this_platform();
    assert_eq!(signals.configured_or_sigterm("SIGQUIT"), libc::SIGQUIT);
    assert_eq!(signals.configured_or_sigterm("SIGNONE"), libc::SIGTERM);
    assert_eq!(signals.configured_or_sigterm(""), libc::SIGTERM);
}

#[test]
fn received_signals_keep_their_number() {
    let signals = SignalNumbers::of_this_platform();
    assert_eq!(signals.forward(HandledSignal::Interrupt), libc::SIGINT);
    assert_eq!(signals.forward(HandledSignal::Terminate), libc::SIGTERM);
    assert_eq!(signals.forward(HandledSignal::Quit), libc::SIGQUIT);
    assert_eq!(signals.forward(HandledSignal::Hangup), libc::SIGHUP);
    assert_eq!(signals.forward(HandledSignal::UserDefined1), libc::SIGUSR1);
}

#[test]
fn received_signals_have_distinct_named_numbers() {
    let signals = SignalNumbers::of_this_platform();
    let handled = [
        HandledSignal::Interrupt,
        HandledSignal::Terminate,
        HandledSignal::Quit,
        HandledSignal::Hangup,
        HandledSignal::UserDefined1,
    ];
    for (i, first) in handled.iter().enumerate() {
        assert_ne!(signals.forward(*first), signals.sigkill);
        assert!(signals.int_to_name(signals.forward(*first)).is_some());
        for second in &handled[i + 1..] {
            assert_ne!(signals.forward(*first), signals.forward(*second));
        }
    }
}
