//! Spans of time.

use vstd::prelude::*;

verus! {

/// The number of nanoseconds in a second.
pub const NANOS_PER_SEC: u32 = 1_000_000_000;

/// A span of time: whole seconds, and the nanoseconds beside them.
#[derive(Clone, Copy, Debug, PartialEq, Eq, Structural)]
pub struct Duration {
    pub secs: u64,
    pub nanos: u32,
}

/// What `duration_str::parse` makes of a text: the whole seconds and the nanoseconds
/// beside them, or the reason why the text is no duration.
pub uninterp spec fn duration_str_parse(text: Seq<char>) -> Result<(u64, u32), Seq<char>>;

/// Calls `duration_str::parse` and takes the resulting `std::time::Duration` apart
/// with `as_secs` and `subsec_nanos`.
///
/// The result is a function of the text alone, named by `duration_str_parse`. Beside
/// that it is claimed that the nanoseconds make up less than a second, and that the
/// empty text is no duration.
#[verifier::external_body]
fn parse_parts(text: &str) -> (parts: Result<(u64, u32), String>)
    ensures
        match parts {
            Ok(p) => duration_str_parse(text@) == Ok::<(u64, u32), Seq<char>>(p),
            Err(reason) => duration_str_parse(text@) == Err::<(u64, u32), Seq<char>>(reason@),
        },
        parts matches Ok(p) ==> p.1 < NANOS_PER_SEC,
        text@.len() == 0 ==> parts is Err,
{
    match duration_str::parse(text) {
        Ok(duration) => Ok((duration.as_secs(), duration.subsec_nanos())),
        Err(reason) => Err(reason),
    }
}

/// The outcome of reading a duration, with the reason of a failure taken as text.
pub open spec fn outcome_view(outcome: Result<Duration, String>) -> Result<Duration, Seq<char>> {
    match outcome {
        Ok(duration) => Ok(duration),
        Err(reason) => Err(reason@),
    }
}

/// The outcome of reading a duration, from what the parser makes of the text.
pub open spec fn outcome_of(
    parsed: Result<(u64, u32), Seq<char>>,
) -> Result<Duration, Seq<char>> {
    match parsed {
        Ok(parts) => Ok(Duration { secs: parts.0, nanos: parts.1 }),
        Err(reason) => Err(reason),
    }
}

impl Duration {
    /// The nanoseconds beside the whole seconds make up less than a second.
    pub open spec fn well_formed(self) -> bool {
        self.nanos < NANOS_PER_SEC
    }

    /// The length of the span in nanoseconds.
    pub open spec fn in_nanos(self) -> nat {
        (self.secs * NANOS_PER_SEC + self.nanos) as nat
    }

    /// The span without length.
    pub fn zero() -> (duration: Duration)
        ensures
            duration == (Duration { secs: 0, nanos: 0 }),
            duration.well_formed(),
    {
        Duration { secs: 0, nanos: 0 }
    }

    /// A span of whole seconds.
    pub fn from_secs(secs: u64) -> (duration: Duration)
        ensures
            duration == (Duration { secs, nanos: 0 }),
            duration.well_formed(),
    {
        Duration { secs, nanos: 0 }
    }

    /// The duration that the outcome of a parse stands for.
    pub fn from_parsed(parsed: Result<(u64, u32), String>) -> (outcome: Result<Duration, String>)
        ensures
            match parsed {
                Ok(parts) => outcome_view(outcome) == outcome_of(Ok(parts)),
                Err(reason) => outcome_view(outcome) == outcome_of(Err(reason@)),
            },
            match parsed {
                Ok(parts) => outcome matches Ok(duration) && duration.secs == parts.0
                    && duration.nanos == parts.1,
                Err(reason) => outcome matches Err(given) && given@ == reason@,
            },
    {
        match parsed {
            Ok(parts) => Ok(Duration { secs: parts.0, nanos: parts.1 }),
            Err(reason) => Err(reason),
        }
    }

    /// Reads a duration, such as `10s` or `1m+30`.
    pub fn parse(text: &str) -> (outcome: Result<Duration, String>)
        ensures
            outcome_view(outcome) == outcome_of(duration_str_parse(text@)),
            outcome matches Ok(duration) ==> duration.well_formed(),
            text@.len() == 0 ==> outcome is Err,
            match duration_str_parse(text@) {
                Ok(parts) => outcome matches Ok(duration) && duration.secs == parts.0
                    && duration.nanos == parts.1 && duration.nanos < 1_000_000_000,
                Err(reason) => outcome matches Err(given) && given@ == reason,
            },
    {
        Duration::from_parsed(parse_parts(text))
    }
}

/// Well-formed spans of the same length are the same value.
pub proof fn law_length_determines_duration(a: Duration, b: Duration)
    requires
        a.well_formed(),
        b.well_formed(),
    ensures
        a.in_nanos() == b.in_nanos() <==> a == b,
{
}

/// What the parser read is kept to the second and the nanosecond, and its reason for refusing
/// a text is handed on.
pub proof fn law_parsed_parts_are_kept(secs: u64, nanos: u32, reason: Seq<char>)
    ensures
        outcome_of(Ok((secs, nanos))) matches Ok(duration) && duration.secs == secs
            && duration.nanos == nanos,
        outcome_of(Err(reason)) matches Err(given) && given == reason,
{
}

/// The contents of an outcome are the duration itself, or the text of the reason.
pub proof fn law_outcome_is_seen_as_it_is(outcome: Result<Duration, String>)
    ensures
        match outcome {
            Ok(duration) => outcome_view(outcome) matches Ok(seen) && seen == duration,
            Err(reason) => outcome_view(outcome) matches Err(seen) && seen == reason@,
        },
{
}

/// A second more makes a span longer by 10^9 nanoseconds, a nanosecond more by one, and the
/// span without seconds and nanoseconds has no length. A span is well formed if its
/// nanoseconds do not make up a second.
pub proof fn law_seconds_and_nanoseconds(a: Duration, b: Duration)
    ensures
        a.secs == b.secs + 1 && a.nanos == b.nanos ==> a.in_nanos() == b.in_nanos()
            + 1_000_000_000,
        a.secs == b.secs && a.nanos == b.nanos + 1 ==> a.in_nanos() == b.in_nanos() + 1,
        a.secs == 0 && a.nanos == 0 ==> a.in_nanos() == 0,
        a.well_formed() <==> a.nanos < 1_000_000_000,
{
}

} // verus!
