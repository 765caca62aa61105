//! Spans of time, as the program measures and writes them.

use vstd::prelude::*;

verus! {

/// Nanoseconds in one second.
pub const NANOS_PER_SEC: u32 = 1_000_000_000;

/// Nanoseconds in one millisecond.
pub const NANOS_PER_MILLI: u32 = 1_000_000;

/// Milliseconds in one second.
pub const MILLIS_PER_SEC: u64 = 1_000;

/// A span of time: whole seconds and the nanoseconds of the second begun.
///
/// The nanoseconds always stay below one second, so two spans are equal
/// exactly when they last equally long.
#[derive(Clone, Copy, Debug, PartialEq, Eq, Structural)]
pub struct Span {
    secs: u64,
    nanos: u32,
}

impl Span {
    #[verifier::type_invariant]
    spec fn inv(self) -> bool {
        self.nanos < NANOS_PER_SEC
    }

    /// The whole seconds of the span.
    pub closed spec fn spec_secs(self) -> u64 {
        self.secs
    }

    /// The nanoseconds beyond the whole seconds.
    pub closed spec fn spec_subsec_nanos(self) -> u32 {
        self.nanos
    }

    /// The length of the span in nanoseconds.
    pub open spec fn total_nanos(self) -> nat {
        (self.spec_secs() * NANOS_PER_SEC + self.spec_subsec_nanos()) as nat
    }

    /// What `to_text` writes for a span.
    pub open spec fn text(self) -> Seq<char> {
        duration_debug(self.spec_secs() as int, self.spec_subsec_nanos() as int)
    }

    /// A span of `secs` seconds and `nanos` nanoseconds, where `nanos` is
    /// less than a second; nothing otherwise.
    pub fn new(secs: u64, nanos: u32) -> (span: Option<Self>)
        ensures
            span is Some <==> nanos < NANOS_PER_SEC,
            span matches Some(s) ==> s.spec_secs() == secs && s.spec_subsec_nanos() == nanos,
    {
        if nanos < NANOS_PER_SEC {
            Some(Span { secs, nanos })
        } else {
            None
        }
    }

    /// A span of `millis` milliseconds.
    pub fn from_millis(millis: u64) -> (span: Self)
        ensures
            span.spec_secs() == millis / MILLIS_PER_SEC,
            span.spec_subsec_nanos() == (millis % MILLIS_PER_SEC) * NANOS_PER_MILLI,
            span.total_nanos() == millis * NANOS_PER_MILLI,
            span.text() == millis_text(millis),
    {
        let secs: u64 = millis / MILLIS_PER_SEC;
        let rest: u64 = millis % MILLIS_PER_SEC;
        let nanos: u32 = (rest as u32) * NANOS_PER_MILLI;
        Span { secs, nanos }
    }

    /// A span of `secs` seconds.
    pub fn from_secs(secs: u64) -> (span: Self)
        ensures
            span.spec_secs() == secs,
            span.spec_subsec_nanos() == 0,
    {
        Span { secs, nanos: 0 }
    }

    /// The whole seconds of the span.
    pub fn secs(&self) -> (s: u64)
        ensures
            s == self.spec_secs(),
    {
        self.secs
    }

    /// The nanoseconds beyond the whole seconds.
    pub fn subsec_nanos(&self) -> (n: u32)
        ensures
            n == self.spec_subsec_nanos(),
            n < NANOS_PER_SEC,
    {
        proof {
            use_type_invariant(self);
        }
        self.nanos
    }

    /// The span as text, in the short form of `10ms` or `1.5s`.
    pub fn to_text(&self) -> (text: String)
        ensures
            text@ == self.text(),
    {
        proof {
            use_type_invariant(self);
        }
        duration_debug_text(self.secs, self.nanos)
    }
}

/// A span of `millis` milliseconds as text.
pub open spec fn millis_text(millis: u64) -> Seq<char> {
    duration_debug(
        (millis / MILLIS_PER_SEC) as int,
        ((millis % MILLIS_PER_SEC) * NANOS_PER_MILLI) as int,
    )
}

/// The text that the `Debug` form of a `std::time::Duration` of `secs`
/// seconds and `nanos` nanoseconds consists of.
pub uninterp spec fn duration_debug(secs: int, nanos: int) -> Seq<char>;

/// Formats `std::time::Duration::new(secs, nanos)` with `{:?}`.
///
/// Trusted: the text depends on the two numbers alone. With `nanos` below one
/// second nothing is carried into the seconds, so the constructor cannot
/// overflow.
#[verifier::external_body]
fn duration_debug_text(secs: u64, nanos: u32) -> (text: String)
    requires
        nanos < NANOS_PER_SEC,
    ensures
        text@ == duration_debug(secs as int, nanos as int),
{
    format!("{:?}", std::time::Duration::new(secs, nanos))
}

} // verus!
