//! What is known of a monitored website: who it is, and how it is doing.

use crate::span::Span;
use vstd::prelude::*;
use vstd::string::StringExecFns;

verus! {

/// The name and the address under which a website is reported.
#[derive(Debug, PartialEq, Eq)]
pub struct WebsiteInfo {
    pub name: String,
    pub url: String,
}

impl WebsiteInfo {
    /// The website `name` at the address `url`.
    pub fn new(name: &str, url: &str) -> (info: Self)
        ensures
            info.name@ == name@,
            info.url@ == url@,
    {
        Self { name: String::from_str(name), url: String::from_str(url) }
    }
}

/// Why a probe did not find the website up.
#[derive(Debug, PartialEq, Eq)]
pub enum ProbeError {
    /// No response within the time allowed.
    Timeout,
    /// A response with a status other than 200.
    BadStatus(u16),
    /// The request failed below HTTP; the text says how.
    Transport(String),
}

impl ProbeError {
    /// Whether the probe failed by running out of time.
    pub fn is_timeout(&self) -> (b: bool)
        ensures
            b == (self is Timeout),
    {
        match self {
            ProbeError::Timeout => true,
            _ => false,
        }
    }
}

/// Which of the three health states applies, whatever its details.
#[derive(Clone, Copy, Debug, PartialEq, Eq, Structural)]
pub enum StateKind {
    Up,
    Timeout,
    Down,
}

/// The health of a website as the last probe found it.
#[derive(Clone, Copy, Debug, PartialEq, Eq, Structural)]
pub enum WebsiteState {
    /// Answered with status 200, after the given time.
    Up(Span),
    /// Did not answer in time.
    Timeout,
    /// Failed in any other way.
    Down,
}

impl WebsiteState {
    /// The state that a probe's outcome stands for.
    pub open spec fn classify(outcome: Result<Span, ProbeError>) -> WebsiteState {
        match outcome {
            Ok(latency) => WebsiteState::Up(latency),
            Err(ProbeError::Timeout) => WebsiteState::Timeout,
            Err(_) => WebsiteState::Down,
        }
    }

    /// The kind of the state.
    pub open spec fn spec_kind(&self) -> StateKind {
        match self {
            WebsiteState::Up(_) => StateKind::Up,
            WebsiteState::Timeout => StateKind::Timeout,
            WebsiteState::Down => StateKind::Down,
        }
    }

    /// Two states are of the same kind when both are up, both timed out or
    /// both are down; how long an answer took plays no part.
    pub open spec fn same_kind(self, other: WebsiteState) -> bool {
        self.spec_kind() == other.spec_kind()
    }

    /// The state that the outcome of a probe stands for: up after the time
    /// it took, timed out, or down for any other failure.
    pub fn new(ret: &Result<Span, ProbeError>) -> (state: Self)
        ensures
            state == Self::classify(*ret),
    {
        match ret {
            Ok(t) => Self::Up(*t),
            Err(e) => {
                if e.is_timeout() {
                    Self::Timeout
                } else {
                    Self::Down
                }
            },
        }
    }

    /// The kind of the state.
    #[verifier::when_used_as_spec(spec_kind)]
    pub fn kind(&self) -> (k: StateKind)
        ensures
            k == self.spec_kind(),
    {
        match self {
            WebsiteState::Up(_) => StateKind::Up,
            WebsiteState::Timeout => StateKind::Timeout,
            WebsiteState::Down => StateKind::Down,
        }
    }

    /// Whether the website answered as it should.
    pub fn is_up(&self) -> (b: bool)
        ensures
            b == (self is Up),
    {
        match self {
            WebsiteState::Up(_) => true,
            _ => false,
        }
    }

    /// Whether the website failed in another way than by a timeout.
    pub fn is_down(&self) -> (b: bool)
        ensures
            b == (self is Down),
    {
        match self {
            WebsiteState::Down => true,
            _ => false,
        }
    }

    /// Whether the website did not answer in time.
    pub fn is_timeout(&self) -> (b: bool)
        ensures
            b == (self is Timeout),
    {
        match self {
            WebsiteState::Timeout => true,
            _ => false,
        }
    }

    /// Whether both states are of the same kind.
    pub fn is_same_kind(&self, other: &Self) -> (b: bool)
        ensures
            b == self.same_kind(*other),
    {
        match self {
            WebsiteState::Up(_) => other.is_up(),
            WebsiteState::Timeout => other.is_timeout(),
            WebsiteState::Down => other.is_down(),
        }
    }

    /// What `to_text` writes for a state.
    pub open spec fn text(self) -> Seq<char> {
        match self {
            WebsiteState::Up(latency) => "Up ("@ + latency.text() + ")"@,
            WebsiteState::Timeout => "Timeout"@,
            WebsiteState::Down => "Down"@,
        }
    }

    /// The state in words: `Up (10ms)`, `Timeout` or `Down`.
    pub fn to_text(&self) -> (text: String)
        ensures
            text@ == self.text(),
    {
        match self {
            WebsiteState::Up(t) => {
                let span = t.to_text();
                String::from_str("Up (").concat(span.as_str()).concat(")")
            },
            WebsiteState::Timeout => String::from_str("Timeout"),
            WebsiteState::Down => String::from_str("Down"),
        }
    }
}

/// Two probe outcomes are alike when the states they stand for are of the
/// same kind.
pub open spec fn alike(a: Result<Span, ProbeError>, b: Result<Span, ProbeError>) -> bool {
    WebsiteState::classify(a).same_kind(WebsiteState::classify(b))
}

/// Being of the same kind is reflexive, symmetric and transitive, on states
/// and so on the outcomes that are classified into them.
pub proof fn same_kind_is_an_equivalence(
    a: Result<Span, ProbeError>,
    b: Result<Span, ProbeError>,
    c: Result<Span, ProbeError>,
    x: WebsiteState,
    y: WebsiteState,
    z: WebsiteState,
)
    ensures
        x.same_kind(x),
        x.same_kind(y) == y.same_kind(x),
        x.same_kind(y) && y.same_kind(z) ==> x.same_kind(z),
        alike(a, a),
        alike(a, b) == alike(b, a),
        alike(a, b) && alike(b, c) ==> alike(a, c),
{
}

/// Probe outcomes fall into exactly three classes: an answer in any time, a
/// timeout, and a failure of any other cause. The three are told apart, and
/// every outcome is alike to one of them and to no second.
pub proof fn outcomes_fall_into_three_classes(
    outcome: Result<Span, ProbeError>,
    latency: Span,
    status: u16,
    cause: String,
)
    ensures
        !alike(Ok(latency), Err(ProbeError::Timeout)),
        !alike(Ok(latency), Err(ProbeError::Transport(cause))),
        !alike(Err(ProbeError::Timeout), Err(ProbeError::Transport(cause))),
        alike(Err(ProbeError::BadStatus(status)), Err(ProbeError::Transport(cause))),
        outcome is Ok <==> alike(outcome, Ok(latency)),
        outcome == Err::<Span, ProbeError>(ProbeError::Timeout) <==> alike(
            outcome,
            Err(ProbeError::Timeout),
        ),
        outcome is Err && outcome != Err::<Span, ProbeError>(ProbeError::Timeout) <==> alike(
            outcome,
            Err(ProbeError::Transport(cause)),
        ),
{
}

} // verus!
