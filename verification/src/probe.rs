//! What one check of a website came to, judged from what the request
//! brought back.

use crate::span::Span;
use crate::website::ProbeError;
use vstd::prelude::*;

verus! {

/// The error of a request that `reqwest` could not complete. Nothing is
/// known of its inside; it is only asked the two questions below.
#[verifier::external_type_specification]
#[verifier::external_body]
pub struct ExRequestError(reqwest::Error);

/// `reqwest::Error::is_timeout` says whether a timeout stands behind the
/// error. Nothing is claimed of its answer.
pub assume_specification[ reqwest::Error::is_timeout ](error: &reqwest::Error) -> (timed_out: bool)
;

/// The message of a `reqwest::Error`, as its `Display` writes it. Nothing is
/// claimed of the text.
#[verifier::external_body]
fn message(error: &reqwest::Error) -> (text: String) {
    error.to_string()
}

/// The only status that counts as the website being up.
pub const STATUS_OK: u16 = 200;

/// What a response with the given status, received after `elapsed`, comes
/// to: the website is up only with status 200.
pub open spec fn answered(status: u16, elapsed: Span) -> Result<Span, ProbeError> {
    if status == STATUS_OK {
        Ok(elapsed)
    } else {
        Err(ProbeError::BadStatus(status))
    }
}

/// What a response with the given status, received after `elapsed`, comes to.
pub fn judge_status(status: u16, elapsed: Span) -> (outcome: Result<Span, ProbeError>)
    ensures
        outcome == answered(status, elapsed),
{
    if status != STATUS_OK {
        return Err(ProbeError::BadStatus(status));
    }
    Ok(elapsed)
}

/// What a request that brought no response comes to: a timeout where time
/// ran out, else a failure of transport with its cause.
pub fn judge_failure(timed_out: bool, cause: String) -> (error: ProbeError)
    ensures
        error == if timed_out {
            ProbeError::Timeout
        } else {
            ProbeError::Transport(cause)
        },
{
    if timed_out {
        ProbeError::Timeout
    } else {
        ProbeError::Transport(cause)
    }
}

/// What the one request of a probe comes to, from the status of the response
/// or the error in its place, and the time that the request took.
///
/// A response is judged by its status alone. An error is asked whether time
/// ran out: whatever it answers, the outcome is a timeout or a failure of
/// transport, never a bad status.
pub fn check(response: Result<u16, reqwest::Error>, elapsed: Span) -> (outcome: Result<
    Span,
    ProbeError,
>)
    ensures
        response matches Ok(status) ==> outcome == answered(status, elapsed),
        response is Err ==> (outcome matches Err(error) && (error is Timeout || error is Transport)),
{
    match response {
        Ok(status) => judge_status(status, elapsed),
        Err(error) => {
            let timed_out = error.is_timeout();
            let cause = message(&error);
            Err(judge_failure(timed_out, cause))
        },
    }
}

} // verus!
