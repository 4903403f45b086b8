use vstd::prelude::*;

use crate::text::opt_view;

verus! {

/// Details reported by the control API while stopping and starting the VPN.
#[derive(Debug, Clone)]
pub struct GluetunRestartOutcome {
    pub stop_outcome: Option<String>,
    pub start_outcome: Option<String>,
}

/// Ways in which a restart through the control API fails.
#[derive(Debug, Clone)]
pub enum GluetunError {
    /// The request could not be sent or its body could not be read.
    Http(String),
    /// The API answered with a status code outside 2xx.
    UnexpectedStatus(u16),
    /// The API reported another state than the one asked for.
    UnexpectedState { expected: &'static str, actual: String },
    /// The desired state was not observed within the polling budget.
    PollTimeout,
}

/// Text that Rust's `Debug` formatting gives an optional string.
pub uninterp spec fn debug_form(o: Option<Seq<char>>) -> Seq<char>;

/// Relies on `format!("{:?}", ..)` of std for `Option<String>`: the text
/// depends on the value alone.
#[verifier::external_body]
fn debug_text(o: &Option<String>) -> (r: String)
    ensures
        r@ == debug_form(opt_view(*o)),
{
    format!("{:?}", o)
}

pub open spec fn outcome_text(o: GluetunRestartOutcome) -> Seq<char> {
    "stop_outcome="@ + debug_form(opt_view(o.stop_outcome)) + ", start_outcome="@
        + debug_form(opt_view(o.start_outcome))
}

pub open spec fn error_text(e: GluetunError) -> Seq<char> {
    match e {
        GluetunError::Http(m) => "HTTP request failed: "@ + m@,
        GluetunError::UnexpectedStatus(c) => "unexpected status code: "@ + crate::text::decimal(
            c as nat,
        ),
        GluetunError::UnexpectedState { expected, actual } => "gluetun returned unexpected state: expected "@
            + expected@ + ", got "@ + actual@,
        GluetunError::PollTimeout => "gluetun did not report desired state after polling"@,
    }
}

impl GluetunRestartOutcome {
    /// One-line description, recorded as the outcome of a restart.
    pub fn describe(&self) -> (r: String)
        ensures
            r@ == outcome_text(*self),
    {
        let mut s = String::from_str("stop_outcome=");
        s.append(debug_text(&self.stop_outcome).as_str());
        s.append(", start_outcome=");
        s.append(debug_text(&self.start_outcome).as_str());
        s
    }
}

impl GluetunError {
    /// One-line description, recorded as the error of a restart.
    pub fn message(&self) -> (r: String)
        ensures
            r@ == error_text(*self),
    {
        match self {
            GluetunError::Http(m) => {
                let mut s = String::from_str("HTTP request failed: ");
                s.append(m.as_str());
                s
            },
            GluetunError::UnexpectedStatus(c) => {
                let mut s = String::from_str("unexpected status code: ");
                s.append(crate::text::decimal_text(*c as u64).as_str());
                s
            },
            GluetunError::UnexpectedState { expected, actual } => {
                let mut s = String::from_str("gluetun returned unexpected state: expected ");
                s.append(expected);
                s.append(", got ");
                s.append(actual.as_str());
                s
            },
            GluetunError::PollTimeout => String::from_str(
                "gluetun did not report desired state after polling",
            ),
        }
    }
}

pub open spec fn success_code(code: u16) -> bool {
    200 <= code < 300
}

/// Judges the answer to a request that asked for state `expected`: a
/// status code outside 2xx and a reported state other than the one asked
/// for are errors.
pub fn check_status_change(expected: &'static str, code: u16, reported: &str) -> (r: Result<
    (),
    GluetunError,
>)
    ensures
        !success_code(code) ==> r == Err::<(), GluetunError>(GluetunError::UnexpectedStatus(code)),
        success_code(code) && reported@ != expected@ ==> (r matches Err(
            GluetunError::UnexpectedState { expected: e, actual: a },
        ) && e == expected && a@ == reported@),
        success_code(code) && reported@ == expected@ ==> r is Ok,
{
    if code < 200 || code >= 300 {
        return Err(GluetunError::UnexpectedStatus(code));
    }
    if !crate::text::same_text(reported, expected) {
        return Err(
            GluetunError::UnexpectedState { expected, actual: String::from_str(reported) },
        );
    }
    Ok(())
}

/// What polling does after one answer.
#[derive(Debug, Clone)]
pub enum PollStep {
    /// The desired state was observed.
    Reached,
    /// Wait one interval and ask again.
    Retry,
    /// Give up with this error.
    Fail(GluetunError),
}

/// Judges the answer to poll number `attempt` (from 0) of `attempts`: a
/// status code outside 2xx fails at once; the desired state ends polling;
/// another state is asked again while attempts remain, else polling times
/// out.
pub fn poll_decision(desired: &str, code: u16, reported: &str, attempt: u8, attempts: u8) -> (r:
    PollStep)
    ensures
        !success_code(code) ==> (r matches PollStep::Fail(GluetunError::UnexpectedStatus(c))
            && c == code),
        success_code(code) && reported@ == desired@ ==> r is Reached,
        success_code(code) && reported@ != desired@ && attempt + 1 < attempts ==> r is Retry,
        success_code(code) && reported@ != desired@ && attempt + 1 >= attempts ==> (r matches PollStep::Fail(GluetunError::PollTimeout)),
{
    if code < 200 || code >= 300 {
        return PollStep::Fail(GluetunError::UnexpectedStatus(code));
    }
    if crate::text::same_text(reported, desired) {
        return PollStep::Reached;
    }
    if (attempt as u16) + 1 < attempts as u16 {
        PollStep::Retry
    } else {
        PollStep::Fail(GluetunError::PollTimeout)
    }
}

} // verus!
