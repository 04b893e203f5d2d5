//! One probe per iteration: the event the transport hands back, its
//! classification as a success or a failure, and the outcome description
//! shown in the status line.

use crate::render::decimal_of;
use crate::render::decimal_string;
use vstd::prelude::*;

verus! {

/// What one probe of the target produced: a response with its status code,
/// or a transport-level error (DNS, connection refused, timeout, TLS)
/// already rendered as text.
#[derive(Debug)]
pub enum ProbeEvent {
    Response { code: u16 },
    Transport { message: String },
}

/// The classified outcome of one probe, carrying the description shown in
/// the status line.
#[derive(Debug)]
pub enum ProbeOutcome {
    Success(String),
    Failure(String),
}

/// A received response still counts as a failed probe when its status code
/// is a client or server error.
pub open spec fn is_http_failure(code: u16) -> bool {
    400 <= code <= 599
}

/// Whether an event counts as a failed probe: every transport error does,
/// and a response does exactly when its status code is 4xx or 5xx.
pub open spec fn event_fails(event: ProbeEvent) -> bool {
    match event {
        ProbeEvent::Response { code } => is_http_failure(code),
        ProbeEvent::Transport { .. } => true,
    }
}

/// The standardised reason phrase for a status code, when there is one.
pub uninterp spec fn reason_phrase(code: u16) -> Option<Seq<char>>;

/// Relies on `http::StatusCode::canonical_reason`, reached through
/// `http::StatusCode::from_u16`: the standardised reason phrase depends on
/// the numeric code alone; a code with no standardised phrase, or outside
/// the range the crate accepts, has none.
#[verifier::external_body]
fn canonical_reason_text(code: u16) -> (phrase: Option<String>)
    ensures
        phrase is Some <==> reason_phrase(code) is Some,
        phrase matches Some(p) ==> p@ == reason_phrase(code)->0,
{
    match http::StatusCode::from_u16(code) {
        Ok(status) => status.canonical_reason().map(|text| text.to_string()),
        Err(_) => None,
    }
}

/// The description of a received response: the numeric status code followed
/// by its standardised reason phrase, or a fixed note when it has none.
pub open spec fn status_description_spec(code: u16) -> Seq<char> {
    match reason_phrase(code) {
        Some(phrase) => decimal_of(code as nat) + " "@ + phrase,
        None => decimal_of(code as nat) + " "@ + "<unknown status code>"@,
    }
}

/// Render the description of a received response.
pub fn status_description(code: u16) -> (s: String)
    ensures
        s@ == status_description_spec(code),
{
    let mut s = decimal_string(code as u64);
    s.append(" ");
    match canonical_reason_text(code) {
        Some(phrase) => s.append(phrase.as_str()),
        None => s.append("<unknown status code>"),
    }
    assert(s@ =~= status_description_spec(code));
    s
}

/// The description an event classifies to: the status-code text for a
/// response, the transport error's own rendering otherwise.
pub open spec fn event_description_spec(event: ProbeEvent) -> Seq<char> {
    match event {
        ProbeEvent::Response { code } => status_description_spec(code),
        ProbeEvent::Transport { message } => message@,
    }
}

impl ProbeOutcome {
    /// Whether this outcome records a failed probe.
    pub open spec fn failed(self) -> bool {
        self is Failure
    }

    /// The description carried by this outcome.
    pub open spec fn description_view(self) -> Seq<char> {
        match self {
            ProbeOutcome::Success(description) => description@,
            ProbeOutcome::Failure(description) => description@,
        }
    }

    /// Whether this outcome records a failed probe.
    pub fn is_failure(&self) -> (failed: bool)
        ensures
            failed == self.failed(),
    {
        match self {
            ProbeOutcome::Success(_) => false,
            ProbeOutcome::Failure(_) => true,
        }
    }

    /// The description carried by this outcome.
    pub fn description(&self) -> (description: &String)
        ensures
            description@ == self.description_view(),
    {
        match self {
            ProbeOutcome::Success(description) => description,
            ProbeOutcome::Failure(description) => description,
        }
    }
}

/// Classify one probe event: a transport error is a failure under its own
/// message; a response is a failure exactly when its status code is 4xx or
/// 5xx, described by the status-code text either way.
pub fn classify_event(event: ProbeEvent) -> (outcome: ProbeOutcome)
    ensures
        outcome.failed() == event_fails(event),
        outcome.description_view() == event_description_spec(event),
{
    match event {
        ProbeEvent::Response { code } => {
            let description = status_description(code);
            if 400 <= code && code <= 599 {
                ProbeOutcome::Failure(description)
            } else {
                ProbeOutcome::Success(description)
            }
        },
        ProbeEvent::Transport { message } => ProbeOutcome::Failure(message),
    }
}

} // verus!
