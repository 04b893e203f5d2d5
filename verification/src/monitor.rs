//! One iteration of the health-check loop, as a pure step: take the event
//! the transport handed back, update the run state, and derive everything
//! the iteration prints.

use crate::probe::ProbeEvent;
use crate::probe::ProbeOutcome;
use crate::probe::classify_event;
use crate::probe::event_description_spec;
use crate::probe::event_fails;
use crate::render::duration_text;
use crate::render::duration_text_spec;
use crate::render::format_status_line;
use crate::render::status_line_spec;
use crate::state::RunState;
use crate::state::next_failures;
use crate::status::Label;
use crate::status::Tint;
use crate::status::label_of;
use crate::status::label_spec;
use crate::status::label_tint;
use crate::status::label_tint_spec;
use crate::status::outcome_tint;
use vstd::prelude::*;

verus! {

/// Everything one iteration shows: the health label with its colour, the
/// current probe's pass/fail with its colour, the outcome description, the
/// rendered duration, and the assembled status line.
#[derive(Debug)]
pub struct StatusReport {
    pub label: Label,
    pub label_tint: Tint,
    pub failed: bool,
    pub outcome_tint: Tint,
    pub description: String,
    pub duration: String,
    pub line: String,
}

/// Process one probe event: update the consecutive-failure counter, derive
/// the health label from it against the threshold, and assemble the status
/// line from the captured timestamp, the URL path and the probe duration.
///
/// The label reflects the rolling counter as it stands after this probe is
/// recorded — a single success resets it and shows UP at once — while the
/// outcome colour reflects only this iteration's pass or fail.
pub fn process_probe(
    state: &mut RunState,
    failure_threshold: u64,
    event: ProbeEvent,
    timestamp: &str,
    path: &str,
    elapsed_ms: u64,
) -> (report: StatusReport)
    requires
        old(state).consecutive_failures < u64::MAX,
    ensures
        final (state).consecutive_failures == next_failures(
            old(state).consecutive_failures as nat,
            event_fails(event),
        ),
        report.failed == event_fails(event),
        report.label == label_spec(
            final (state).consecutive_failures as nat,
            failure_threshold,
        ),
        report.label_tint == label_tint_spec(report.label),
        report.outcome_tint == (if event_fails(event) {
            Tint::Red
        } else {
            Tint::Green
        }),
        report.description@ == event_description_spec(event),
        report.duration@ == duration_text_spec(elapsed_ms),
        report.line@ == status_line_spec(
            report.label,
            timestamp@,
            path@,
            event_description_spec(event),
            elapsed_ms,
        ),
{
    let outcome = classify_event(event);
    let failed = outcome.is_failure();
    state.record(failed);
    let label = label_of(state.consecutive_failures, failure_threshold);
    let line = format_status_line(label, timestamp, path, outcome.description().as_str(), elapsed_ms);
    let description = match outcome {
        ProbeOutcome::Success(text) => text,
        ProbeOutcome::Failure(text) => text,
    };
    StatusReport {
        label,
        label_tint: label_tint(label),
        failed,
        outcome_tint: outcome_tint(failed),
        description,
        duration: duration_text(elapsed_ms),
        line,
    }
}

} // verus!
