//! What the operator is told: one text for each thing worth reporting.

use crate::discovery::{DiscoveryError, DiscoveryFailure};
use crate::forward::{DispatchOutcome, Outcome};
use crate::identifier::{decimal_digits, push_decimal, InvalidIdentifier, WorkItem};
use vstd::prelude::*;
use vstd::string::StringExecFns;

verus! {

/// An outcome that is a failure, to be reported as an error.
pub open spec fn is_failure(outcome: Outcome) -> bool {
    !(outcome is Delivered)
}

/// The report of one forwarded item. It names the item, and gives the
/// payload of a delivery, or the status and body text of a rejection, or the
/// detail of a failure.
pub open spec fn outcome_text(id: nat, outcome: Outcome) -> Seq<char> {
    match outcome {
        Outcome::Delivered { payload } => "PID "@ + decimal_digits(id)
            + " analyzed successfully.\nResponse: "@ + payload,
        Outcome::RejectedByServer { status, body } => "Failed to analyze PID "@ + decimal_digits(
            id,
        ) + ": "@ + decimal_digits(status as nat) + " - "@ + body,
        Outcome::TransportFailed { detail } => "Error sending PID "@ + decimal_digits(id) + ": "@
            + detail,
        Outcome::ResponseUnparseable { detail } => "Failed to parse JSON response for PID "@
            + decimal_digits(id) + ": "@ + detail,
    }
}

/// The warning for a raw identifier that was refused. It quotes the text as
/// it was received.
pub open spec fn refusal_text(raw: Seq<char>) -> Seq<char> {
    "Warning: invalid pid string '"@ + raw + "', skipping"@
}

/// The report of a discovery that failed.
pub open spec fn discovery_failure_text(failure: DiscoveryFailure) -> Seq<char> {
    match failure {
        DiscoveryFailure::Unavailable { detail } => "Failed to fetch PIDs: "@ + detail,
        DiscoveryFailure::Rejected { status } => "Failed to fetch PIDs: HTTP "@ + decimal_digits(
            status as nat,
        ),
    }
}

/// The notice of how many work items a cycle found.
pub open spec fn found_text(count: nat) -> Seq<char> {
    "Found "@ + decimal_digits(count) + " PIDs to analyze."@
}

/// The notice that a cycle is over and the idle delay begins.
pub open spec fn idle_text(millis: nat) -> Seq<char> {
    "Cycle complete, sleeping for "@ + decimal_digits(millis) + " ms..."@
}

/// Tells whether an outcome is a failure, to be reported as an error.
pub fn outcome_is_failure(outcome: &DispatchOutcome) -> (failure: bool)
    ensures
        failure == is_failure(outcome@),
{
    match outcome {
        DispatchOutcome::Delivered { .. } => false,
        _ => true,
    }
}

/// The report of one forwarded item.
pub fn outcome_report(item: WorkItem, outcome: &DispatchOutcome) -> (text: String)
    ensures
        text@ == outcome_text(item@, outcome@),
{
    match outcome {
        DispatchOutcome::Delivered { payload } => {
            let mut text = String::from_str("PID ");
            push_decimal(&mut text, item.id() as u64);
            text.append(" analyzed successfully.\nResponse: ");
            text.append(payload.as_str());
            text
        },
        DispatchOutcome::RejectedByServer { status, body } => {
            let mut text = String::from_str("Failed to analyze PID ");
            push_decimal(&mut text, item.id() as u64);
            text.append(": ");
            push_decimal(&mut text, *status as u64);
            text.append(" - ");
            text.append(body.as_str());
            text
        },
        DispatchOutcome::TransportFailed { detail } => {
            let mut text = String::from_str("Error sending PID ");
            push_decimal(&mut text, item.id() as u64);
            text.append(": ");
            text.append(detail.as_str());
            text
        },
        DispatchOutcome::ResponseUnparseable { detail } => {
            let mut text = String::from_str("Failed to parse JSON response for PID ");
            push_decimal(&mut text, item.id() as u64);
            text.append(": ");
            text.append(detail.as_str());
            text
        },
    }
}

/// The warning for a raw identifier that was refused.
pub fn refusal_warning(refusal: &InvalidIdentifier) -> (text: String)
    ensures
        text@ == refusal_text(refusal.raw@),
{
    let mut text = String::from_str("Warning: invalid pid string '");
    text.append(refusal.raw.as_str());
    text.append("', skipping");
    text
}

/// The report of a discovery that failed.
pub fn discovery_failure_report(error: &DiscoveryError) -> (text: String)
    ensures
        text@ == discovery_failure_text(error@),
{
    match error {
        DiscoveryError::Unavailable { detail } => {
            let mut text = String::from_str("Failed to fetch PIDs: ");
            text.append(detail.as_str());
            text
        },
        DiscoveryError::Rejected { status } => {
            let mut text = String::from_str("Failed to fetch PIDs: HTTP ");
            push_decimal(&mut text, *status as u64);
            text
        },
    }
}

/// The notice of how many work items a cycle found.
pub fn found_notice(count: usize) -> (text: String)
    ensures
        text@ == found_text(count as nat),
{
    let mut text = String::from_str("Found ");
    push_decimal(&mut text, count as u64);
    text.append(" PIDs to analyze.");
    text
}

/// The notice that a cycle is over and the idle delay begins.
pub fn idle_notice(millis: u64) -> (text: String)
    ensures
        text@ == idle_text(millis as nat),
{
    let mut text = String::from_str("Cycle complete, sleeping for ");
    push_decimal(&mut text, millis);
    text.append(" ms...");
    text
}

} // verus!
