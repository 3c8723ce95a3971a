//! The poll loop's decisions: from the outcome of one query to the next
//! action of the poller.

use vstd::prelude::*;
use crate::json::{decode_body, decoded_response_of, json_doc_of, response_of_doc};
use crate::response::{classify, zero_response, Decision};

verus! {

/// Seconds slept between polls while the decision is pending.
pub const POLL_INTERVAL_SECS: u64 = 30;

/// Per-call timeout, in seconds, of one query to the approval endpoint.
pub const QUERY_TIMEOUT_SECS: u64 = 3;

/// Outcome of one transport-level query, as the surrounding process reports
/// it.
#[derive(Debug)]
pub enum QueryOutcome {
    /// The HTTP call completed with this status and body.
    Completed { http_status: u16, body: String },
    /// The call failed at the transport level: connection error or timeout.
    Failed,
}

/// What the poller must do next.
#[derive(Debug, PartialEq, Eq, Structural)]
pub enum PollAction {
    /// Run the credential-refresh protocol, then poll again without
    /// sleeping.
    StartRefresh,
    /// Write the approval sentinel and terminate with the success exit
    /// status.
    WriteApprovedAndExit,
    /// Write the cancellation sentinel and terminate with the failure exit
    /// status.
    WriteCanceledAndExit,
    /// The service rejected the credential at the application level:
    /// terminate with the failure exit status and write no sentinel.
    FatalUnauthorized,
    /// Sleep this many seconds, then poll again.
    SleepAndRepoll { secs: u64 },
}

/// The action each decision commands: terminal decisions write their
/// sentinel and exit, a credential rejection is fatal, and a pending
/// decision waits one poll interval.
pub open spec fn decision_action(d: Decision) -> PollAction {
    match d {
        Decision::Approved => PollAction::WriteApprovedAndExit,
        Decision::Canceled => PollAction::WriteCanceledAndExit,
        Decision::Pending => PollAction::SleepAndRepoll { secs: POLL_INTERVAL_SECS },
        Decision::AuthRejected => PollAction::FatalUnauthorized,
    }
}

/// Maps a decision to its action, exactly as [`decision_action`] states.
pub fn action_for_decision(d: Decision) -> (a: PollAction)
    ensures
        a == decision_action(d),
{
    match d {
        Decision::Approved => PollAction::WriteApprovedAndExit,
        Decision::Canceled => PollAction::WriteCanceledAndExit,
        Decision::Pending => PollAction::SleepAndRepoll { secs: POLL_INTERVAL_SECS },
        Decision::AuthRejected => PollAction::FatalUnauthorized,
    }
}

/// Classifies a raw response body: the body is decoded — any malformed body
/// folding into the zero-valued response — and the result is exactly the
/// classification of what the body decodes to.
pub fn response_check(body: &str) -> (d: Decision)
    ensures
        d == classify(decoded_response_of(body@)),
{
    let resp = decode_body(body);
    resp.decision()
}

/// A malformed body — one that does not parse, or whose document deviates
/// from the expected shape — decodes to the zero-valued response and so
/// classifies as pending: it never decides the outcome.
pub proof fn lemma_malformed_body_is_pending(s: Seq<char>)
    requires
        match json_doc_of(s) {
            Option::Some(doc) => response_of_doc(doc) is None,
            Option::None => true,
        },
    ensures
        decoded_response_of(s) == zero_response(),
        classify(decoded_response_of(s)) == Decision::Pending,
{
}

/// One round of the poll loop. A transport failure is treated exactly like a
/// pending decision; HTTP 401 means the access token is stale and hands off
/// to the refresh protocol; any other completed call is decided by its raw
/// body alone, whatever the HTTP status: the action of the classification of
/// what the body decodes to.
pub fn poll_round(outcome: &QueryOutcome) -> (a: PollAction)
    ensures
        outcome is Failed ==> a == (PollAction::SleepAndRepoll { secs: POLL_INTERVAL_SECS }),
        outcome matches QueryOutcome::Completed { http_status, body } ==> a == (if http_status
            == 401 {
            PollAction::StartRefresh
        } else {
            decision_action(classify(decoded_response_of(body@)))
        }),
{
    match outcome {
        QueryOutcome::Failed => PollAction::SleepAndRepoll { secs: POLL_INTERVAL_SECS },
        QueryOutcome::Completed { http_status, body } => {
            if *http_status == 401 {
                PollAction::StartRefresh
            } else {
                let d = response_check(body.as_str());
                action_for_decision(d)
            }
        },
    }
}

} // verus!
