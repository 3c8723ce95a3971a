//! The credential-refresh sub-protocol: adopting an externally rotated
//! token, decoding the refresh endpoint's answer, and the bounded retry
//! envelope around failed attempts.

use vstd::prelude::*;
use crate::json::{json_quote, json_quoted, parse_refresh_token, refresh_token_of};
use crate::text::str_eq;

verus! {

/// Total refresh attempts allowed before the protocol is exhausted.
pub const MAX_REFRESH_ATTEMPTS: u64 = 7;

/// Seconds slept between two refresh attempts.
pub const REFRESH_RETRY_DELAY_SECS: u64 = 15;

/// How one refresh attempt proceeds, decided from the freshly read token
/// file before any network call.
#[derive(Debug)]
pub enum AttemptPlan {
    /// The on-disk token already differs from the in-memory one: adopt it
    /// verbatim; no network call is made.
    AdoptDiskToken { token: String },
    /// The token file could not be read: this attempt fails.
    DiskReadFailed,
    /// The on-disk token is unchanged: POST to the refresh endpoint.
    RequestRefresh,
}

/// Plans one refresh attempt from the current in-memory token and the
/// re-read content of the token file (`None` when the read failed). A file
/// whose content differs from the in-memory token is adopted verbatim, so an
/// externally rotated credential succeeds without any network call.
pub fn refresh_attempt_plan(current_token: &str, disk_token: Option<String>) -> (p: AttemptPlan)
    ensures
        match disk_token {
            Option::None => p is DiskReadFailed,
            Option::Some(d) => if d@ != current_token@ {
                p matches AttemptPlan::AdoptDiskToken { token } && token@ == d@
            } else {
                p is RequestRefresh
            },
        },
{
    match disk_token {
        Option::None => AttemptPlan::DiskReadFailed,
        Option::Some(d) => {
            if !str_eq(current_token, d.as_str()) {
                AttemptPlan::AdoptDiskToken { token: d }
            } else {
                AttemptPlan::RequestRefresh
            }
        },
    }
}

/// Why one refresh attempt failed.
#[derive(Debug)]
pub enum RefreshError {
    /// The refresh endpoint answered with a non-200 status; its body is the
    /// error detail.
    Endpoint { detail: String },
    /// The 200 body did not hold exactly one string under `data`.
    Malformed,
}

/// Decodes the refresh endpoint's answer. A non-200 status fails with the
/// body as detail; a 200 body must be a JSON object whose `data` field is an
/// array of exactly one string — that string is the new token, and any
/// deviation is a decode failure.
pub fn parse_refresh_response(http_status: u16, body: &str) -> (r: Result<String, RefreshError>)
    ensures
        http_status != 200 ==> (r matches Err(RefreshError::Endpoint { detail })
            && detail@ == body@),
        http_status == 200 ==> match refresh_token_of(body@) {
            Option::Some(t) => r matches Ok(token) && token@ == t,
            Option::None => r matches Err(RefreshError::Malformed),
        },
{
    if http_status != 200 {
        return Err(RefreshError::Endpoint { detail: body.to_owned() });
    }
    match parse_refresh_token(body) {
        Option::Some(token) => Ok(token),
        Option::None => Err(RefreshError::Malformed),
    }
}

/// The JSON payload POSTed to the refresh endpoint: the refresh token, read
/// fresh from disk, under the `refresh_token` key.
pub fn refresh_payload(refresh_token: &str) -> (r: String)
    ensures
        r@ == "{\"refresh_token\":"@ + json_quoted(refresh_token@) + "}"@,
{
    let mut s = "{\"refresh_token\":".to_owned();
    let quoted = json_quote(refresh_token);
    s.append(quoted.as_str());
    s.append("}");
    s
}

/// What follows one recorded failure.
#[derive(Debug, PartialEq, Eq, Structural)]
pub enum RefreshStep {
    /// Sleep this many seconds, then attempt again.
    RetryAfter { secs: u64 },
    /// The retry budget is spent: the poller terminates as fatal.
    Exhausted,
}

/// The retry envelope around refresh attempts: it counts failed attempts and
/// declares exhaustion once all allowed attempts have failed.
#[derive(Debug)]
pub struct RefreshEnvelope {
    pub failed_attempts: u64,
}

impl RefreshEnvelope {
    /// A fresh envelope: no attempt has failed yet.
    pub fn new() -> (e: RefreshEnvelope)
        ensures
            e.failed_attempts == 0,
    {
        RefreshEnvelope { failed_attempts: 0 }
    }

    /// Whether the retry budget is spent.
    pub fn is_exhausted(&self) -> (r: bool)
        ensures
            r == (self.failed_attempts >= MAX_REFRESH_ATTEMPTS),
    {
        self.failed_attempts >= MAX_REFRESH_ATTEMPTS
    }

    /// Records one failed attempt. Every failure but the last is followed by
    /// a fixed delay and another attempt; the last declares exhaustion.
    pub fn record_failure(&mut self) -> (s: RefreshStep)
        requires
            old(self).failed_attempts < MAX_REFRESH_ATTEMPTS,
        ensures
            final(self).failed_attempts == old(self).failed_attempts + 1,
            final(self).failed_attempts < MAX_REFRESH_ATTEMPTS
                ==> s == (RefreshStep::RetryAfter { secs: REFRESH_RETRY_DELAY_SECS }),
            final(self).failed_attempts == MAX_REFRESH_ATTEMPTS ==> s == RefreshStep::Exhausted,
    {
        self.failed_attempts = self.failed_attempts + 1;
        if self.failed_attempts < MAX_REFRESH_ATTEMPTS {
            RefreshStep::RetryAfter { secs: REFRESH_RETRY_DELAY_SECS }
        } else {
            RefreshStep::Exhausted
        }
    }
}

/// How a whole refresh run ends, at the specification level.
pub enum RefreshRunOutcome {
    /// Some attempt produced a new token; it is adopted and polling resumes.
    Renewed { token: Seq<char> },
    /// All allowed attempts failed.
    ExhaustedRun { attempts: nat },
    /// The given attempts all failed but the budget is not yet spent.
    StillFailing { failures: nat },
}

/// Folds a sequence of attempt outcomes — `Some(token)` for a successful
/// attempt, `None` for a failed one — through the retry envelope, starting
/// from `failures` already-failed attempts.
pub open spec fn run_refresh(failures: nat, events: Seq<Option<Seq<char>>>) -> RefreshRunOutcome
    decreases events.len(),
{
    if failures >= MAX_REFRESH_ATTEMPTS {
        RefreshRunOutcome::ExhaustedRun { attempts: failures }
    } else if events.len() == 0 {
        RefreshRunOutcome::StillFailing { failures }
    } else {
        match events.first() {
            Option::Some(t) => RefreshRunOutcome::Renewed { token: t },
            Option::None => run_refresh(failures + 1, events.drop_first()),
        }
    }
}

proof fn lemma_run_refresh_all_failures(failures: nat, events: Seq<Option<Seq<char>>>)
    requires
        failures <= MAX_REFRESH_ATTEMPTS,
        forall|i: int| 0 <= i < events.len() ==> events[i] is None,
    ensures
        failures + events.len() >= MAX_REFRESH_ATTEMPTS ==> run_refresh(failures, events)
            == (RefreshRunOutcome::ExhaustedRun { attempts: MAX_REFRESH_ATTEMPTS as nat }),
        failures + events.len() < MAX_REFRESH_ATTEMPTS ==> run_refresh(failures, events)
            == (RefreshRunOutcome::StillFailing { failures: (failures + events.len()) as nat }),
    decreases events.len(),
{
    if failures >= MAX_REFRESH_ATTEMPTS {
    } else if events.len() == 0 {
    } else {
        lemma_run_refresh_all_failures(failures + 1, events.drop_first());
    }
}

/// When every attempt fails, exhaustion is declared after exactly seven
/// attempts: a run of seven or more failures consumes seven and ends
/// exhausted, while fewer than seven failures leave the envelope still
/// retrying.
pub proof fn lemma_refresh_exhaustion(events: Seq<Option<Seq<char>>>)
    requires
        forall|i: int| 0 <= i < events.len() ==> events[i] is None,
    ensures
        events.len() >= MAX_REFRESH_ATTEMPTS ==> run_refresh(0, events)
            == (RefreshRunOutcome::ExhaustedRun { attempts: MAX_REFRESH_ATTEMPTS as nat }),
        events.len() < MAX_REFRESH_ATTEMPTS ==> run_refresh(0, events)
            == (RefreshRunOutcome::StillFailing { failures: events.len() }),
{
    lemma_run_refresh_all_failures(0, events);
}

/// A successful attempt ends the run at once with its token, whatever stands
/// behind it in the event sequence.
pub proof fn lemma_refresh_success_is_immediate(
    failures: nat,
    events: Seq<Option<Seq<char>>>,
    token: Seq<char>,
)
    requires
        failures < MAX_REFRESH_ATTEMPTS,
        events.len() > 0,
        events.first() == Option::Some(token),
    ensures
        run_refresh(failures, events) == (RefreshRunOutcome::Renewed { token }),
{
}

} // verus!
