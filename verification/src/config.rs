//! Configuration of one poller run: validation of the required values, the
//! endpoint URLs, and the deterministic sentinel paths.

use vstd::prelude::*;
use vstd::string::StringExecFns;
use crate::client::APIClient;

verus! {

/// The approval-status endpoint for one job under a service base URL.
pub open spec fn approval_status_url_spec(base: Seq<char>, job_id: Seq<char>) -> Seq<char> {
    base + "/api/v1/task/"@ + job_id + "/approval-status"@
}

/// The refresh endpoint under a service base URL.
pub open spec fn refresh_url_spec(base: Seq<char>) -> Seq<char> {
    base + "/refresh"@
}

/// The approval sentinel: a marker file named from the generation directory
/// and the job identifier.
pub open spec fn approved_sentinel_spec(generation_path: Seq<char>, job_id: Seq<char>) -> Seq<char> {
    generation_path + "/_approved_"@ + job_id
}

/// The cancellation sentinel.
pub open spec fn canceled_sentinel_spec(generation_path: Seq<char>, job_id: Seq<char>) -> Seq<char> {
    generation_path + "/_canceled_"@ + job_id
}

pub fn approval_status_url(base: &str, job_id: &str) -> (r: String)
    ensures
        r@ == approval_status_url_spec(base@, job_id@),
{
    let mut s = base.to_owned();
    s.append("/api/v1/task/");
    s.append(job_id);
    s.append("/approval-status");
    s
}

pub fn refresh_endpoint_url(base: &str) -> (r: String)
    ensures
        r@ == refresh_url_spec(base@),
{
    let mut s = base.to_owned();
    s.append("/refresh");
    s
}

pub fn approved_sentinel_path(generation_path: &str, job_id: &str) -> (r: String)
    ensures
        r@ == approved_sentinel_spec(generation_path@, job_id@),
{
    let mut s = generation_path.to_owned();
    s.append("/_approved_");
    s.append(job_id);
    s
}

pub fn canceled_sentinel_path(generation_path: &str, job_id: &str) -> (r: String)
    ensures
        r@ == canceled_sentinel_spec(generation_path@, job_id@),
{
    let mut s = generation_path.to_owned();
    s.append("/_canceled_");
    s.append(job_id);
    s
}

/// A required configuration value that is missing. The poller fails fast on
/// these, before any network call.
#[derive(Debug, Clone, Copy, PartialEq, Eq, Structural)]
pub enum ConfigError {
    MissingGenerationPath,
    MissingJobId,
}

/// What one run of the poller is to do.
#[derive(Debug)]
pub enum PollPlan {
    /// The optional service URL or token is absent: the check is skipped and
    /// the process succeeds at once.
    SkipCheck,
    /// Poll with this client; on a terminal decision write one of these
    /// sentinel paths.
    Run { client: APIClient, approved_path: String, canceled_path: String },
}

/// An optional value that is missing or empty; either turns the check off.
pub open spec fn blank(v: Option<String>) -> bool {
    v is None || v.unwrap()@.len() == 0
}

/// The configured path, or its fixed default where none was given.
pub open spec fn resolved_path(v: Option<String>, default_path: Seq<char>) -> Seq<char> {
    match v {
        Option::Some(p) => p@,
        Option::None => default_path,
    }
}

/// Validates one run's configuration. The generation directory and the job
/// identifier are required and checked first; an absent or empty service URL
/// or access token skips the check; otherwise the poller runs with the
/// derived endpoint URLs, sentinel paths, and credential file paths.
pub fn plan(
    url: Option<String>,
    token: Option<String>,
    generation_path: Option<String>,
    job_id: Option<String>,
    token_path: Option<String>,
    refresh_token_path: Option<String>,
) -> (r: Result<PollPlan, ConfigError>)
    ensures
        generation_path is None ==> r == Err::<PollPlan, ConfigError>(
            ConfigError::MissingGenerationPath,
        ),
        generation_path is Some && job_id is None ==> r == Err::<PollPlan, ConfigError>(
            ConfigError::MissingJobId,
        ),
        generation_path is Some && job_id is Some && (blank(url) || blank(token))
            ==> r == Ok::<PollPlan, ConfigError>(PollPlan::SkipCheck),
        generation_path is Some && job_id is Some && !blank(url) && !blank(token) ==> (r matches Ok(
            PollPlan::Run { client, approved_path, canceled_path },
        ) && client.url@ == approval_status_url_spec(url.unwrap()@, job_id.unwrap()@)
            && client.refresh_url@ == refresh_url_spec(url.unwrap()@)
            && client.token@ == token.unwrap()@
            && client.token_path@ == resolved_path(token_path, "/jwt/TFO_API_LOG_TOKEN"@)
            && client.refresh_token_path@ == resolved_path(refresh_token_path, "/jwt/REFRESH_TOKEN"@)
            && approved_path@ == approved_sentinel_spec(generation_path.unwrap()@, job_id.unwrap()@)
            && canceled_path@ == canceled_sentinel_spec(generation_path.unwrap()@, job_id.unwrap()@)),
{
    let generation = match generation_path {
        Option::Some(g) => g,
        Option::None => {
            return Err(ConfigError::MissingGenerationPath);
        },
    };
    let job = match job_id {
        Option::Some(j) => j,
        Option::None => {
            return Err(ConfigError::MissingJobId);
        },
    };
    let base = match url {
        Option::Some(u) => u,
        Option::None => {
            return Ok(PollPlan::SkipCheck);
        },
    };
    if base.as_str().is_empty() {
        return Ok(PollPlan::SkipCheck);
    }
    let bearer = match token {
        Option::Some(t) => t,
        Option::None => {
            return Ok(PollPlan::SkipCheck);
        },
    };
    if bearer.as_str().is_empty() {
        return Ok(PollPlan::SkipCheck);
    }
    let access_path = match token_path {
        Option::Some(p) => p,
        Option::None => "/jwt/TFO_API_LOG_TOKEN".to_owned(),
    };
    let renew_path = match refresh_token_path {
        Option::Some(p) => p,
        Option::None => "/jwt/REFRESH_TOKEN".to_owned(),
    };
    let approval_url = approval_status_url(base.as_str(), job.as_str());
    let renew_url = refresh_endpoint_url(base.as_str());
    let approved_path = approved_sentinel_path(generation.as_str(), job.as_str());
    let canceled_path = canceled_sentinel_path(generation.as_str(), job.as_str());
    let client = APIClient::new(approval_url, renew_url, bearer, access_path, renew_path);
    Ok(PollPlan::Run { client, approved_path, canceled_path })
}

} // verus!
