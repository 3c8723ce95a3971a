use approval_gate::client::APIClient;
use approval_gate::config::{
    approval_status_url, approved_sentinel_path, canceled_sentinel_path, plan,
    refresh_endpoint_url, ConfigError, PollPlan,
};

fn some(s: &str) -> Option<String> {
    Some(s.to_string())
}

#[test]
fn urls_and_sentinel_paths_are_deterministic() {
    assert_eq!(
        approval_status_url("http://svc", "job-1"),
        "http://svc/api/v1/task/job-1/approval-status"
    );
    assert_eq!(refresh_endpoint_url("http://svc"), "http://svc/refresh");
    assert_eq!(approved_sentinel_path("/out", "job-1"), "/out/_approved_job-1");
    assert_eq!(canceled_sentinel_path("/out", "job-1"), "/out/_canceled_job-1");
}

#[test]
fn missing_generation_path_fails_fast() {
    let r = plan(some("http://svc"), some("tok"), None, some("job-1"), None, None);
    assert_eq!(r.unwrap_err(), ConfigError::MissingGenerationPath);
}

#[test]
fn missing_job_id_fails_fast() {
    let r = plan(some("http://svc"), some("tok"), some("/out"), None, None, None);
    assert_eq!(r.unwrap_err(), ConfigError::MissingJobId);
}

#[test]
fn required_values_are_checked_before_the_optional_ones() {
    let r = plan(None, None, None, None, None, None);
    assert_eq!(r.unwrap_err(), ConfigError::MissingGenerationPath);
}

#[test]
fn absent_url_skips_the_check() {
    let r = plan(None, some("tok"), some("/out"), some("job-1"), None, None);
    assert!(matches!(r, Ok(PollPlan::SkipCheck)));
    let r = plan(some(""), some("tok"), some("/out"), some("job-1"), None, None);
    assert!(matches!(r, Ok(PollPlan::SkipCheck)));
}

#[test]
fn absent_token_skips_the_check() {
    let r = plan(some("http://svc"), None, some("/out"), some("job-1"), None, None);
    assert!(matches!(r, Ok(PollPlan::SkipCheck)));
    let r = plan(some("http://svc"), some(""), some("/out"), some("job-1"), None, None);
    assert!(matches!(r, Ok(PollPlan::SkipCheck)));
}

#[test]
fn full_configuration_runs_with_derived_values() {
    let r = plan(some("http://svc"), some("tok"), some("/out"), some("job-1"), None, None);
    match r {
        Ok(PollPlan::Run { client, approved_path, canceled_path }) => {
            assert_eq!(client.url, "http://svc/api/v1/task/job-1/approval-status");
            assert_eq!(client.refresh_url, "http://svc/refresh");
            assert_eq!(client.token, "tok");
            assert_eq!(client.token_path, "/jwt/TFO_API_LOG_TOKEN");
            assert_eq!(client.refresh_token_path, "/jwt/REFRESH_TOKEN");
            assert_eq!(approved_path, "/out/_approved_job-1");
            assert_eq!(canceled_path, "/out/_canceled_job-1");
        },
        other => panic!("expected a run plan, got {:?}", other),
    }
}

#[test]
fn explicit_credential_paths_are_kept() {
    let r = plan(
        some("http://svc"),
        some("tok"),
        some("/out"),
        some("job-1"),
        some("/alt/token"),
        some("/alt/refresh"),
    );
    match r {
        Ok(PollPlan::Run { client, .. }) => {
            assert_eq!(client.token_path, "/alt/token");
            assert_eq!(client.refresh_token_path, "/alt/refresh");
        },
        other => panic!("expected a run plan, got {:?}", other),
    }
}

#[test]
fn client_fields_are_stored_and_token_is_replaceable() {
    let mut client = APIClient::new(
        "u".to_string(),
        "r".to_string(),
        "t".to_string(),
        "tp".to_string(),
        "rp".to_string(),
    );
    assert_eq!(client.url, "u");
    assert_eq!(client.refresh_url, "r");
    assert_eq!(client.token, "t");
    assert_eq!(client.token_path, "tp");
    assert_eq!(client.refresh_token_path, "rp");
    client.set_token("newtoken".to_string());
    assert_eq!(client.token, "newtoken");
    assert_eq!(client.url, "u");
}
