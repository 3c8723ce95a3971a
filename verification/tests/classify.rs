use approval_gate::poller::{action_for_decision, poll_round, response_check, PollAction, QueryOutcome};
use approval_gate::response::{DataItem, Decision, Response, StatusInfo};

fn record(status: &str, is_approved: bool) -> DataItem {
    DataItem { status: status.to_string(), is_approved }
}

fn response(status_code: u16, data: Vec<DataItem>) -> Response {
    Response { status_info: StatusInfo { status_code }, data }
}

#[test]
fn empty_body_is_pending() {
    assert_eq!(response_check(""), Decision::Pending);
}

#[test]
fn non_json_body_is_pending() {
    assert_eq!(response_check("approved!"), Decision::Pending);
}

#[test]
fn wrong_shape_bodies_are_pending() {
    assert_eq!(response_check("[]"), Decision::Pending);
    assert_eq!(response_check("{}"), Decision::Pending);
    assert_eq!(response_check("{\"status_info\":{}}"), Decision::Pending);
    assert_eq!(response_check("{\"status_info\":{\"status_code\":\"200\"},\"data\":[]}"), Decision::Pending);
    assert_eq!(response_check("{\"status_info\":{\"status_code\":200}}"), Decision::Pending);
    assert_eq!(response_check("{\"status_info\":{\"status_code\":200},\"data\":{}}"), Decision::Pending);
}

#[test]
fn out_of_range_status_code_is_pending() {
    assert_eq!(response_check("{\"status_info\":{\"status_code\":70000},\"data\":[]}"), Decision::Pending);
    assert_eq!(response_check("{\"status_info\":{\"status_code\":-1},\"data\":[]}"), Decision::Pending);
}

#[test]
fn record_missing_field_is_pending() {
    let body = "{\"status_info\":{\"status_code\":200},\"data\":[{\"status\":\"complete\"}]}";
    assert_eq!(response_check(body), Decision::Pending);
}

#[test]
fn complete_approved_body_is_approved() {
    let body = "{\"status_info\":{\"status_code\":200},\"data\":[{\"status\":\"complete\",\"is_approved\":true}]}";
    assert_eq!(response_check(body), Decision::Approved);
}

#[test]
fn complete_rejected_body_is_canceled() {
    let body = "{\"status_info\":{\"status_code\":200},\"data\":[{\"status\":\"complete\",\"is_approved\":false}]}";
    assert_eq!(response_check(body), Decision::Canceled);
}

#[test]
fn empty_records_body_is_pending() {
    let body = "{\"status_info\":{\"status_code\":200},\"data\":[]}";
    assert_eq!(response_check(body), Decision::Pending);
}

#[test]
fn incomplete_first_record_is_pending() {
    let body = "{\"status_info\":{\"status_code\":200},\"data\":[{\"status\":\"in_progress\",\"is_approved\":true}]}";
    assert_eq!(response_check(body), Decision::Pending);
}

#[test]
fn service_level_unauthorized_is_auth_rejected() {
    let body = "{\"status_info\":{\"status_code\":401},\"data\":[]}";
    assert_eq!(response_check(body), Decision::AuthRejected);
}

#[test]
fn non_ok_service_status_is_pending() {
    let body = "{\"status_info\":{\"status_code\":500},\"data\":[{\"status\":\"complete\",\"is_approved\":true}]}";
    assert_eq!(response_check(body), Decision::Pending);
}

#[test]
fn only_first_record_is_consulted() {
    let body = "{\"status_info\":{\"status_code\":200},\"data\":[{\"status\":\"complete\",\"is_approved\":true},{\"status\":\"complete\",\"is_approved\":false}]}";
    assert_eq!(response_check(body), Decision::Approved);
}

#[test]
fn response_predicates_follow_the_fields() {
    let ok = response(200, vec![record("complete", true)]);
    assert!(ok.is_status_ok());
    assert!(!ok.is_unauthorized());
    assert!(!ok.is_nodata());
    assert!(ok.is_approved());
    assert_eq!(ok.decision(), Decision::Approved);

    let rejected = response(200, vec![record("complete", false)]);
    assert!(!rejected.is_nodata());
    assert!(!rejected.is_approved());
    assert_eq!(rejected.decision(), Decision::Canceled);

    let unauthorized = response(401, vec![]);
    assert!(unauthorized.is_unauthorized());
    assert_eq!(unauthorized.decision(), Decision::AuthRejected);

    let waiting = response(200, vec![record("in_progress", true)]);
    assert!(waiting.is_nodata());
    assert!(!waiting.is_approved());
    assert_eq!(waiting.decision(), Decision::Pending);

    let empty = response(200, vec![]);
    assert!(empty.is_nodata());
    assert_eq!(empty.decision(), Decision::Pending);
}

#[test]
fn zero_response_is_pending() {
    assert_eq!(Response::zero().decision(), Decision::Pending);
}

#[test]
fn actions_follow_decisions() {
    assert_eq!(action_for_decision(Decision::Approved), PollAction::WriteApprovedAndExit);
    assert_eq!(action_for_decision(Decision::Canceled), PollAction::WriteCanceledAndExit);
    assert_eq!(action_for_decision(Decision::Pending), PollAction::SleepAndRepoll { secs: 30 });
    assert_eq!(action_for_decision(Decision::AuthRejected), PollAction::FatalUnauthorized);
}

#[test]
fn transport_failure_sleeps_one_interval() {
    assert_eq!(poll_round(&QueryOutcome::Failed), PollAction::SleepAndRepoll { secs: 30 });
}

#[test]
fn http_unauthorized_starts_refresh() {
    let outcome = QueryOutcome::Completed { http_status: 401, body: String::new() };
    assert_eq!(poll_round(&outcome), PollAction::StartRefresh);
}

#[test]
fn approved_poll_writes_and_exits() {
    let body = "{\"status_info\":{\"status_code\":200},\"data\":[{\"status\":\"complete\",\"is_approved\":true}]}";
    let outcome = QueryOutcome::Completed { http_status: 200, body: body.to_string() };
    assert_eq!(poll_round(&outcome), PollAction::WriteApprovedAndExit);
}

#[test]
fn canceled_poll_writes_and_exits() {
    let body = "{\"status_info\":{\"status_code\":200},\"data\":[{\"status\":\"complete\",\"is_approved\":false}]}";
    let outcome = QueryOutcome::Completed { http_status: 200, body: body.to_string() };
    assert_eq!(poll_round(&outcome), PollAction::WriteCanceledAndExit);
}

#[test]
fn pending_poll_sleeps() {
    let body = "{\"status_info\":{\"status_code\":200},\"data\":[]}";
    let outcome = QueryOutcome::Completed { http_status: 200, body: body.to_string() };
    assert_eq!(poll_round(&outcome), PollAction::SleepAndRepoll { secs: 30 });
}

#[test]
fn service_rejection_in_ok_transport_is_fatal() {
    let body = "{\"status_info\":{\"status_code\":401},\"data\":[]}";
    let outcome = QueryOutcome::Completed { http_status: 200, body: body.to_string() };
    assert_eq!(poll_round(&outcome), PollAction::FatalUnauthorized);
}
