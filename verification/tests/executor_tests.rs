//! The authenticated-request executor: retry policy, request construction,
//! and response classification.

use libre_link_up_api_client::executor::{
    bearer_header_value, classify_response, hashed_account_id, request_url, status_is_success,
    to_hex_lower, ExecAction, ExecEvent, ExecPhase, RequestExecutor,
};
use libre_link_up_api_client::LibreLinkUpError;

#[test]
fn call_without_token_logs_in_once_before_the_get() {
    let mut exec = RequestExecutor::new();
    // no prior token: exactly one login precedes the GET
    let a1 = exec.start(false);
    assert_eq!(a1, ExecAction::Login);
    assert_eq!(exec.phase, ExecPhase::PreLogin);
    let a2 = exec.step(ExecEvent::LoginSucceeded);
    assert_eq!(a2, ExecAction::Get);
    let a3 = exec.step(ExecEvent::GetSucceeded);
    assert_eq!(a3, ExecAction::Succeed);
    assert_eq!(exec.phase, ExecPhase::Settled);
}

#[test]
fn call_with_token_gets_at_once() {
    let mut exec = RequestExecutor::new();
    let a1 = exec.start(true);
    assert_eq!(a1, ExecAction::Get);
    assert_eq!(exec.phase, ExecPhase::FirstAttempt);
    let a2 = exec.step(ExecEvent::GetSucceeded);
    assert_eq!(a2, ExecAction::Succeed);
}

#[test]
fn first_failure_forces_one_relogin_and_one_retry() {
    let mut exec = RequestExecutor::new();
    assert_eq!(exec.start(true), ExecAction::Get);
    let a = exec.step(ExecEvent::GetFailed(LibreLinkUpError::Http(String::from(
        "connection reset",
    ))));
    // the first failure is swallowed; a re-login follows
    assert_eq!(a, ExecAction::Login);
    assert_eq!(exec.phase, ExecPhase::ReLogin);
    let a = exec.step(ExecEvent::LoginSucceeded);
    assert_eq!(a, ExecAction::Get);
    assert_eq!(exec.phase, ExecPhase::SecondAttempt);
    let a = exec.step(ExecEvent::GetSucceeded);
    assert_eq!(a, ExecAction::Succeed);
}

#[test]
fn retry_failure_propagates_unchanged() {
    let mut exec = RequestExecutor::new();
    assert_eq!(exec.start(true), ExecAction::Get);
    exec.step(ExecEvent::GetFailed(LibreLinkUpError::Http(String::from(
        "first",
    ))));
    exec.step(ExecEvent::LoginSucceeded);
    let second = LibreLinkUpError::InvalidResponse(String::from("bad body"));
    let a = exec.step(ExecEvent::GetFailed(second.clone()));
    assert_eq!(a, ExecAction::Fail(second));
}

#[test]
fn relogin_failure_surfaces_the_login_error() {
    let mut exec = RequestExecutor::new();
    assert_eq!(exec.start(true), ExecAction::Get);
    exec.step(ExecEvent::GetFailed(LibreLinkUpError::Http(String::from(
        "expired",
    ))));
    let a = exec.step(ExecEvent::LoginFailed(LibreLinkUpError::BadCredentials));
    assert_eq!(a, ExecAction::Fail(LibreLinkUpError::BadCredentials));
}

#[test]
fn status_classification_bounds() {
    assert!(status_is_success(200));
    assert!(status_is_success(299));
    assert!(!status_is_success(199));
    assert!(!status_is_success(300));
    assert!(!status_is_success(404));
}

#[test]
fn successful_response_hands_the_body_on() {
    let r = classify_response("/llu/connections", 200, String::from("[]"));
    assert_eq!(r, Ok(String::from("[]")));
}

#[test]
fn failed_response_carries_path_status_and_body() {
    let r = classify_response("/llu/connections", 404, String::from("missing"));
    assert_eq!(
        r,
        Err(LibreLinkUpError::InvalidResponse(String::from(
            "request to '/llu/connections' failed - HTTP 404: missing"
        )))
    );
}

#[test]
fn hex_rendering_is_two_lowercase_digits_per_byte() {
    assert_eq!(to_hex_lower(&[]), "");
    assert_eq!(to_hex_lower(&[0xbe, 0xef]), "beef");
    assert_eq!(to_hex_lower(&[0x00, 0x0a, 0xff]), "000aff");
}

#[test]
fn account_id_is_hashed_not_sent_raw() {
    // SHA-256 of "abc", a fixed reference value
    assert_eq!(
        hashed_account_id("abc"),
        "ba7816bf8f01cfea414140de5dae2223b00361a396177a9cb410ff61f20015ad"
    );
    // 32 bytes, two hex digits each
    assert_eq!(hashed_account_id("").len(), 64);
}

#[test]
fn request_construction() {
    assert_eq!(bearer_header_value("tok"), "Bearer tok");
    assert_eq!(
        request_url("https://api.libreview.io", "/llu/connections"),
        "https://api.libreview.io/llu/connections"
    );
}
