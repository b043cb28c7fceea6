//! Login classification and the authenticator's session updates.

use libre_link_up_api_client::auth::{
    check_login_http, classify_login, Authenticator, LoginOutcome, LoginProgress,
    MAX_REDIRECT_HOPS,
};
use libre_link_up_api_client::models::common::AuthTicket;
use libre_link_up_api_client::models::login::{
    Consents, Data, DataMessages, Details, Llu, LockedData, LockoutInfo, LoginRedirectData,
    LoginResponse, LoginResponseData, Notifications, Step, StepData, StepProps, StepUser, System,
    SystemMessages, User,
};
use libre_link_up_api_client::{LibreLinkUpError, Region, SessionState};

fn minimal_user(id: &str) -> User {
    User {
        id: String::from(id),
        first_name: String::from("Ada"),
        last_name: String::from("Lovelace"),
        email: String::from("ada@example.com"),
        country: String::from("DE"),
        ui_language: String::from("en-US"),
        communication_language: String::from("en-US"),
        account_type: String::from("pat"),
        uom: String::from("1"),
        date_format: String::from("1"),
        time_format: String::from("1"),
        email_day: vec![1],
        system: System {
            messages: SystemMessages {
                first_use_phoenix: None,
                first_use_phoenix_reports_data_merged: None,
                llu_getting_started_banner: None,
                llu_new_feature_modal: None,
                llu_onboarding: None,
                lv_web_post_release: None,
                app_review_banner: None,
                streaming_tour_mandatory: None,
            },
        },
        details: Details {},
        two_factor: None,
        created: 0,
        last_login: 0,
        programs: Details {},
        date_of_birth: 0,
        practices: Details {},
        devices: Details {},
        consents: Consents {
            llu: Llu {
                policy_accept: 0,
                tou_accept: 0,
            },
        },
    }
}

fn complete_response(token: &str, account_id: &str) -> LoginResponse {
    LoginResponse {
        status: 0,
        data: LoginResponseData::Complete(Box::new(Data {
            user: minimal_user(account_id),
            messages: DataMessages { unread: 0 },
            notifications: Notifications { unresolved: 0 },
            auth_ticket: AuthTicket {
                token: String::from(token),
                expires: 0,
                duration: 0,
            },
            invitations: None,
            trusted_device_token: String::new(),
        })),
    }
}

fn redirect_response(redirect: bool, region: &str) -> LoginResponse {
    LoginResponse {
        status: 0,
        data: LoginResponseData::Redirect(LoginRedirectData {
            redirect,
            region: String::from(region),
        }),
    }
}

fn locked_response(lockout: i32) -> LoginResponse {
    LoginResponse {
        status: 0,
        data: LoginResponseData::Locked(LockedData {
            code: 430,
            data: LockoutInfo {
                failures: 3,
                interval: 60,
                lockout,
            },
            message: String::from("locked"),
        }),
    }
}

fn step_response(status: i32, component: &str) -> LoginResponse {
    LoginResponse {
        status,
        data: LoginResponseData::Step(StepData {
            step: Step {
                step_type: String::from("verify"),
                component_name: String::from(component),
                props: StepProps {
                    email: String::from("ada@example.com"),
                },
            },
            user: StepUser {
                id: String::from("u-1"),
                account_type: String::from("pat"),
                country: String::from("DE"),
                ui_language: String::from("en-US"),
            },
            auth_ticket: AuthTicket {
                token: String::new(),
                expires: 0,
                duration: 0,
            },
        }),
    }
}

#[test]
fn classify_lockout_has_highest_priority() {
    // even with a status that would otherwise mean bad credentials
    let mut resp = locked_response(300);
    resp.status = 2;
    assert_eq!(classify_login(&resp), Some(LoginOutcome::Locked(300)));
}

#[test]
fn classify_status_two_is_bad_credentials() {
    let resp = redirect_response(true, "us");
    let resp = LoginResponse {
        status: 2,
        data: resp.data,
    };
    assert_eq!(classify_login(&resp), Some(LoginOutcome::BadCredentials));
}

#[test]
fn classify_status_four_names_the_step_component() {
    let resp = step_response(4, "emailVerification");
    assert_eq!(
        classify_login(&resp),
        Some(LoginOutcome::AdditionalActionRequired(String::from(
            "emailVerification"
        )))
    );
}

#[test]
fn classify_status_four_without_step_shape_is_unknown() {
    let mut resp = redirect_response(true, "us");
    resp.status = 4;
    assert_eq!(
        classify_login(&resp),
        Some(LoginOutcome::AdditionalActionRequired(String::from(
            "unknown"
        )))
    );
}

#[test]
fn classify_redirect_flag_decides() {
    assert_eq!(
        classify_login(&redirect_response(true, "eu")),
        Some(LoginOutcome::Redirect(String::from("eu")))
    );
    assert_eq!(classify_login(&redirect_response(false, "eu")), None);
}

#[test]
fn classify_complete_extracts_token_and_account() {
    assert_eq!(
        classify_login(&complete_response("tok-1", "acc-1")),
        Some(LoginOutcome::Complete(
            String::from("tok-1"),
            String::from("acc-1")
        ))
    );
}

#[test]
fn lockout_of_300_is_fatal_and_leaves_session_unmodified() {
    let mut session = SessionState::new(Region::Global);
    let before = session.clone();
    let mut auth = Authenticator::new();
    let r = auth.handle_response(&mut session, &locked_response(300));
    assert_eq!(r, Err(LibreLinkUpError::AccountLocked(300)));
    assert_eq!(session, before);
    assert!(session.token.is_none());
    assert!(session.account_id.is_none());
}

#[test]
fn bad_credentials_is_fatal_and_leaves_session_unmodified() {
    let mut session = SessionState::new(Region::Global);
    let before = session.clone();
    let mut auth = Authenticator::new();
    let mut resp = redirect_response(false, "");
    resp.status = 2;
    let r = auth.handle_response(&mut session, &resp);
    assert_eq!(r, Err(LibreLinkUpError::BadCredentials));
    assert_eq!(session, before);
}

#[test]
fn additional_action_is_fatal_and_leaves_session_unmodified() {
    let mut session = SessionState::new(Region::Global);
    let before = session.clone();
    let mut auth = Authenticator::new();
    let r = auth.handle_response(&mut session, &step_response(4, "mfa"));
    assert_eq!(
        r,
        Err(LibreLinkUpError::AdditionalActionRequired(String::from(
            "mfa"
        )))
    );
    assert_eq!(session, before);
}

#[test]
fn redirect_moves_base_address_and_asks_for_second_attempt() {
    let mut session = SessionState::new(Region::Global);
    let mut auth = Authenticator::new();
    let r = auth.handle_response(&mut session, &redirect_response(true, "us"));
    assert_eq!(r, Ok(LoginProgress::Retry));
    assert_eq!(session.base_address, Region::US.base_url());
    assert!(session.token.is_none());
    assert_eq!(auth.hops_left, MAX_REDIRECT_HOPS - 1);
}

#[test]
fn redirect_to_unknown_region_falls_back_to_global_address() {
    let mut session = SessionState::new(Region::EU);
    let mut auth = Authenticator::new();
    let r = auth.handle_response(&mut session, &redirect_response(true, "atlantis"));
    assert_eq!(r, Ok(LoginProgress::Retry));
    assert_eq!(session.base_address, Region::Global.base_url());
}

#[test]
fn redirects_past_the_hop_budget_are_refused() {
    let mut session = SessionState::new(Region::Global);
    let mut auth = Authenticator::new();
    let resp = redirect_response(true, "us");
    for _ in 0..MAX_REDIRECT_HOPS {
        assert_eq!(
            auth.handle_response(&mut session, &resp),
            Ok(LoginProgress::Retry)
        );
    }
    let r = auth.handle_response(&mut session, &resp);
    assert!(matches!(r, Err(LibreLinkUpError::InvalidResponse(_))));
}

#[test]
fn complete_login_commits_token_and_account_together() {
    let mut session = SessionState::new(Region::Global);
    let mut auth = Authenticator::new();
    let r = auth.handle_response(&mut session, &complete_response("tok-9", "acc-9"));
    assert_eq!(r, Ok(LoginProgress::Done));
    assert_eq!(session.token, Some(String::from("tok-9")));
    assert_eq!(session.account_id, Some(String::from("acc-9")));
    assert_eq!(session.base_address, Region::Global.base_url());
    assert!(session.connection_id.is_none());
}

#[test]
fn redirect_with_flag_off_settles_without_changes() {
    let mut session = SessionState::new(Region::Global);
    let before = session.clone();
    let mut auth = Authenticator::new();
    let r = auth.handle_response(&mut session, &redirect_response(false, "us"));
    assert_eq!(r, Ok(LoginProgress::Done));
    assert_eq!(session, before);
}

#[test]
fn login_http_failure_carries_status_and_body() {
    let r = check_login_http(500, String::from("oops"));
    assert_eq!(
        r,
        Err(LibreLinkUpError::InvalidResponse(String::from(
            "Login failed - HTTP 500: oops"
        )))
    );
    let ok = check_login_http(200, String::from("{}"));
    assert_eq!(ok, Ok(String::from("{}")));
}
