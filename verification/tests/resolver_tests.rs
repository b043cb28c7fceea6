//! Connection resolution policy, configuration validation, and endpoint
//! paths.

use libre_link_up_api_client::client::{
    connections_path, country_config_request_url, country_config_url, effective_api_version,
    ensure_connection_id, get_connection_id, graph_path, logbook_path, login_path,
    notification_settings_path, ConnectionDescriptor, ConnectionIdentifier,
};
use libre_link_up_api_client::{ClientConfig, LibreLinkUpError, Region, SessionState};

fn descriptor(id: &str, first: &str, last: &str) -> ConnectionDescriptor {
    ConnectionDescriptor {
        patient_id: String::from(id),
        first_name: String::from(first),
        last_name: String::from(last),
    }
}

fn sample_list() -> Vec<ConnectionDescriptor> {
    vec![
        descriptor("a", "John", "Doe"),
        descriptor("b", "Jane", "Roe"),
    ]
}

#[test]
fn by_name_matches_case_insensitively() {
    let by_name = Some(ConnectionIdentifier::ByName(String::from("jane roe")));
    let r = get_connection_id(&by_name, &sample_list(), None);
    assert_eq!(r, Ok(String::from("b")));
}

#[test]
fn by_name_without_match_reports_the_name() {
    let by_name = Some(ConnectionIdentifier::ByName(String::from("nobody")));
    let r = get_connection_id(&by_name, &sample_list(), None);
    assert_eq!(
        r,
        Err(LibreLinkUpError::ConnectionNotFound(String::from("nobody")))
    );
}

#[test]
fn empty_list_is_no_connections_regardless_of_policy() {
    let empty: Vec<ConnectionDescriptor> = Vec::new();
    let by_name = Some(ConnectionIdentifier::ByName(String::from("jane roe")));
    let by_function = Some(ConnectionIdentifier::ByFunction);
    let none: Option<ConnectionIdentifier> = None;
    assert_eq!(
        get_connection_id(&by_name, &empty, None),
        Err(LibreLinkUpError::NoConnections)
    );
    assert_eq!(
        get_connection_id(&by_function, &empty, Some(String::from("x"))),
        Err(LibreLinkUpError::NoConnections)
    );
    assert_eq!(
        get_connection_id(&none, &empty, None),
        Err(LibreLinkUpError::NoConnections)
    );
}

#[test]
fn default_policy_takes_the_first_descriptor() {
    let r = get_connection_id(&None, &sample_list(), None);
    assert_eq!(r, Ok(String::from("a")));
}

#[test]
fn by_function_takes_the_functions_pick() {
    let by_function = Some(ConnectionIdentifier::ByFunction);
    assert_eq!(
        get_connection_id(&by_function, &sample_list(), Some(String::from("b"))),
        Ok(String::from("b"))
    );
    assert_eq!(
        get_connection_id(&by_function, &sample_list(), None),
        Err(LibreLinkUpError::ConnectionFunctionFailed)
    );
}

#[test]
fn resolution_is_cached_for_the_session() {
    let mut session = SessionState::new(Region::Global);
    let by_name = Some(ConnectionIdentifier::ByName(String::from("JANE ROE")));
    let r = ensure_connection_id(&mut session, &by_name, &sample_list(), None);
    assert_eq!(r, Ok(String::from("b")));
    assert_eq!(session.connection_id, Some(String::from("b")));
    // a cached identity wins, whatever the list now says
    let other = vec![descriptor("z", "Zoe", "Zed")];
    let r2 = ensure_connection_id(&mut session, &None, &other, None);
    assert_eq!(r2, Ok(String::from("b")));
    assert_eq!(session.connection_id, Some(String::from("b")));
}

#[test]
fn resolution_failure_caches_nothing() {
    let mut session = SessionState::new(Region::Global);
    let by_name = Some(ConnectionIdentifier::ByName(String::from("nobody")));
    let r = ensure_connection_id(&mut session, &by_name, &sample_list(), None);
    assert_eq!(
        r,
        Err(LibreLinkUpError::ConnectionNotFound(String::from("nobody")))
    );
    assert!(session.connection_id.is_none());
}

#[test]
fn endpoint_paths() {
    assert_eq!(login_path(), "/llu/auth/login");
    assert_eq!(connections_path(), "/llu/connections");
    assert_eq!(graph_path("p-1"), "/llu/connections/p-1/graph");
    assert_eq!(logbook_path("p-1"), "/llu/connections/p-1/logbook");
    assert_eq!(
        notification_settings_path("c-1"),
        "/llu/notifications/settings/c-1"
    );
    assert_eq!(
        country_config_url("us", "4.16.0"),
        "https://api.libreview.io/llu/config/country?country=us&version=4.16.0"
    );
}

#[test]
fn country_config_version_defaulting() {
    let own = Some(String::from("4.20.0"));
    assert_eq!(
        country_config_request_url("de", Some("9.9.9"), &own),
        "https://api.libreview.io/llu/config/country?country=de&version=9.9.9"
    );
    assert_eq!(
        country_config_request_url("de", None, &own),
        "https://api.libreview.io/llu/config/country?country=de&version=4.20.0"
    );
    assert_eq!(
        country_config_request_url("de", None, &None),
        "https://api.libreview.io/llu/config/country?country=de&version=4.16.0"
    );
    assert_eq!(effective_api_version(&None), "4.16.0");
}

#[test]
fn blank_credentials_are_rejected() {
    let config = ClientConfig {
        username: String::from("   "),
        password: String::from("pw"),
        api_version: None,
        region: None,
        connection_identifier: None,
    };
    assert_eq!(
        config.initial_session(),
        Err(LibreLinkUpError::AuthFailed(String::from(
            "username must not be empty"
        )))
    );
    let config = ClientConfig {
        username: String::from("ada@example.com"),
        password: String::new(),
        api_version: None,
        region: None,
        connection_identifier: None,
    };
    assert_eq!(
        config.initial_session(),
        Err(LibreLinkUpError::AuthFailed(String::from(
            "password must not be empty"
        )))
    );
}

#[test]
fn initial_session_starts_against_the_configured_region() {
    let config = ClientConfig {
        username: String::from("ada@example.com"),
        password: String::from("pw"),
        api_version: None,
        region: Some(Region::EU),
        connection_identifier: None,
    };
    let session = config.initial_session().unwrap();
    assert_eq!(session.base_address, Region::EU.base_url());
    assert!(session.token.is_none());
    assert!(session.account_id.is_none());
    assert!(session.connection_id.is_none());
}

#[test]
fn simple_config_parses_the_region_code() {
    let c = ClientConfig::simple(
        String::from("ada@example.com"),
        String::from("pw"),
        Some(String::from("US")),
    )
    .unwrap();
    assert_eq!(c.region, Some(Region::US));
    assert!(c.api_version.is_none());
    let c = ClientConfig::simple(
        String::from("ada@example.com"),
        String::from("pw"),
        Some(String::from("nowhere")),
    )
    .unwrap();
    assert_eq!(c.region, Some(Region::Global));
    let c = ClientConfig::simple(String::from("ada@example.com"), String::from("pw"), None)
        .unwrap();
    assert_eq!(c.region, Some(Region::Global));
    let r = ClientConfig::simple(String::from(" "), String::from("pw"), None);
    assert!(matches!(r, Err(LibreLinkUpError::AuthFailed(_))));
}
