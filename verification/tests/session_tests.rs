use jellyfin_client::ClientError;
use jellyfin_client::session::AuthEvent;
use jellyfin_client::session::Client;
use jellyfin_client::session::Credentials;
use jellyfin_client::session::LoginFields;
use jellyfin_client::session::LoginOutcome;
use jellyfin_client::session::SessionState;
use jellyfin_client::session::auth_transition;
use jellyfin_client::session::login_body;
use jellyfin_client::session::login_fields_from_body;

#[test]
fn construct_accepts_valid_credentials() {
    let body = r#"{"AccessToken":"tok-1","User":{"Id":"user-9"}}"#;
    let (c, err) = Client::construct(
        "http://srv",
        None,
        LoginOutcome::Http(200, body.to_string()),
    );
    assert_eq!(c.state, SessionState::Authenticated);
    assert_eq!(c.access_token, "tok-1");
    assert_eq!(c.user_id, "user-9");
    assert_eq!(c.base_url, "http://srv");
    assert!(err.is_none());
}

#[test]
fn construct_rejects_invalid_credentials() {
    let (c, err) = Client::construct(
        "http://srv",
        None,
        LoginOutcome::Http(401, "Unauthorized".to_string()),
    );
    assert_eq!(c.state, SessionState::AuthFailed);
    assert_eq!(c.access_token, "");
    assert_eq!(c.user_id, "");
    assert_eq!(err, Some(ClientError::AuthorizationFailure));
}

#[test]
fn construct_survives_transport_failure() {
    let (c, err) = Client::construct("http://srv", None, LoginOutcome::TransportFailure);
    assert_eq!(c.state, SessionState::AuthFailed);
    assert_eq!(c.access_token, "");
    assert_eq!(c.user_id, "");
    assert_eq!(err, Some(ClientError::TransportFailure));
}

#[test]
fn construct_rejects_malformed_body() {
    let (c, err) = Client::construct(
        "http://srv",
        None,
        LoginOutcome::Http(200, "{not json".to_string()),
    );
    assert_eq!(c.state, SessionState::AuthFailed);
    assert_eq!(c.access_token, "");
    assert_eq!(err, Some(ClientError::DeserializationFailure));
}

#[test]
fn construct_rejects_empty_token() {
    let body = r#"{"AccessToken":"","User":{"Id":"user-9"}}"#;
    let (c, err) = Client::construct(
        "http://srv",
        None,
        LoginOutcome::Http(200, body.to_string()),
    );
    assert_eq!(c.state, SessionState::AuthFailed);
    assert_eq!(c.access_token, "");
    assert_eq!(c.user_id, "");
    assert_eq!(err, Some(ClientError::DeserializationFailure));
}

#[test]
fn construct_rejects_missing_user_id() {
    let body = r#"{"AccessToken":"tok-1","User":{}}"#;
    let (c, err) = Client::construct(
        "http://srv",
        None,
        LoginOutcome::Http(200, body.to_string()),
    );
    assert_eq!(c.state, SessionState::AuthFailed);
    assert_eq!(err, Some(ClientError::DeserializationFailure));
}

#[test]
fn from_login_accepts_parsed_identity() {
    let fields = LoginFields {
        access_token: "abc".to_string(),
        user_id: "u1".to_string(),
    };
    let c = Client::from_login("http://h", None, 204, Some(fields));
    assert_eq!(c.state, SessionState::Authenticated);
    assert_eq!(c.access_token, "abc");
    assert_eq!(c.user_id, "u1");
}

#[test]
fn from_login_fails_without_identity() {
    let c = Client::from_login("http://h", None, 200, None);
    assert_eq!(c.state, SessionState::AuthFailed);
    assert_eq!(c.access_token, "");
    assert_eq!(c.user_id, "");
}

#[test]
fn login_fields_parsed_from_response_body() {
    let body = r#"{"AccessToken":"t9","User":{"Id":"id7","Name":"x"}}"#;
    let f = login_fields_from_body(body).unwrap();
    assert_eq!(f.access_token, "t9");
    assert_eq!(f.user_id, "id7");
}

#[test]
fn login_fields_missing_token_is_none() {
    let body = r#"{"User":{"Id":"id7"}}"#;
    assert!(login_fields_from_body(body).is_none());
}

#[test]
fn login_body_carries_username_and_pw() {
    let creds = Credentials {
        username: "alice".to_string(),
        password: "secret".to_string(),
    };
    let body = login_body(&creds).unwrap();
    let v: serde_json::Value = serde_json::from_str(&body).unwrap();
    assert_eq!(v.get("Username").unwrap().as_str().unwrap(), "alice");
    assert_eq!(v.get("Pw").unwrap().as_str().unwrap(), "secret");
}

#[test]
fn auth_machine_one_attempt_succeeds() {
    let s = auth_transition(SessionState::Unauthenticated, AuthEvent::Start);
    assert_eq!(s, SessionState::Authenticating);
    let s = auth_transition(s, AuthEvent::Succeed);
    assert_eq!(s, SessionState::Authenticated);
}

#[test]
fn auth_machine_one_attempt_fails() {
    let s = auth_transition(SessionState::Unauthenticated, AuthEvent::Start);
    let s = auth_transition(s, AuthEvent::Fail);
    assert_eq!(s, SessionState::AuthFailed);
}

#[test]
fn auth_machine_terminal_states_absorb() {
    for e in [AuthEvent::Start, AuthEvent::Succeed, AuthEvent::Fail] {
        assert_eq!(auth_transition(SessionState::Authenticated, e), SessionState::Authenticated);
        assert_eq!(auth_transition(SessionState::AuthFailed, e), SessionState::AuthFailed);
    }
}
