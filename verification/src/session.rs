//! The session and its authentication state machine.
//!
//! A session is constructed once, with a single authentication attempt:
//! `Unauthenticated -> Authenticating -> { Authenticated, AuthFailed }`.
//! Both outcomes are terminal; there is no retry and no re-authentication.
//! A failed attempt still yields a usable session value — with empty token
//! and user id — rather than aborting construction.

use vstd::prelude::*;
use vstd::string::StringExecFns;
use crate::ClientError;
use crate::spec_is_success;
use crate::is_success;
use crate::json::json_object;
use crate::json::json_string;
use crate::json::json_to_string;
use crate::json::raw_text_at;
use crate::json::string_at;
use crate::json::text_raw_field;
use crate::json::text_string_field;

verus! {

/// The username/password pair handed in by the credential source.
#[derive(Clone, Debug)]
pub struct Credentials {
    pub username: String,
    pub password: String,
}

/// Identity of a reachable server, as reported by it.
#[derive(Clone, Debug)]
pub struct ServerInfo {
    pub version: String,
    pub url: String,
}

/// Phases of the authentication attempt. `Authenticated` and `AuthFailed`
/// are terminal.
#[derive(Clone, Copy, Debug, PartialEq, Eq, Structural)]
pub enum SessionState {
    Unauthenticated,
    Authenticating,
    Authenticated,
    AuthFailed,
}

/// Events driving the authentication attempt: the attempt starts, or it
/// resolves one way or the other.
#[derive(Clone, Copy, Debug, PartialEq, Eq, Structural)]
pub enum AuthEvent {
    Start,
    Succeed,
    Fail,
}

/// The transition relation of the authentication state machine. Terminal
/// states ignore every event; resolution events are only meaningful while
/// an attempt is in flight.
pub open spec fn spec_auth_transition(s: SessionState, e: AuthEvent) -> SessionState {
    match s {
        SessionState::Unauthenticated => match e {
            AuthEvent::Start => SessionState::Authenticating,
            _ => SessionState::Unauthenticated,
        },
        SessionState::Authenticating => match e {
            AuthEvent::Start => SessionState::Authenticating,
            AuthEvent::Succeed => SessionState::Authenticated,
            AuthEvent::Fail => SessionState::AuthFailed,
        },
        SessionState::Authenticated => SessionState::Authenticated,
        SessionState::AuthFailed => SessionState::AuthFailed,
    }
}

/// Executable copy of the transition relation.
pub fn auth_transition(s: SessionState, e: AuthEvent) -> (r: SessionState)
    ensures
        r == spec_auth_transition(s, e),
{
    match s {
        SessionState::Unauthenticated => match e {
            AuthEvent::Start => SessionState::Authenticating,
            _ => SessionState::Unauthenticated,
        },
        SessionState::Authenticating => match e {
            AuthEvent::Start => SessionState::Authenticating,
            AuthEvent::Succeed => SessionState::Authenticated,
            AuthEvent::Fail => SessionState::AuthFailed,
        },
        SessionState::Authenticated => SessionState::Authenticated,
        SessionState::AuthFailed => SessionState::AuthFailed,
    }
}

/// Once an attempt has resolved, no event moves the session again: there
/// is no automatic retry and no re-authentication. A new session must be
/// constructed to authenticate again.
pub proof fn lemma_terminal_states_absorb(s: SessionState, e: AuthEvent)
    requires
        s is Authenticated || s is AuthFailed,
    ensures
        spec_auth_transition(s, e) == s,
{
}

/// Every run of the machine from `Unauthenticated` ends, after one `Start`
/// and one resolution event, in a terminal state.
pub proof fn lemma_one_attempt_resolves(resolution: AuthEvent)
    requires
        resolution is Succeed || resolution is Fail,
    ensures
        ({
            let end = spec_auth_transition(
                spec_auth_transition(SessionState::Unauthenticated, AuthEvent::Start),
                resolution,
            );
            end is Authenticated || end is AuthFailed
        }),
{
}

/// What the login round trip came back with: nothing at all (a transport
/// failure), or an HTTP status together with the response body.
pub enum LoginOutcome {
    TransportFailure,
    Http(u16, String),
}

/// An authenticated identity parsed out of a login response body.
#[derive(Clone, Debug)]
pub struct LoginFields {
    pub access_token: String,
    pub user_id: String,
}

/// Whether a login attempt is accepted: the server answered 2xx and the
/// body yielded a non-empty access token and a non-empty user id.
pub open spec fn spec_login_ok(status: u16, fields: Option<LoginFields>) -> bool {
    &&& spec_is_success(status)
    &&& fields matches Some(f) && f.access_token@.len() > 0 && f.user_id@.len() > 0
}

/// The identity a login response body yields: the string under
/// `AccessToken`, and the string under `Id` of the `User` object —
/// `None` when any of them is missing. Stated over the named
/// extractions, so it is a function of the body text alone.
pub open spec fn spec_login_fields_of(body: Seq<char>) -> Option<(Seq<char>, Seq<char>)> {
    match string_at(body, "AccessToken"@) {
        Some(token) => match raw_text_at(body, "User"@) {
            Some(user) => match string_at(user, "Id"@) {
                Some(id) => Some((token, id)),
                None => None,
            },
            None => None,
        },
        None => None,
    }
}

/// `spec_login_ok`, stated over the extracted views instead of the
/// carried record.
pub open spec fn spec_login_view_ok(status: u16, of: Option<(Seq<char>, Seq<char>)>) -> bool {
    &&& spec_is_success(status)
    &&& of matches Some(p) && p.0.len() > 0 && p.1.len() > 0
}

/// The session: base URL, the credentials it was built from, and the
/// authenticated identity. Constructed once; immutable afterwards.
#[derive(Clone, Debug)]
pub struct Client {
    pub base_url: String,
    pub credentials: Option<Credentials>,
    pub access_token: String,
    pub user_id: String,
    pub state: SessionState,
}

impl Client {
    /// No partial identity: the token and the user id are either both
    /// empty (a failed attempt) or both non-empty (an authenticated one),
    /// the state records exactly which, and a constructed session is
    /// always in a terminal state.
    pub open spec fn wf(self) -> bool {
        &&& self.access_token@.len() > 0 <==> self.user_id@.len() > 0
        &&& self.state is Authenticated <==> self.access_token@.len() > 0
        &&& self.state is Authenticated || self.state is AuthFailed
    }

    /// Builds the session from the parsed outcome of the one login round
    /// trip. Acceptance is exactly `spec_login_ok`; everything else —
    /// non-2xx, malformed body, empty token or user id — yields the
    /// failed session with both identity fields empty.
    pub fn from_login(
        base_url: &str,
        credentials: Option<Credentials>,
        status: u16,
        fields: Option<LoginFields>,
    ) -> (c: Client)
        ensures
            c.wf(),
            c.base_url@ == base_url@,
            c.state is Authenticated <==> spec_login_ok(status, fields),
            spec_login_ok(status, fields) ==> {
                &&& fields matches Some(f)
                &&& c.access_token@ == f.access_token@
                &&& c.user_id@ == f.user_id@
            },
            !spec_login_ok(status, fields) ==> {
                &&& c.state is AuthFailed
                &&& c.access_token@ == Seq::<char>::empty()
                &&& c.user_id@ == Seq::<char>::empty()
            },
            c.state == spec_auth_transition(
                spec_auth_transition(SessionState::Unauthenticated, AuthEvent::Start),
                if spec_login_ok(status, fields) {
                    AuthEvent::Succeed
                } else {
                    AuthEvent::Fail
                },
            ),
    {
        match fields {
            Some(f) => {
                if is_success(status) && !f.access_token.as_str().is_empty()
                    && !f.user_id.as_str().is_empty() {
                    Client {
                        base_url: String::from_str(base_url),
                        credentials,
                        access_token: f.access_token,
                        user_id: f.user_id,
                        state: SessionState::Authenticated,
                    }
                } else {
                    Client {
                        base_url: String::from_str(base_url),
                        credentials,
                        access_token: String::new(),
                        user_id: String::new(),
                        state: SessionState::AuthFailed,
                    }
                }
            },
            None => Client {
                base_url: String::from_str(base_url),
                credentials,
                access_token: String::new(),
                user_id: String::new(),
                state: SessionState::AuthFailed,
            },
        }
    }

    /// One authentication attempt from the raw outcome of the login round
    /// trip. Always yields a session — never aborts — and reports what
    /// went wrong beside it: a transport failure when the wire gave
    /// nothing back, an authorization failure on a non-2xx answer, a
    /// deserialization failure when a 2xx body yielded no identity. On a
    /// 2xx answer, acceptance and the carried identity are pinned to the
    /// body's named extraction: the session is authenticated exactly
    /// when the body yields a non-empty token and user id, and then
    /// carries exactly them.
    pub fn construct(
        base_url: &str,
        credentials: Option<Credentials>,
        outcome: LoginOutcome,
    ) -> (r: (Client, Option<ClientError>))
        ensures
            r.0.wf(),
            r.0.base_url@ == base_url@,
            r.0.state is Authenticated <==> r.1 is None,
            outcome is TransportFailure ==> r.0.state is AuthFailed && r.1 == Some(
                ClientError::TransportFailure,
            ),
            (outcome matches LoginOutcome::Http(status, _) && !spec_is_success(status))
                ==> r.0.state is AuthFailed && r.1 == Some(ClientError::AuthorizationFailure),
            r.0.state is Authenticated ==> (outcome matches LoginOutcome::Http(status, _)
                && spec_is_success(status)),
            r.1 == Some(ClientError::DeserializationFailure) ==> (outcome matches
                LoginOutcome::Http(status, _) && spec_is_success(status)),
            outcome matches LoginOutcome::Http(status, body) ==> (spec_is_success(status) ==> {
                &&& r.0.state is Authenticated <==> spec_login_view_ok(
                    status,
                    spec_login_fields_of(body@),
                )
                &&& spec_login_view_ok(status, spec_login_fields_of(body@)) ==> (
                spec_login_fields_of(body@) matches Some(p) && r.0.access_token@ == p.0
                    && r.0.user_id@ == p.1)
            }),
    {
        match outcome {
            LoginOutcome::TransportFailure => {
                let c = Client::from_login(base_url, credentials, 0, None);
                (c, Some(ClientError::TransportFailure))
            },
            LoginOutcome::Http(status, body) => {
                if !is_success(status) {
                    let c = Client::from_login(base_url, credentials, status, None);
                    (c, Some(ClientError::AuthorizationFailure))
                } else {
                    let fields = login_fields_from_body(body.as_str());
                    let c = Client::from_login(base_url, credentials, status, fields);
                    match c.state {
                        SessionState::Authenticated => (c, None),
                        _ => (c, Some(ClientError::DeserializationFailure)),
                    }
                }
            },
        }
    }
}

/// Pulls the access token (`AccessToken`) and the user id (`User.Id`)
/// out of a login response body: exactly the identity that
/// `spec_login_fields_of` names, succeeding exactly when the body
/// yields one.
pub fn login_fields_from_body(body: &str) -> (r: Option<LoginFields>)
    ensures
        r matches Some(f) ==> spec_login_fields_of(body@) == Some(
            (f.access_token@, f.user_id@),
        ),
        r is None ==> spec_login_fields_of(body@) is None,
{
    let token = match text_string_field(body, "AccessToken") {
        Some(x) => x,
        None => { return None; },
    };
    let user = match text_raw_field(body, "User") {
        Some(x) => x,
        None => { return None; },
    };
    let id = match text_string_field(user.as_str(), "Id") {
        Some(x) => x,
        None => { return None; },
    };
    Some(LoginFields { access_token: token, user_id: id })
}

/// Renders the JSON body of the login call and certifies it: a returned
/// body carries the username under `Username` and the password under
/// `Pw`, exactly.
pub fn login_body(credentials: &Credentials) -> (r: Option<String>)
    ensures
        r matches Some(s) ==> {
            &&& string_at(s@, "Username"@) == Some(credentials.username@)
            &&& string_at(s@, "Pw"@) == Some(credentials.password@)
        },
{
    let mut pairs: Vec<(String, serde_json::Value)> = Vec::new();
    pairs.push((String::from_str("Username"), json_string(credentials.username.clone())));
    pairs.push((String::from_str("Pw"), json_string(credentials.password.clone())));
    let body = json_object(pairs);
    let rendered = match json_to_string(&body) {
        Some(x) => x,
        None => { return None; },
    };
    let username = match text_string_field(rendered.as_str(), "Username") {
        Some(x) => x,
        None => { return None; },
    };
    let password = match text_string_field(rendered.as_str(), "Pw") {
        Some(x) => x,
        None => { return None; },
    };
    if username == credentials.username && password == credentials.password {
        Some(rendered)
    } else {
        None
    }
}

} // verus!
