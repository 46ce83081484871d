use bisky::atproto::{Client, ClientBuilder, Jwt, UserSession};
use bisky::errors::BiskyError;
use bisky::transport::{
    finish_no_response, login_request, FlowAction, FlowPhase, HttpMethod, HttpOutcome,
    RequestBody, XrpcRequest,
};

fn client_with_session() -> Client {
    let mut builder = ClientBuilder::new();
    builder.service("https://pds.example".to_string());
    builder.session(Some(UserSession {
        did: "did:plc:alice".to_string(),
        handle: "alice.example".to_string(),
        jwt: Jwt { access: "old-access".to_string(), refresh: "old-refresh".to_string() },
    }));
    builder.build()
}

fn list_request() -> XrpcRequest {
    XrpcRequest {
        method: HttpMethod::Get,
        path: "com.atproto.repo.listRecords".to_string(),
        query: vec![("repo".to_string(), "did:plc:alice".to_string())],
        body: RequestBody::NoBody,
    }
}

fn expired_token_body() -> Vec<u8> {
    b"{\"error\":\"ExpiredToken\",\"message\":\"Token has expired\"}".to_vec()
}

fn session_body() -> Vec<u8> {
    b"{\"did\":\"did:plc:alice\",\"handle\":\"alice.example\",\"accessJwt\":\"new-access\",\"refreshJwt\":\"new-refresh\"}"
        .to_vec()
}

#[test]
fn start_without_session_fails_before_any_network() {
    let client = ClientBuilder::new().build();
    match client.xrpc_start(list_request()) {
        Err(BiskyError::MissingSession) => (),
        _ => panic!("expected MissingSession"),
    }
}

#[test]
fn start_attaches_access_token() {
    let client = client_with_session();
    let (flow, http) = client.xrpc_start(list_request()).unwrap();
    assert!(matches!(flow.phase, FlowPhase::FirstAttempt));
    assert_eq!(http.bearer.as_deref(), Some("old-access"));
    assert_eq!(http.service, "https://pds.example");
    assert_eq!(http.path, "xrpc/com.atproto.repo.listRecords");
    assert_eq!(http.query, vec![("repo".to_string(), "did:plc:alice".to_string())]);
}

#[test]
fn expired_token_refreshes_once_and_retries() {
    // Scenario: 400 ExpiredToken, refresh succeeds, the retried call
    // succeeds; the result equals what a non-expired call returns.
    let mut client = client_with_session();
    let (mut flow, _first) = client.xrpc_start(list_request()).unwrap();

    let action = client.xrpc_step(
        &mut flow,
        HttpOutcome::Response { status: 400, body: expired_token_body() },
    );
    let refresh_http = match action {
        FlowAction::SendRefresh(h) => h,
        _ => panic!("expected a refresh request"),
    };
    assert_eq!(refresh_http.bearer.as_deref(), Some("old-refresh"));
    assert_eq!(refresh_http.path, "xrpc/com.atproto.server.refreshSession");
    assert!(matches!(refresh_http.method, HttpMethod::Post));

    let action = client.xrpc_step(
        &mut flow,
        HttpOutcome::Response { status: 200, body: session_body() },
    );
    let retry_http = match action {
        FlowAction::SendRetry(h) => h,
        _ => panic!("expected the retried request"),
    };
    assert_eq!(retry_http.bearer.as_deref(), Some("new-access"));
    assert_eq!(retry_http.path, "xrpc/com.atproto.repo.listRecords");
    assert_eq!(retry_http.query, vec![("repo".to_string(), "did:plc:alice".to_string())]);
    let session = client.session.clone().unwrap();
    assert_eq!(session.jwt.access, "new-access");
    assert_eq!(session.jwt.refresh, "new-refresh");

    let action = client.xrpc_step(
        &mut flow,
        HttpOutcome::Response { status: 200, body: b"{\"records\":[]}".to_vec() },
    );
    match action {
        FlowAction::Succeed(body) => assert_eq!(body, b"{\"records\":[]}".to_vec()),
        _ => panic!("expected success"),
    }
    assert!(matches!(flow.phase, FlowPhase::Complete));
}

#[test]
fn second_expired_token_is_not_retried_again() {
    // The bounded retry invariant: an ExpiredToken answer to the
    // retried call surfaces as a plain API error, with no second
    // refresh.
    let mut client = client_with_session();
    let (mut flow, _first) = client.xrpc_start(list_request()).unwrap();
    let _ = client.xrpc_step(
        &mut flow,
        HttpOutcome::Response { status: 400, body: expired_token_body() },
    );
    let _ = client.xrpc_step(
        &mut flow,
        HttpOutcome::Response { status: 200, body: session_body() },
    );
    let action = client.xrpc_step(
        &mut flow,
        HttpOutcome::Response { status: 400, body: expired_token_body() },
    );
    match action {
        FlowAction::Fail(BiskyError::ApiError(e)) => {
            assert_eq!(e.error, "ExpiredToken");
            assert_eq!(e.message, "Token has expired");
        },
        _ => panic!("expected a plain API error, not another refresh"),
    }
    assert!(matches!(flow.phase, FlowPhase::Complete));
}

#[test]
fn other_api_error_is_surfaced_verbatim() {
    let mut client = client_with_session();
    let (mut flow, _first) = client.xrpc_start(list_request()).unwrap();
    let body = b"{\"error\":\"InvalidRequest\",\"message\":\"bad cursor\"}".to_vec();
    match client.xrpc_step(&mut flow, HttpOutcome::Response { status: 400, body }) {
        FlowAction::Fail(BiskyError::ApiError(e)) => {
            assert_eq!(e.error, "InvalidRequest");
            assert_eq!(e.message, "bad cursor");
        },
        _ => panic!("expected an API error"),
    }
}

#[test]
fn unreadable_error_body_is_a_json_error() {
    let mut client = client_with_session();
    let (mut flow, _first) = client.xrpc_start(list_request()).unwrap();
    let body = b"not json at all".to_vec();
    match client.xrpc_step(&mut flow, HttpOutcome::Response { status: 400, body }) {
        FlowAction::Fail(BiskyError::JsonError(_)) => (),
        _ => panic!("expected a JSON error"),
    }
}

#[test]
fn server_error_status_fails_the_call() {
    let mut client = client_with_session();
    let (mut flow, _first) = client.xrpc_start(list_request()).unwrap();
    match client.xrpc_step(
        &mut flow,
        HttpOutcome::Response { status: 500, body: Vec::new() },
    ) {
        FlowAction::Fail(BiskyError::BadStatus(500)) => (),
        _ => panic!("expected a status error"),
    }
}

#[test]
fn network_failure_fails_the_call() {
    let mut client = client_with_session();
    let (mut flow, _first) = client.xrpc_start(list_request()).unwrap();
    match client.xrpc_step(&mut flow, HttpOutcome::Failed("connection reset".to_string())) {
        FlowAction::Fail(BiskyError::NetworkError(m)) => assert_eq!(m, "connection reset"),
        _ => panic!("expected a network error"),
    }
}

#[test]
fn refresh_failure_keeps_old_session_usable() {
    // Scenario: the refresh call itself dies on the network; the error
    // propagates and the old token pair stays installed for a manual
    // retry.
    let mut client = client_with_session();
    let refresh_http = client.refresh_request().unwrap();
    assert_eq!(refresh_http.bearer.as_deref(), Some("old-refresh"));

    match client.refresh_response(HttpOutcome::Failed("connection reset".to_string())) {
        Err(BiskyError::NetworkError(m)) => assert_eq!(m, "connection reset"),
        _ => panic!("expected the network error to propagate"),
    }
    let session = client.session.clone().unwrap();
    assert_eq!(session.did, "did:plc:alice");
    assert_eq!(session.jwt.access, "old-access");
    assert_eq!(session.jwt.refresh, "old-refresh");

    // The untouched session still authenticates the next attempt.
    let (_flow, http) = client.xrpc_start(list_request()).unwrap();
    assert_eq!(http.bearer.as_deref(), Some("old-access"));
}

#[test]
fn refresh_success_replaces_both_tokens_together() {
    let mut client = client_with_session();
    client
        .refresh_response(HttpOutcome::Response { status: 200, body: session_body() })
        .unwrap();
    let session = client.session.clone().unwrap();
    assert_eq!(session.jwt.access, "new-access");
    assert_eq!(session.jwt.refresh, "new-refresh");
}

#[test]
fn refresh_bad_status_keeps_old_session() {
    let mut client = client_with_session();
    match client.refresh_response(HttpOutcome::Response { status: 401, body: Vec::new() }) {
        Err(BiskyError::BadStatus(401)) => (),
        _ => panic!("expected a status error"),
    }
    let session = client.session.clone().unwrap();
    assert_eq!(session.jwt.access, "old-access");
}

#[test]
fn login_request_is_unauthenticated_and_carries_credentials() {
    let service = "https://pds.example".to_string();
    let http = login_request(&service, "alice@example.com", "hunter\"2\\back");
    assert!(http.bearer.is_none());
    assert_eq!(http.path, "xrpc/com.atproto.server.createSession");
    assert!(matches!(http.method, HttpMethod::Post));
    let body = match http.body {
        RequestBody::Json(s) => s,
        _ => panic!("expected a JSON body"),
    };
    // The body is real JSON: the escaping agrees with a JSON parser.
    let v: serde_json::Value = serde_json::from_str(&body).unwrap();
    assert_eq!(v.get("identifier").unwrap().as_str().unwrap(), "alice@example.com");
    assert_eq!(v.get("password").unwrap().as_str().unwrap(), "hunter\"2\\back");
}

#[test]
fn login_simple_body_is_exact() {
    let service = "https://pds.example".to_string();
    let http = login_request(&service, "alice.example", "hunter2");
    match http.body {
        RequestBody::Json(s) => {
            assert_eq!(s, "{\"identifier\":\"alice.example\",\"password\":\"hunter2\"}")
        },
        _ => panic!("expected a JSON body"),
    }
}

#[test]
fn login_unauthorized_is_bad_credentials() {
    let mut client = ClientBuilder::new().build();
    match client.login_response(HttpOutcome::Response { status: 401, body: Vec::new() }) {
        Err(BiskyError::BadCredentials) => (),
        _ => panic!("expected BadCredentials"),
    }
    assert!(client.session.is_none());
}

#[test]
fn login_structured_error_is_surfaced() {
    let mut client = ClientBuilder::new().build();
    let body = b"{\"error\":\"AccountTakedown\",\"message\":\"gone\"}".to_vec();
    match client.login_response(HttpOutcome::Response { status: 400, body }) {
        Err(BiskyError::ApiError(e)) => {
            assert_eq!(e.error, "AccountTakedown");
            assert_eq!(e.message, "gone");
        },
        _ => panic!("expected an API error"),
    }
}

#[test]
fn login_success_installs_full_session() {
    let mut client = ClientBuilder::new().build();
    let body = b"{\"did\":\"did:plc:alice\",\"email\":\"alice@example.com\",\"handle\":\"alice.example\",\"accessJwt\":\"a1\",\"refreshJwt\":\"r1\"}"
        .to_vec();
    client.login_response(HttpOutcome::Response { status: 200, body }).unwrap();
    let session = client.session.clone().unwrap();
    assert_eq!(session.did, "did:plc:alice");
    assert_eq!(session.handle, "alice.example");
    assert_eq!(session.jwt.access, "a1");
    assert_eq!(session.jwt.refresh, "r1");
}

#[test]
fn login_body_without_email_is_rejected() {
    let mut client = ClientBuilder::new().build();
    match client.login_response(HttpOutcome::Response { status: 200, body: session_body() }) {
        Err(BiskyError::JsonError(_)) => (),
        _ => panic!("expected a JSON error"),
    }
    assert!(client.session.is_none());
}

#[test]
fn empty_body_calls_accept_only_empty_bodies() {
    assert!(finish_no_response(Vec::new()).is_ok());
    match finish_no_response(b"left over".to_vec()) {
        Err(BiskyError::UnexpectedResponse(t)) => assert_eq!(t, "left over"),
        _ => panic!("expected UnexpectedResponse"),
    }
}

#[test]
fn session_accessors_report_missing_session() {
    let client = ClientBuilder::new().build();
    assert!(matches!(client.access_token(), Err(BiskyError::MissingSession)));
    assert!(matches!(client.session_did(), Err(BiskyError::MissingSession)));
    let with = client_with_session();
    assert_eq!(with.access_token().unwrap(), "old-access");
    assert_eq!(with.session_did().unwrap(), "did:plc:alice");
}

#[test]
fn update_session_replaces_wholesale() {
    let mut client = client_with_session();
    client.update_session(None);
    assert!(client.session.is_none());
    client.update_session(Some(UserSession {
        did: "did:plc:bob".to_string(),
        handle: "bob.example".to_string(),
        jwt: Jwt { access: "a2".to_string(), refresh: "r2".to_string() },
    }));
    let session = client.session.clone().unwrap();
    assert_eq!(session.did, "did:plc:bob");
    assert_eq!(session.jwt.access, "a2");
    assert_eq!(session.jwt.refresh, "r2");
}
