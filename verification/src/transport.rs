//! The resilient transport.
//!
//! A call is described as an [`XrpcRequest`]; each attempt at it becomes
//! an [`HttpRequest`] carrying the bearer token chosen for that attempt.
//! The HTTP driver around the library executes the attempt and feeds the
//! outcome back into the retry flow, which decides the next step.  The
//! flow recovers from exactly one class of failure — an expired access
//! token — by refreshing once and re-issuing the original request once.

use crate::atproto::{Client, UserSession, Jwt, UserSessionView};
use crate::errors::{ApiError, ApiErrorView, BiskyError, BiskyErrorView};
use vstd::prelude::*;

verus! {

/// The HTTP methods the protocol uses.
#[derive(Debug, Clone, Copy, PartialEq, Eq, Structural)]
pub enum HttpMethod {
    Get,
    Post,
}

/// What an attempt carries as its body.
#[derive(Debug, Clone)]
pub enum RequestBody {
    NoBody,
    /// A JSON text body.
    Json(String),
    /// Raw bytes with their content type.
    Binary(Vec<u8>, String),
}

/// The mathematical shape of a request body.
pub enum RequestBodyView {
    NoBody,
    Json(Seq<char>),
    Binary(Seq<u8>, Seq<char>),
}

impl View for RequestBody {
    type V = RequestBodyView;

    open spec fn view(&self) -> RequestBodyView {
        match self {
            RequestBody::NoBody => RequestBodyView::NoBody,
            RequestBody::Json(s) => RequestBodyView::Json(s@),
            RequestBody::Binary(b, m) => RequestBodyView::Binary(b@, m@),
        }
    }
}

/// The view of a query parameter list: each pair as character sequences.
pub open spec fn query_view(q: Seq<(String, String)>) -> Seq<(Seq<char>, Seq<char>)> {
    q.map_values(|p: (String, String)| (p.0@, p.1@))
}

/// One call against the service, before any token is attached: the
/// method name under the RPC prefix, the query and the body.
#[derive(Debug, Clone)]
pub struct XrpcRequest {
    pub method: HttpMethod,
    pub path: String,
    pub query: Vec<(String, String)>,
    pub body: RequestBody,
}

/// The mathematical shape of an [`XrpcRequest`].
pub struct XrpcRequestView {
    pub method: HttpMethod,
    pub path: Seq<char>,
    pub query: Seq<(Seq<char>, Seq<char>)>,
    pub body: RequestBodyView,
}

impl View for XrpcRequest {
    type V = XrpcRequestView;

    open spec fn view(&self) -> XrpcRequestView {
        XrpcRequestView {
            method: self.method,
            path: self.path@,
            query: query_view(self.query@),
            body: self.body@,
        }
    }
}

/// One concrete attempt, ready for the HTTP driver: the service base,
/// the path under it, the query, the bearer token of this attempt and
/// the body.
#[derive(Debug, Clone)]
pub struct HttpRequest {
    pub method: HttpMethod,
    pub service: String,
    pub path: String,
    pub query: Vec<(String, String)>,
    pub bearer: Option<String>,
    pub body: RequestBody,
}

/// The mathematical shape of an [`HttpRequest`].
pub struct HttpRequestView {
    pub method: HttpMethod,
    pub service: Seq<char>,
    pub path: Seq<char>,
    pub query: Seq<(Seq<char>, Seq<char>)>,
    pub bearer: Option<Seq<char>>,
    pub body: RequestBodyView,
}

impl View for HttpRequest {
    type V = HttpRequestView;

    open spec fn view(&self) -> HttpRequestView {
        HttpRequestView {
            method: self.method,
            service: self.service@,
            path: self.path@,
            query: query_view(self.query@),
            bearer: match self.bearer {
                Some(b) => Some(b@),
                None => None,
            },
            body: self.body@,
        }
    }
}

/// The attempt that realizes a call: the same method, query and body,
/// the path put under the RPC prefix, and the chosen bearer attached.
pub open spec fn http_of(
    r: XrpcRequestView,
    service: Seq<char>,
    bearer: Option<Seq<char>>,
) -> HttpRequestView {
    HttpRequestView {
        method: r.method,
        service: service,
        path: "xrpc/"@ + r.path,
        query: r.query,
        bearer: bearer,
        body: r.body,
    }
}

fn clone_body(b: &RequestBody) -> (r: RequestBody)
    ensures
        r@ == b@,
{
    match b {
        RequestBody::NoBody => RequestBody::NoBody,
        RequestBody::Json(s) => RequestBody::Json(s.clone()),
        RequestBody::Binary(v, m) => {
            let bytes = v.clone();
            proof {
                assert(bytes@ =~= v@);
            }
            RequestBody::Binary(bytes, m.clone())
        },
    }
}

fn clone_query(q: &Vec<(String, String)>) -> (r: Vec<(String, String)>)
    ensures
        query_view(r@) == query_view(q@),
{
    let mut out: Vec<(String, String)> = Vec::new();
    let mut i: usize = 0;
    while i < q.len()
        invariant
            i <= q.len(),
            out@.len() == i,
            forall|j: int|
                0 <= j < i ==> (#[trigger] out@[j]).0@ == q@[j].0@ && out@[j].1@ == q@[j].1@,
        decreases q.len() - i,
    {
        let pair = (q[i].0.clone(), q[i].1.clone());
        out.push(pair);
        i = i + 1;
    }
    proof {
        assert(query_view(out@) =~= query_view(q@));
    }
    out
}

/// Builds the concrete attempt for a call: prefixes the path and
/// attaches the given bearer.
pub fn build_http(service: &String, req: &XrpcRequest, bearer: Option<&String>) -> (h: HttpRequest)
    ensures
        h@ == http_of(
            req@,
            service@,
            match bearer {
                Some(b) => Some(b@),
                None => None::<Seq<char>>,
            },
        ),
{
    let mut path = String::from_str("xrpc/");
    path.append(req.path.as_str());
    HttpRequest {
        method: req.method,
        service: service.clone(),
        path,
        query: clone_query(&req.query),
        bearer: match bearer {
            Some(b) => Some(b.clone()),
            None => None,
        },
        body: clone_body(&req.body),
    }
}

/// What the HTTP driver observed for one attempt: a response with its
/// status and raw body, or a failure of the exchange itself.
#[derive(Debug, Clone)]
pub enum HttpOutcome {
    Response { status: u16, body: Vec<u8> },
    Failed(String),
}

/// The mathematical shape of an [`HttpOutcome`].
pub enum HttpOutcomeView {
    Response { status: u16, body: Seq<u8> },
    Failed(Seq<char>),
}

impl View for HttpOutcome {
    type V = HttpOutcomeView;

    open spec fn view(&self) -> HttpOutcomeView {
        match self {
            HttpOutcome::Response { status, body } => HttpOutcomeView::Response {
                status: *status,
                body: body@,
            },
            HttpOutcome::Failed(m) => HttpOutcomeView::Failed(m@),
        }
    }
}

/// Where a call stands between attempts.
#[derive(Debug, Clone, Copy, PartialEq, Eq, Structural)]
pub enum FlowPhase {
    /// The original request is out with the current access token.
    FirstAttempt,
    /// The token-refresh request is out.
    RefreshPending,
    /// The original request is out again with the refreshed token.
    RetryAttempt,
    /// A terminal action has been emitted.
    Complete,
}

/// What the flow asks of the driver next.
#[derive(Debug)]
pub enum FlowAction {
    /// Execute the token-refresh request.
    SendRefresh(HttpRequest),
    /// Execute the original request again; the session was just
    /// replaced, so a configured credential store should persist it now.
    SendRetry(HttpRequest),
    /// The call succeeded with this raw body.
    Succeed(Vec<u8>),
    /// The call failed; the flow is complete.
    Fail(BiskyError),
}

/// The mathematical shape of a [`FlowAction`].
pub enum FlowActionView {
    SendRefresh(HttpRequestView),
    SendRetry(HttpRequestView),
    Succeed(Seq<u8>),
    Fail(BiskyErrorView),
}

impl View for FlowAction {
    type V = FlowActionView;

    open spec fn view(&self) -> FlowActionView {
        match self {
            FlowAction::SendRefresh(h) => FlowActionView::SendRefresh(h@),
            FlowAction::SendRetry(h) => FlowActionView::SendRetry(h@),
            FlowAction::Succeed(b) => FlowActionView::Succeed(b@),
            FlowAction::Fail(e) => FlowActionView::Fail(e@),
        }
    }
}

/// One call in flight: the request it realizes and where it stands.
#[derive(Debug)]
pub struct XrpcFlow {
    pub request: XrpcRequest,
    pub phase: FlowPhase,
}

/// The token fields of a session response body.
#[derive(Debug, Clone)]
pub struct SessionTokens {
    pub did: String,
    pub email: Option<String>,
    pub handle: String,
    pub access_jwt: String,
    pub refresh_jwt: String,
}

/// The mathematical shape of [`SessionTokens`].
pub struct SessionTokensView {
    pub did: Seq<char>,
    pub email: Option<Seq<char>>,
    pub handle: Seq<char>,
    pub access_jwt: Seq<char>,
    pub refresh_jwt: Seq<char>,
}

impl View for SessionTokens {
    type V = SessionTokensView;

    open spec fn view(&self) -> SessionTokensView {
        SessionTokensView {
            did: self.did@,
            email: match self.email {
                Some(e) => Some(e@),
                None => None,
            },
            handle: self.handle@,
            access_jwt: self.access_jwt@,
            refresh_jwt: self.refresh_jwt@,
        }
    }
}

/// The "error" and "message" string fields of a structured error body,
/// if the bytes parse as a JSON object holding both.
pub uninterp spec fn api_error_fields(body: Seq<u8>) -> Option<(Seq<char>, Seq<char>)>;

/// Relies on serde_json::from_slice to read a JSON value, and on
/// Value::get and Value::as_str to pick the "error" and "message"
/// string fields out of it; the result depends on the bytes alone.
#[verifier::external_body]
fn parse_error_body(body: &[u8]) -> (r: Option<ApiError>)
    ensures
        match r {
            Some(e) => api_error_fields(body@) == Some((e.error@, e.message@)),
            None => api_error_fields(body@) is None,
        },
{
    let v: serde_json::Value = serde_json::from_slice(body).ok()?;
    let error = v.get("error")?.as_str()?.to_string();
    let message = v.get("message")?.as_str()?.to_string();
    Some(ApiError { error, message })
}

/// The identity and token fields of a session response body, if the
/// bytes parse as a JSON object holding "did", "handle", "accessJwt"
/// and "refreshJwt" strings; "email" may be absent.
pub uninterp spec fn session_fields(body: Seq<u8>) -> Option<SessionTokensView>;

/// Relies on serde_json::from_slice to read a JSON value, and on
/// Value::get and Value::as_str to pick the session fields out of it;
/// the result depends on the bytes alone.
#[verifier::external_body]
fn parse_session_body(body: &[u8]) -> (r: Option<SessionTokens>)
    ensures
        match r {
            Some(t) => session_fields(body@) == Some(t@),
            None => session_fields(body@) is None,
        },
{
    let v: serde_json::Value = serde_json::from_slice(body).ok()?;
    let did = v.get("did")?.as_str()?.to_string();
    let handle = v.get("handle")?.as_str()?.to_string();
    let access_jwt = v.get("accessJwt")?.as_str()?.to_string();
    let refresh_jwt = v.get("refreshJwt")?.as_str()?.to_string();
    let email = v.get("email").and_then(|e| e.as_str()).map(|e| e.to_string());
    Some(SessionTokens { did, email, handle, access_jwt, refresh_jwt })
}

/// The refresh call: a bare POST to the refresh endpoint.
pub open spec fn refresh_request_view() -> XrpcRequestView {
    XrpcRequestView {
        method: HttpMethod::Post,
        path: "com.atproto.server.refreshSession"@,
        query: Seq::empty(),
        body: RequestBodyView::NoBody,
    }
}

fn refresh_xrpc_request() -> (r: XrpcRequest)
    ensures
        r@ == refresh_request_view(),
{
    let r = XrpcRequest {
        method: HttpMethod::Post,
        path: String::from_str("com.atproto.server.refreshSession"),
        query: Vec::new(),
        body: RequestBody::NoBody,
    };
    proof {
        assert(query_view(r.query@) =~= Seq::<(Seq<char>, Seq<char>)>::empty());
    }
    r
}

/// The session a session response body installs.
pub open spec fn session_of_tokens(t: SessionTokensView) -> UserSessionView {
    UserSessionView {
        did: t.did,
        handle: t.handle,
        access: t.access_jwt,
        refresh: t.refresh_jwt,
    }
}

/// The text carried by the error for a body that would not parse.
pub open spec fn invalid_json_text() -> Seq<char> {
    "invalid JSON in response body"@
}

/// The outcome of one flow step: the next phase, the session afterwards
/// and the action handed to the driver.
pub struct FlowStepSpec {
    pub phase: FlowPhase,
    pub session: Option<UserSessionView>,
    pub action: FlowActionView,
}

pub open spec fn fail_step(session: Option<UserSessionView>, e: BiskyErrorView) -> FlowStepSpec {
    FlowStepSpec { phase: FlowPhase::Complete, session: session, action: FlowActionView::Fail(e) }
}

/// The complete retry policy, one observed outcome at a time.
///
/// On the first attempt, a 400 response whose error code is exactly
/// "ExpiredToken" triggers one refresh; every other failure is
/// terminal.  A successful refresh installs the new session wholesale
/// and re-issues the original request once.  On the retried attempt
/// every failure is terminal — a second "ExpiredToken" surfaces as a
/// plain API error and is never retried again.
pub open spec fn step_spec(
    phase: FlowPhase,
    service: Seq<char>,
    session: Option<UserSessionView>,
    request: XrpcRequestView,
    outcome: HttpOutcomeView,
) -> FlowStepSpec {
    match phase {
        FlowPhase::FirstAttempt => match outcome {
            HttpOutcomeView::Failed(m) => fail_step(session, BiskyErrorView::NetworkError(m)),
            HttpOutcomeView::Response { status, body } => {
                if status == 400 {
                    match api_error_fields(body) {
                        None => fail_step(session, BiskyErrorView::JsonError(invalid_json_text())),
                        Some((code, message)) => {
                            if code == "ExpiredToken"@ {
                                match session {
                                    None => fail_step(session, BiskyErrorView::MissingSession),
                                    Some(s) => FlowStepSpec {
                                        phase: FlowPhase::RefreshPending,
                                        session: session,
                                        action: FlowActionView::SendRefresh(
                                            http_of(refresh_request_view(), service, Some(s.refresh)),
                                        ),
                                    },
                                }
                            } else {
                                fail_step(
                                    session,
                                    BiskyErrorView::ApiError(
                                        ApiErrorView { error: code, message: message },
                                    ),
                                )
                            }
                        },
                    }
                } else if 400 < status && status < 600 {
                    fail_step(session, BiskyErrorView::BadStatus(status))
                } else {
                    FlowStepSpec {
                        phase: FlowPhase::Complete,
                        session: session,
                        action: FlowActionView::Succeed(body),
                    }
                }
            },
        },
        FlowPhase::RefreshPending => match outcome {
            HttpOutcomeView::Failed(m) => fail_step(session, BiskyErrorView::NetworkError(m)),
            HttpOutcomeView::Response { status, body } => {
                if 400 <= status && status < 600 {
                    fail_step(session, BiskyErrorView::BadStatus(status))
                } else {
                    match session_fields(body) {
                        None => fail_step(session, BiskyErrorView::JsonError(invalid_json_text())),
                        Some(t) => FlowStepSpec {
                            phase: FlowPhase::RetryAttempt,
                            session: Some(session_of_tokens(t)),
                            action: FlowActionView::SendRetry(
                                http_of(request, service, Some(t.access_jwt)),
                            ),
                        },
                    }
                }
            },
        },
        FlowPhase::RetryAttempt => match outcome {
            HttpOutcomeView::Failed(m) => fail_step(session, BiskyErrorView::NetworkError(m)),
            HttpOutcomeView::Response { status, body } => {
                if status == 400 {
                    match api_error_fields(body) {
                        None => fail_step(session, BiskyErrorView::JsonError(invalid_json_text())),
                        Some((code, message)) => fail_step(
                            session,
                            BiskyErrorView::ApiError(ApiErrorView { error: code, message: message }),
                        ),
                    }
                } else if 400 < status && status < 600 {
                    fail_step(session, BiskyErrorView::BadStatus(status))
                } else {
                    FlowStepSpec {
                        phase: FlowPhase::Complete,
                        session: session,
                        action: FlowActionView::Succeed(body),
                    }
                }
            },
        },
        FlowPhase::Complete => FlowStepSpec {
            phase: FlowPhase::Complete,
            session: session,
            action: FlowActionView::Fail(BiskyErrorView::MissingSession),
        },
    }
}

impl Client {
    /// Starts a call.  With no session installed it fails at once with
    /// `MissingSession`, before any network work; otherwise it hands
    /// back the flow and the first attempt, carrying the current access
    /// token as bearer.
    pub fn xrpc_start(&self, request: XrpcRequest) -> (r: Result<
        (XrpcFlow, HttpRequest),
        BiskyError,
    >)
        ensures
            match self@.session {
                Some(s) => r matches Ok(p) && p.0.phase == FlowPhase::FirstAttempt
                    && p.0.request@ == request@ && p.1@ == http_of(
                    request@,
                    self@.service,
                    Some(s.access),
                ),
                None => r matches Err(e) && e@ == BiskyErrorView::MissingSession,
            },
    {
        match &self.session {
            None => Err(BiskyError::MissingSession),
            Some(s) => {
                let http = build_http(&self.service, &request, Some(&s.jwt.access));
                Ok((XrpcFlow { request, phase: FlowPhase::FirstAttempt }, http))
            },
        }
    }

    /// Advances a call by one observed outcome, exactly as
    /// [`step_spec`] describes.  The session changes only when a
    /// refresh response installs a complete new one.
    pub fn xrpc_step(&mut self, flow: &mut XrpcFlow, outcome: HttpOutcome) -> (r: FlowAction)
        requires
            old(flow).phase != FlowPhase::Complete,
        ensures
            ({
                let m = step_spec(
                    old(flow).phase,
                    old(self)@.service,
                    old(self)@.session,
                    old(flow).request@,
                    outcome@,
                );
                &&& final(self)@.service == old(self)@.service
                &&& final(self)@.session == m.session
                &&& final(flow).phase == m.phase
                &&& final(flow).request@ == old(flow).request@
                &&& r@ == m.action
            }),
    {
        match flow.phase {
            FlowPhase::FirstAttempt => match outcome {
                HttpOutcome::Failed(m) => {
                    flow.phase = FlowPhase::Complete;
                    FlowAction::Fail(BiskyError::NetworkError(m))
                },
                HttpOutcome::Response { status, body } => {
                    if status == 400 {
                        match parse_error_body(body.as_slice()) {
                            None => {
                                flow.phase = FlowPhase::Complete;
                                FlowAction::Fail(
                                    BiskyError::JsonError(
                                        String::from_str("invalid JSON in response body"),
                                    ),
                                )
                            },
                            Some(err) => {
                                let expired = String::from_str("ExpiredToken");
                                if err.error == expired {
                                    match &self.session {
                                        None => {
                                            flow.phase = FlowPhase::Complete;
                                            FlowAction::Fail(BiskyError::MissingSession)
                                        },
                                        Some(s) => {
                                            let refresh_req = refresh_xrpc_request();
                                            let http = build_http(
                                                &self.service,
                                                &refresh_req,
                                                Some(&s.jwt.refresh),
                                            );
                                            flow.phase = FlowPhase::RefreshPending;
                                            FlowAction::SendRefresh(http)
                                        },
                                    }
                                } else {
                                    flow.phase = FlowPhase::Complete;
                                    FlowAction::Fail(BiskyError::ApiError(err))
                                }
                            },
                        }
                    } else if 400 < status && status < 600 {
                        flow.phase = FlowPhase::Complete;
                        FlowAction::Fail(BiskyError::BadStatus(status))
                    } else {
                        flow.phase = FlowPhase::Complete;
                        FlowAction::Succeed(body)
                    }
                },
            },
            FlowPhase::RefreshPending => match outcome {
                HttpOutcome::Failed(m) => {
                    flow.phase = FlowPhase::Complete;
                    FlowAction::Fail(BiskyError::NetworkError(m))
                },
                HttpOutcome::Response { status, body } => {
                    if 400 <= status && status < 600 {
                        flow.phase = FlowPhase::Complete;
                        FlowAction::Fail(BiskyError::BadStatus(status))
                    } else {
                        match parse_session_body(body.as_slice()) {
                            None => {
                                flow.phase = FlowPhase::Complete;
                                FlowAction::Fail(
                                    BiskyError::JsonError(
                                        String::from_str("invalid JSON in response body"),
                                    ),
                                )
                            },
                            Some(tokens) => {
                                let http = build_http(
                                    &self.service,
                                    &flow.request,
                                    Some(&tokens.access_jwt),
                                );
                                self.session = Some(
                                    UserSession {
                                        did: tokens.did,
                                        handle: tokens.handle,
                                        jwt: Jwt {
                                            access: tokens.access_jwt,
                                            refresh: tokens.refresh_jwt,
                                        },
                                    },
                                );
                                flow.phase = FlowPhase::RetryAttempt;
                                FlowAction::SendRetry(http)
                            },
                        }
                    }
                },
            },
            FlowPhase::RetryAttempt => match outcome {
                HttpOutcome::Failed(m) => {
                    flow.phase = FlowPhase::Complete;
                    FlowAction::Fail(BiskyError::NetworkError(m))
                },
                HttpOutcome::Response { status, body } => {
                    if status == 400 {
                        match parse_error_body(body.as_slice()) {
                            None => {
                                flow.phase = FlowPhase::Complete;
                                FlowAction::Fail(
                                    BiskyError::JsonError(
                                        String::from_str("invalid JSON in response body"),
                                    ),
                                )
                            },
                            Some(err) => {
                                flow.phase = FlowPhase::Complete;
                                FlowAction::Fail(BiskyError::ApiError(err))
                            },
                        }
                    } else if 400 < status && status < 600 {
                        flow.phase = FlowPhase::Complete;
                        FlowAction::Fail(BiskyError::BadStatus(status))
                    } else {
                        flow.phase = FlowPhase::Complete;
                        FlowAction::Succeed(body)
                    }
                },
            },
            FlowPhase::Complete => {
                proof {
                    assert(false);
                }
                FlowAction::Fail(BiskyError::MissingSession)
            },
        }
    }
}

/// What a standalone refresh call does to the session: a failure of any
/// kind leaves it untouched, a success replaces it wholesale.
pub open spec fn refresh_apply(session: Option<UserSessionView>, outcome: HttpOutcomeView) -> (
    Option<UserSessionView>,
    Result<(), BiskyErrorView>,
) {
    match outcome {
        HttpOutcomeView::Failed(m) => (session, Err(BiskyErrorView::NetworkError(m))),
        HttpOutcomeView::Response { status, body } => {
            if 400 <= status && status < 600 {
                (session, Err(BiskyErrorView::BadStatus(status)))
            } else {
                match session_fields(body) {
                    None => (session, Err(BiskyErrorView::JsonError(invalid_json_text()))),
                    Some(t) => (Some(session_of_tokens(t)), Ok(())),
                }
            }
        },
    }
}

/// What a login call does to the session.  A 401 means bad credentials;
/// a 400 surfaces the structured error; any other response must carry a
/// complete session body, email included, and installs it wholesale.
pub open spec fn login_apply(session: Option<UserSessionView>, outcome: HttpOutcomeView) -> (
    Option<UserSessionView>,
    Result<(), BiskyErrorView>,
) {
    match outcome {
        HttpOutcomeView::Failed(m) => (session, Err(BiskyErrorView::NetworkError(m))),
        HttpOutcomeView::Response { status, body } => {
            if status == 401 {
                (session, Err(BiskyErrorView::BadCredentials))
            } else if status == 400 {
                match api_error_fields(body) {
                    None => (session, Err(BiskyErrorView::JsonError(invalid_json_text()))),
                    Some((code, message)) => (
                        session,
                        Err(BiskyErrorView::ApiError(ApiErrorView { error: code, message: message })),
                    ),
                }
            } else {
                match session_fields(body) {
                    Some(t) => {
                        if t.email is Some {
                            (Some(session_of_tokens(t)), Ok(()))
                        } else {
                            (session, Err(BiskyErrorView::JsonError(invalid_json_text())))
                        }
                    },
                    None => (session, Err(BiskyErrorView::JsonError(invalid_json_text()))),
                }
            }
        },
    }
}

/// The body of a login request for the given credentials.
pub open spec fn login_body_text(identifier: Seq<char>, password: Seq<char>) -> Seq<char> {
    "{\"identifier\":\""@ + crate::textfmt::json_escaped(identifier) + "\",\"password\":\""@
        + crate::textfmt::json_escaped(password) + "\"}"@
}

/// The login call: an unauthenticated POST with a JSON body holding the
/// credentials.
pub open spec fn login_request_view(identifier: Seq<char>, password: Seq<char>) -> XrpcRequestView {
    XrpcRequestView {
        method: HttpMethod::Post,
        path: "com.atproto.server.createSession"@,
        query: Seq::empty(),
        body: RequestBodyView::Json(login_body_text(identifier, password)),
    }
}

/// Builds the login request against the given service.  No bearer is
/// attached: login is the one unauthenticated call.
pub fn login_request(service: &String, identifier: &str, password: &str) -> (h: HttpRequest)
    ensures
        h@ == http_of(login_request_view(identifier@, password@), service@, None),
{
    let mut body = String::from_str("{\"identifier\":\"");
    crate::textfmt::append_json_escaped(&mut body, identifier);
    body.append("\",\"password\":\"");
    crate::textfmt::append_json_escaped(&mut body, password);
    body.append("\"}");
    let req = XrpcRequest {
        method: HttpMethod::Post,
        path: String::from_str("com.atproto.server.createSession"),
        query: Vec::new(),
        body: RequestBody::Json(body),
    };
    proof {
        assert(query_view(req.query@) =~= Seq::<(Seq<char>, Seq<char>)>::empty());
        assert(req@.body == login_request_view(identifier@, password@).body);
    }
    build_http(service, &req, None)
}

impl Client {
    /// Builds the standalone refresh request, authenticated with the
    /// refresh token; with no session installed it fails at once with
    /// `MissingSession`.
    pub fn refresh_request(&self) -> (r: Result<HttpRequest, BiskyError>)
        ensures
            match self@.session {
                Some(s) => r matches Ok(h) && h@ == http_of(
                    refresh_request_view(),
                    self@.service,
                    Some(s.refresh),
                ),
                None => r matches Err(e) && e@ == BiskyErrorView::MissingSession,
            },
    {
        match &self.session {
            None => Err(BiskyError::MissingSession),
            Some(s) => {
                let req = refresh_xrpc_request();
                Ok(build_http(&self.service, &req, Some(&s.jwt.refresh)))
            },
        }
    }

    /// Applies the outcome of a standalone refresh call, exactly as
    /// [`refresh_apply`] describes: on success both tokens are replaced
    /// together, on any failure the old session stays installed and
    /// usable.
    pub fn refresh_response(&mut self, outcome: HttpOutcome) -> (r: Result<(), BiskyError>)
        ensures
            ({
                let m = refresh_apply(old(self)@.session, outcome@);
                &&& final(self)@.service == old(self)@.service
                &&& final(self)@.session == m.0
                &&& match r {
                    Ok(u) => m.1 is Ok,
                    Err(e) => m.1 matches Err(ev) && e@ == ev,
                }
            }),
    {
        match outcome {
            HttpOutcome::Failed(m) => Err(BiskyError::NetworkError(m)),
            HttpOutcome::Response { status, body } => {
                if 400 <= status && status < 600 {
                    Err(BiskyError::BadStatus(status))
                } else {
                    match parse_session_body(body.as_slice()) {
                        None => Err(
                            BiskyError::JsonError(String::from_str("invalid JSON in response body")),
                        ),
                        Some(tokens) => {
                            self.session = Some(
                                UserSession {
                                    did: tokens.did,
                                    handle: tokens.handle,
                                    jwt: Jwt {
                                        access: tokens.access_jwt,
                                        refresh: tokens.refresh_jwt,
                                    },
                                },
                            );
                            Ok(())
                        },
                    }
                }
            },
        }
    }

    /// Applies the outcome of a login call, exactly as [`login_apply`]
    /// describes.  The caller that holds a credential store persists the
    /// new session afterwards.
    pub fn login_response(&mut self, outcome: HttpOutcome) -> (r: Result<(), BiskyError>)
        ensures
            ({
                let m = login_apply(old(self)@.session, outcome@);
                &&& final(self)@.service == old(self)@.service
                &&& final(self)@.session == m.0
                &&& match r {
                    Ok(u) => m.1 is Ok,
                    Err(e) => m.1 matches Err(ev) && e@ == ev,
                }
            }),
    {
        match outcome {
            HttpOutcome::Failed(m) => Err(BiskyError::NetworkError(m)),
            HttpOutcome::Response { status, body } => {
                if status == 401 {
                    Err(BiskyError::BadCredentials)
                } else if status == 400 {
                    match parse_error_body(body.as_slice()) {
                        None => Err(
                            BiskyError::JsonError(String::from_str("invalid JSON in response body")),
                        ),
                        Some(err) => Err(BiskyError::ApiError(err)),
                    }
                } else {
                    match parse_session_body(body.as_slice()) {
                        None => Err(
                            BiskyError::JsonError(String::from_str("invalid JSON in response body")),
                        ),
                        Some(tokens) => {
                            if tokens.email.is_some() {
                                self.session = Some(
                                    UserSession {
                                        did: tokens.did,
                                        handle: tokens.handle,
                                        jwt: Jwt {
                                            access: tokens.access_jwt,
                                            refresh: tokens.refresh_jwt,
                                        },
                                    },
                                );
                                Ok(())
                            } else {
                                Err(
                                    BiskyError::JsonError(
                                        String::from_str("invalid JSON in response body"),
                                    ),
                                )
                            }
                        },
                    }
                }
            },
        }
    }
}

/// The text of a response body, decoded as UTF-8.
pub uninterp spec fn utf8_text_of(bytes: Seq<u8>) -> Seq<char>;

/// Relies on String::from_utf8_lossy: decodes bytes as UTF-8 text,
/// substituting the replacement character for invalid sequences; the
/// result depends on the bytes alone, and is empty exactly for empty
/// input.
#[verifier::external_body]
fn bytes_to_text(bytes: &[u8]) -> (r: String)
    ensures
        r@ == utf8_text_of(bytes@),
        (r@.len() == 0) == (bytes@.len() == 0),
{
    String::from_utf8_lossy(bytes).into_owned()
}

/// Finishes a call whose response body must be empty: any text in it is
/// surfaced verbatim as an error.
pub fn finish_no_response(body: Vec<u8>) -> (r: Result<(), BiskyError>)
    ensures
        body@.len() == 0 <==> r is Ok,
        body@.len() > 0 ==> (r matches Err(e) && e@ == BiskyErrorView::UnexpectedResponse(
            utf8_text_of(body@),
        )),
{
    if body.len() == 0 {
        Ok(())
    } else {
        Err(BiskyError::UnexpectedResponse(bytes_to_text(body.as_slice())))
    }
}

/// Assembles a GET call from its method path and query.
pub fn xrpc_get_request(path: &str, query: Vec<(String, String)>) -> (r: XrpcRequest)
    ensures
        r@ == (XrpcRequestView {
            method: HttpMethod::Get,
            path: path@,
            query: query_view(query@),
            body: RequestBodyView::NoBody,
        }),
{
    XrpcRequest {
        method: HttpMethod::Get,
        path: path.to_owned(),
        query,
        body: RequestBody::NoBody,
    }
}

/// Assembles a POST call from its method path and JSON body.
pub fn xrpc_post_json_request(path: &str, body: String) -> (r: XrpcRequest)
    ensures
        r@ == (XrpcRequestView {
            method: HttpMethod::Post,
            path: path@,
            query: Seq::empty(),
            body: RequestBodyView::Json(body@),
        }),
{
    let q: Vec<(String, String)> = Vec::new();
    proof {
        assert(query_view(q@) =~= Seq::<(Seq<char>, Seq<char>)>::empty());
    }
    XrpcRequest { method: HttpMethod::Post, path: path.to_owned(), query: q, body: RequestBody::Json(body) }
}

/// Appends one query parameter.
pub fn push_param(q: &mut Vec<(String, String)>, key: &str, value: String)
    ensures
        query_view(final(q)@) == query_view(old(q)@).push((key@, value@)),
{
    let pair = (key.to_owned(), value);
    q.push(pair);
    proof {
        assert(query_view(q@) =~= query_view(old(q)@).push((key@, value@)));
    }
}

/// The actions a flow emits over a whole sequence of observed
/// outcomes, starting from the given phase and session.
pub open spec fn flow_actions(
    phase: FlowPhase,
    service: Seq<char>,
    session: Option<UserSessionView>,
    request: XrpcRequestView,
    outcomes: Seq<HttpOutcomeView>,
) -> Seq<FlowActionView>
    decreases outcomes.len(),
{
    if outcomes.len() == 0 {
        Seq::empty()
    } else {
        let m = step_spec(phase, service, session, request, outcomes[0]);
        seq![m.action] + flow_actions(m.phase, service, m.session, request, outcomes.skip(1))
    }
}

/// How many refresh requests a sequence of actions asks for.
pub open spec fn refresh_count(actions: Seq<FlowActionView>) -> nat
    decreases actions.len(),
{
    if actions.len() == 0 {
        0
    } else {
        (if actions[0] is SendRefresh {
            1nat
        } else {
            0nat
        }) + refresh_count(actions.skip(1))
    }
}

/// How many retried attempts a sequence of actions asks for.
pub open spec fn retry_count(actions: Seq<FlowActionView>) -> nat
    decreases actions.len(),
{
    if actions.len() == 0 {
        0
    } else {
        (if actions[0] is SendRetry {
            1nat
        } else {
            0nat
        }) + retry_count(actions.skip(1))
    }
}

proof fn lemma_counts_unfold(a: FlowActionView, rest: Seq<FlowActionView>)
    ensures
        refresh_count(seq![a] + rest) == (if a is SendRefresh {
            1nat
        } else {
            0nat
        }) + refresh_count(rest),
        retry_count(seq![a] + rest) == (if a is SendRetry {
            1nat
        } else {
            0nat
        }) + retry_count(rest),
{
    assert((seq![a] + rest)[0] == a);
    assert((seq![a] + rest).skip(1) =~= rest);
}

proof fn lemma_no_refresh_past_first(
    phase: FlowPhase,
    service: Seq<char>,
    session: Option<UserSessionView>,
    request: XrpcRequestView,
    outcomes: Seq<HttpOutcomeView>,
)
    requires
        phase != FlowPhase::FirstAttempt,
    ensures
        refresh_count(flow_actions(phase, service, session, request, outcomes)) == 0,
    decreases outcomes.len(),
{
    if outcomes.len() > 0 {
        let m = step_spec(phase, service, session, request, outcomes[0]);
        lemma_counts_unfold(
            m.action,
            flow_actions(m.phase, service, m.session, request, outcomes.skip(1)),
        );
        lemma_no_refresh_past_first(m.phase, service, m.session, request, outcomes.skip(1));
    }
}

proof fn lemma_no_retry_past_refresh(
    phase: FlowPhase,
    service: Seq<char>,
    session: Option<UserSessionView>,
    request: XrpcRequestView,
    outcomes: Seq<HttpOutcomeView>,
)
    requires
        phase == FlowPhase::RetryAttempt || phase == FlowPhase::Complete,
    ensures
        retry_count(flow_actions(phase, service, session, request, outcomes)) == 0,
    decreases outcomes.len(),
{
    if outcomes.len() > 0 {
        let m = step_spec(phase, service, session, request, outcomes[0]);
        lemma_counts_unfold(
            m.action,
            flow_actions(m.phase, service, m.session, request, outcomes.skip(1)),
        );
        lemma_no_retry_past_refresh(m.phase, service, m.session, request, outcomes.skip(1));
    }
}

proof fn lemma_one_retry_from_refresh(
    service: Seq<char>,
    session: Option<UserSessionView>,
    request: XrpcRequestView,
    outcomes: Seq<HttpOutcomeView>,
)
    ensures
        retry_count(
            flow_actions(FlowPhase::RefreshPending, service, session, request, outcomes),
        ) <= 1,
    decreases outcomes.len(),
{
    if outcomes.len() > 0 {
        let m = step_spec(FlowPhase::RefreshPending, service, session, request, outcomes[0]);
        lemma_counts_unfold(
            m.action,
            flow_actions(m.phase, service, m.session, request, outcomes.skip(1)),
        );
        lemma_no_retry_past_refresh(m.phase, service, m.session, request, outcomes.skip(1));
    }
}

/// The bounded retry invariant: however a call unfolds, the flow asks
/// for at most one token refresh, and at most one retried attempt.  In
/// particular, an "ExpiredToken" answer to the retried attempt never
/// triggers a second refresh.
pub proof fn lemma_at_most_one_refresh_and_retry(
    service: Seq<char>,
    session: Option<UserSessionView>,
    request: XrpcRequestView,
    outcomes: Seq<HttpOutcomeView>,
)
    ensures
        refresh_count(
            flow_actions(FlowPhase::FirstAttempt, service, session, request, outcomes),
        ) <= 1,
        retry_count(flow_actions(FlowPhase::FirstAttempt, service, session, request, outcomes))
            <= 1,
{
    if outcomes.len() > 0 {
        let m = step_spec(FlowPhase::FirstAttempt, service, session, request, outcomes[0]);
        lemma_counts_unfold(
            m.action,
            flow_actions(m.phase, service, m.session, request, outcomes.skip(1)),
        );
        lemma_no_refresh_past_first(m.phase, service, m.session, request, outcomes.skip(1));
        if m.phase == FlowPhase::RefreshPending {
            lemma_one_retry_from_refresh(service, m.session, request, outcomes.skip(1));
        } else {
            lemma_no_retry_past_refresh(m.phase, service, m.session, request, outcomes.skip(1));
        }
    }
}

/// Atomic session replacement: a flow step either leaves the session
/// exactly as it was, or installs a complete new one built from the
/// session fields of the response body.  No step produces a partial
/// token pair.
pub proof fn lemma_session_replaced_wholesale(
    phase: FlowPhase,
    service: Seq<char>,
    session: Option<UserSessionView>,
    request: XrpcRequestView,
    outcome: HttpOutcomeView,
)
    ensures
        ({
            let m = step_spec(phase, service, session, request, outcome);
            m.session == session || (outcome matches HttpOutcomeView::Response { status, body }
                && session_fields(body) matches Some(t) && m.session == Some(session_of_tokens(t)))
        }),
{
}

/// Atomic session replacement for the standalone refresh and login
/// calls: a failure of any kind leaves the old session installed and
/// usable, and a success replaces both tokens together.
pub proof fn lemma_refresh_login_atomic(session: Option<UserSessionView>, outcome: HttpOutcomeView)
    ensures
        ({
            let m = refresh_apply(session, outcome);
            &&& m.1 is Err ==> m.0 == session
            &&& m.1 is Ok ==> (outcome matches HttpOutcomeView::Response { status, body }
                && session_fields(body) matches Some(t) && m.0 == Some(session_of_tokens(t)))
        }),
        ({
            let m = login_apply(session, outcome);
            &&& m.1 is Err ==> m.0 == session
            &&& m.1 is Ok ==> (outcome matches HttpOutcomeView::Response { status, body }
                && session_fields(body) matches Some(t) && m.0 == Some(session_of_tokens(t)))
        }),
{
}

} // verus!
