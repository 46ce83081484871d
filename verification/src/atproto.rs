//! Sessions and the client they belong to.
//!
//! A session is the authenticated identity plus its token pair.  It is
//! only ever replaced wholesale: a successful login or refresh installs a
//! complete new pair, and a failed one leaves the old session untouched,
//! so no reader can observe a torn token pair.

use crate::lexicon::com::atproto::server::{CreateUserSession, RefreshUserSession};
use vstd::prelude::*;

verus! {

/// An access/refresh token pair.
#[derive(Debug, Clone)]
pub struct Jwt {
    pub access: String,
    pub refresh: String,
}

/// The authenticated identity: actor id, handle and token pair.
#[derive(Debug, Clone)]
pub struct UserSession {
    pub did: String,
    pub handle: String,
    pub jwt: Jwt,
}

/// The mathematical shape of a session: identity and tokens as
/// character sequences.
pub struct UserSessionView {
    pub did: Seq<char>,
    pub handle: Seq<char>,
    pub access: Seq<char>,
    pub refresh: Seq<char>,
}

impl View for UserSession {
    type V = UserSessionView;

    open spec fn view(&self) -> UserSessionView {
        UserSessionView {
            did: self.did@,
            handle: self.handle@,
            access: self.jwt.access@,
            refresh: self.jwt.refresh@,
        }
    }
}

/// The mathematical shape of a client: service location and optional
/// session.
pub struct ClientView {
    pub service: Seq<char>,
    pub session: Option<UserSessionView>,
}

impl View for Client {
    type V = ClientView;

    open spec fn view(&self) -> ClientView {
        ClientView {
            service: self.service@,
            session: match self.session {
                Some(s) => Some(s@),
                None => None,
            },
        }
    }
}

/// The session built from a login response.
pub open spec fn session_of_create(create: CreateUserSession) -> UserSession {
    UserSession {
        did: create.did,
        handle: create.handle,
        jwt: Jwt { access: create.access_jwt, refresh: create.refresh_jwt },
    }
}

/// The session built from a refresh response.
pub open spec fn session_of_refresh(refresh: RefreshUserSession) -> UserSession {
    UserSession {
        did: refresh.did,
        handle: refresh.handle,
        jwt: Jwt { access: refresh.access_jwt, refresh: refresh.refresh_jwt },
    }
}

impl From<CreateUserSession> for UserSession {
    /// Builds the session a login response grants, both tokens taken
    /// together.
    fn from(create: CreateUserSession) -> (r: Self) {
        UserSession {
            did: create.did,
            handle: create.handle,
            jwt: Jwt { access: create.access_jwt, refresh: create.refresh_jwt },
        }
    }
}

impl vstd::std_specs::convert::FromSpecImpl<CreateUserSession> for UserSession {
    open spec fn obeys_from_spec() -> bool {
        true
    }

    open spec fn from_spec(create: CreateUserSession) -> Self {
        session_of_create(create)
    }
}

impl From<RefreshUserSession> for UserSession {
    /// Builds the session a refresh response grants, both tokens taken
    /// together.
    fn from(refresh: RefreshUserSession) -> (r: Self) {
        UserSession {
            did: refresh.did,
            handle: refresh.handle,
            jwt: Jwt { access: refresh.access_jwt, refresh: refresh.refresh_jwt },
        }
    }
}

impl vstd::std_specs::convert::FromSpecImpl<RefreshUserSession> for UserSession {
    open spec fn obeys_from_spec() -> bool {
        true
    }

    open spec fn from_spec(refresh: RefreshUserSession) -> Self {
        session_of_refresh(refresh)
    }
}

/// The client state every call reads: the service location and the
/// session, if one is installed.  The HTTP driver around the library owns
/// the credential store; the client only decides what the store should
/// hold.
#[derive(Debug, Clone)]
pub struct Client {
    pub service: String,
    pub session: Option<UserSession>,
}

/// The recognized client options, gathered first and turned into a
/// client once.  An option left unset falls back to its default.
#[derive(Debug, Clone)]
pub struct ClientBuilder {
    pub service: Option<String>,
    pub session: Option<Option<UserSession>>,
}

impl ClientBuilder {
    /// An empty set of options.
    pub fn new() -> (r: ClientBuilder)
        ensures
            r.service is None,
            r.session is None,
    {
        ClientBuilder { service: None, session: None }
    }

    /// Chooses the service location.
    pub fn service(&mut self, service: String) -> (r: &mut Self)
        ensures
            *final(self) == *final(r),
            *r == (ClientBuilder { service: Some(service), ..*old(self) }),
    {
        self.service = Some(service);
        self
    }

    /// Chooses the session the client starts with.
    pub fn session(&mut self, session: Option<UserSession>) -> (r: &mut Self)
        ensures
            *final(self) == *final(r),
            *r == (ClientBuilder { session: Some(session), ..*old(self) }),
    {
        self.session = Some(session);
        self
    }

    /// Turns the options into a client.  The service defaults to the
    /// flagship host; the session to none.
    pub fn build(self) -> (c: Client)
        ensures
            self.service matches Some(s) ==> c.service == s,
            self.service is None ==> c.service@ == "https://bsky.social"@,
            c.session == match self.session {
                Some(s) => s,
                None => None::<UserSession>,
            },
    {
        let service = match self.service {
            Some(s) => s,
            None => String::from_str("https://bsky.social"),
        };
        let session = match self.session {
            Some(s) => s,
            None => None,
        };
        Client { service, session }
    }
}

impl Client {
    /// Replaces the session wholesale.  The caller that holds a
    /// credential store persists the same snapshot afterwards; a
    /// persistence failure is surfaced but never rolls this replacement
    /// back.
    pub fn update_session(&mut self, session: Option<UserSession>)
        ensures
            final(self).service == old(self).service,
            final(self).session == session,
    {
        self.session = session;
    }

    /// The actor id of the installed session, or the error a call
    /// without a session fails with.  The user-facing views are built
    /// around this identity.
    pub fn session_did(&self) -> (r: Result<&String, crate::errors::BiskyError>)
        ensures
            match self.session {
                Some(s) => r matches Ok(d) && *d == s.did,
                None => r matches Err(e) && e is MissingSession,
            },
    {
        match &self.session {
            Some(s) => Ok(&s.did),
            None => Err(crate::errors::BiskyError::MissingSession),
        }
    }

    /// The access token of the installed session, or the error a call
    /// without a session fails with.
    pub fn access_token(&self) -> (r: Result<&String, crate::errors::BiskyError>)
        ensures
            match self.session {
                Some(s) => r matches Ok(t) && *t == s.jwt.access,
                None => r matches Err(e) && e is MissingSession,
            },
    {
        match &self.session {
            Some(s) => Ok(&s.jwt.access),
            None => Err(crate::errors::BiskyError::MissingSession),
        }
    }
}

/// The query of one record-listing page.
pub open spec fn list_records_query_view(
    repo: Seq<char>,
    collection: Seq<char>,
    reverse: bool,
    limit: nat,
    cursor: Option<Seq<char>>,
) -> Seq<(Seq<char>, Seq<char>)> {
    let base = seq![
        ("repo"@, repo),
        ("collection"@, collection),
        ("reverse"@, crate::textfmt::bool_text(reverse)),
        ("limit"@, crate::textfmt::decimal_rep(limit)),
    ];
    match cursor {
        None => base,
        Some(c) => base.push(("cursor"@, c)),
    }
}

/// One record-listing page call.
pub open spec fn list_records_request_view(
    repo: Seq<char>,
    collection: Seq<char>,
    reverse: bool,
    limit: nat,
    cursor: Option<Seq<char>>,
) -> crate::transport::XrpcRequestView {
    crate::transport::XrpcRequestView {
        method: crate::transport::HttpMethod::Get,
        path: "com.atproto.repo.listRecords"@,
        query: list_records_query_view(repo, collection, reverse, limit, cursor),
        body: crate::transport::RequestBodyView::NoBody,
    }
}

/// Builds one record-listing page call from the pager's next request.
pub fn repo_list_records_request(
    repo: &str,
    collection: &str,
    reverse: bool,
    page: crate::pager::PageRequest,
) -> (r: crate::transport::XrpcRequest)
    ensures
        r@ == list_records_request_view(
            repo@,
            collection@,
            reverse,
            page.limit as nat,
            crate::pager::opt_text(page.cursor),
        ),
{
    let mut q: Vec<(String, String)> = Vec::new();
    proof {
        assert(crate::transport::query_view(q@) =~= Seq::<(Seq<char>, Seq<char>)>::empty());
    }
    crate::transport::push_param(&mut q, "repo", repo.to_owned());
    crate::transport::push_param(&mut q, "collection", collection.to_owned());
    crate::transport::push_param(&mut q, "reverse", crate::textfmt::bool_to_string(reverse));
    crate::transport::push_param(&mut q, "limit", crate::textfmt::usize_to_string(page.limit));
    match page.cursor {
        Some(c) => crate::transport::push_param(&mut q, "cursor", c),
        None => (),
    }
    proof {
        assert(crate::transport::query_view(q@) =~= list_records_query_view(
            repo@,
            collection@,
            reverse,
            page.limit as nat,
            crate::pager::opt_text(page.cursor),
        ));
    }
    crate::transport::XrpcRequest {
        method: crate::transport::HttpMethod::Get,
        path: String::from_str("com.atproto.repo.listRecords"),
        query: q,
        body: crate::transport::RequestBody::NoBody,
    }
}

/// The body of a record-creation call: the caller's record, already
/// rendered as JSON, framed together with its repo and collection.
pub open spec fn create_record_body_text(
    repo: Seq<char>,
    collection: Seq<char>,
    record_json: Seq<char>,
) -> Seq<char> {
    "{\"repo\":\""@ + crate::textfmt::json_escaped(repo) + "\",\"collection\":\""@
        + crate::textfmt::json_escaped(collection) + "\",\"record\":"@ + record_json + "}"@
}

/// One record-creation call.
pub open spec fn create_record_request_view(
    repo: Seq<char>,
    collection: Seq<char>,
    record_json: Seq<char>,
) -> crate::transport::XrpcRequestView {
    crate::transport::XrpcRequestView {
        method: crate::transport::HttpMethod::Post,
        path: "com.atproto.repo.createRecord"@,
        query: Seq::empty(),
        body: crate::transport::RequestBodyView::Json(
            create_record_body_text(repo, collection, record_json),
        ),
    }
}

/// Builds a record-creation call around a record already rendered as
/// JSON text.
pub fn repo_create_record_request(repo: &str, collection: &str, record_json: &str) -> (r:
    crate::transport::XrpcRequest)
    ensures
        r@ == create_record_request_view(repo@, collection@, record_json@),
{
    let mut body = String::from_str("{\"repo\":\"");
    crate::textfmt::append_json_escaped(&mut body, repo);
    body.append("\",\"collection\":\"");
    crate::textfmt::append_json_escaped(&mut body, collection);
    body.append("\",\"record\":");
    body.append(record_json);
    body.append("}");
    let q: Vec<(String, String)> = Vec::new();
    proof {
        assert(crate::transport::query_view(q@) =~= Seq::<(Seq<char>, Seq<char>)>::empty());
        assert(body@ =~= create_record_body_text(repo@, collection@, record_json@));
    }
    crate::transport::XrpcRequest {
        method: crate::transport::HttpMethod::Post,
        path: String::from_str("com.atproto.repo.createRecord"),
        query: q,
        body: crate::transport::RequestBody::Json(body),
    }
}

/// The body of a record-update call.  Fields the caller left unset are
/// left out of the body altogether, as the service expects.
pub open spec fn put_record_body_text(
    repo: Seq<char>,
    collection: Seq<char>,
    rkey: Seq<char>,
    validate: Option<bool>,
    record_json: Seq<char>,
    swap_record: Option<Seq<char>>,
    swap_commit: Option<Seq<char>>,
) -> Seq<char> {
    "{\"repo\":\""@ + crate::textfmt::json_escaped(repo) + "\",\"collection\":\""@
        + crate::textfmt::json_escaped(collection) + "\",\"rkey\":\""@
        + crate::textfmt::json_escaped(rkey) + "\""@ + (match validate {
        None => Seq::<char>::empty(),
        Some(b) => ",\"validate\":"@ + crate::textfmt::bool_text(b),
    }) + ",\"record\":"@ + record_json + (match swap_record {
        None => Seq::<char>::empty(),
        Some(s) => ",\"swapRecord\":\""@ + crate::textfmt::json_escaped(s) + "\""@,
    }) + (match swap_commit {
        None => Seq::<char>::empty(),
        Some(s) => ",\"swapCommit\":\""@ + crate::textfmt::json_escaped(s) + "\""@,
    }) + "}"@
}

/// One record-update call.
pub open spec fn put_record_request_view(
    repo: Seq<char>,
    collection: Seq<char>,
    rkey: Seq<char>,
    validate: Option<bool>,
    record_json: Seq<char>,
    swap_record: Option<Seq<char>>,
    swap_commit: Option<Seq<char>>,
) -> crate::transport::XrpcRequestView {
    crate::transport::XrpcRequestView {
        method: crate::transport::HttpMethod::Post,
        path: "com.atproto.repo.putRecord"@,
        query: Seq::empty(),
        body: crate::transport::RequestBodyView::Json(
            put_record_body_text(
                repo,
                collection,
                rkey,
                validate,
                record_json,
                swap_record,
                swap_commit,
            ),
        ),
    }
}

/// Builds a record-update call around a record already rendered as JSON
/// text.
pub fn repo_put_record_request(
    repo: &str,
    collection: &str,
    rkey: &str,
    validate: Option<bool>,
    record_json: &str,
    swap_record: Option<&str>,
    swap_commit: Option<&str>,
) -> (r: crate::transport::XrpcRequest)
    ensures
        r@ == put_record_request_view(
            repo@,
            collection@,
            rkey@,
            validate,
            record_json@,
            match swap_record {
                Some(s) => Some(s@),
                None => None,
            },
            match swap_commit {
                Some(s) => Some(s@),
                None => None,
            },
        ),
{
    let mut body = String::from_str("{\"repo\":\"");
    crate::textfmt::append_json_escaped(&mut body, repo);
    body.append("\",\"collection\":\"");
    crate::textfmt::append_json_escaped(&mut body, collection);
    body.append("\",\"rkey\":\"");
    crate::textfmt::append_json_escaped(&mut body, rkey);
    body.append("\"");
    match validate {
        Some(b) => {
            body.append(",\"validate\":");
            let flag = crate::textfmt::bool_to_string(b);
            body.append(flag.as_str());
        },
        None => (),
    }
    body.append(",\"record\":");
    body.append(record_json);
    match swap_record {
        Some(s) => {
            body.append(",\"swapRecord\":\"");
            crate::textfmt::append_json_escaped(&mut body, s);
            body.append("\"");
        },
        None => (),
    }
    match swap_commit {
        Some(s) => {
            body.append(",\"swapCommit\":\"");
            crate::textfmt::append_json_escaped(&mut body, s);
            body.append("\"");
        },
        None => (),
    }
    body.append("}");
    let q: Vec<(String, String)> = Vec::new();
    proof {
        assert(crate::transport::query_view(q@) =~= Seq::<(Seq<char>, Seq<char>)>::empty());
        assert(body@ =~= put_record_body_text(
            repo@,
            collection@,
            rkey@,
            validate,
            record_json@,
            match swap_record {
                Some(s) => Some(s@),
                None => None,
            },
            match swap_commit {
                Some(s) => Some(s@),
                None => None,
            },
        ));
    }
    crate::transport::XrpcRequest {
        method: crate::transport::HttpMethod::Post,
        path: String::from_str("com.atproto.repo.putRecord"),
        query: q,
        body: crate::transport::RequestBody::Json(body),
    }
}

/// One blob upload: the raw bytes under their content type.
pub open spec fn upload_blob_request_view(blob: Seq<u8>, mime_type: Seq<char>) -> crate::transport::XrpcRequestView {
    crate::transport::XrpcRequestView {
        method: crate::transport::HttpMethod::Post,
        path: "com.atproto.repo.uploadBlob"@,
        query: Seq::empty(),
        body: crate::transport::RequestBodyView::Binary(blob, mime_type),
    }
}

/// Builds a blob upload.
pub fn repo_upload_blob_request(blob: Vec<u8>, mime_type: &str) -> (r: crate::transport::XrpcRequest)
    ensures
        r@ == upload_blob_request_view(blob@, mime_type@),
{
    let q: Vec<(String, String)> = Vec::new();
    proof {
        assert(crate::transport::query_view(q@) =~= Seq::<(Seq<char>, Seq<char>)>::empty());
    }
    crate::transport::XrpcRequest {
        method: crate::transport::HttpMethod::Post,
        path: String::from_str("com.atproto.repo.uploadBlob"),
        query: q,
        body: crate::transport::RequestBody::Binary(blob, mime_type.to_owned()),
    }
}

} // verus!
