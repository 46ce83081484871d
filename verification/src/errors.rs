//! The error taxonomy of the library.
//!
//! `BiskyError` covers every way a transport call can fail; `StreamError`
//! adds the one failure that only a live stream can hit, a missing
//! pagination cursor.

use vstd::prelude::*;

verus! {

/// A structured error body returned by the service on a 4xx response:
/// `{"error": "<code>", "message": "<text>"}`.
#[derive(Debug, Clone)]
pub struct ApiError {
    pub error: String,
    pub message: String,
}

/// Everything that can go wrong during a transport call.
#[derive(Debug, Clone)]
pub enum BiskyError {
    /// A login was rejected with status 401.
    BadCredentials,
    /// A call that must return an empty body returned text.
    UnexpectedResponse(String),
    /// An authenticated call was attempted with no session installed.
    MissingSession,
    /// The HTTP exchange itself failed (connection, protocol, decode of a
    /// success body by the driver).
    NetworkError(String),
    /// A non-2xx status outside the structured-error path.
    BadStatus(u16),
    /// A structured 4xx error surfaced verbatim.
    ApiError(ApiError),
    /// A response body that should have held JSON could not be read as such.
    JsonError(String),
    /// The credential store failed to persist a session snapshot.
    StorageError(String),
}

/// The mathematical shape of an `ApiError`: its two fields as character
/// sequences.
pub struct ApiErrorView {
    pub error: Seq<char>,
    pub message: Seq<char>,
}

impl View for ApiError {
    type V = ApiErrorView;

    open spec fn view(&self) -> ApiErrorView {
        ApiErrorView { error: self.error@, message: self.message@ }
    }
}

/// The mathematical shape of a `BiskyError`.
pub enum BiskyErrorView {
    BadCredentials,
    UnexpectedResponse(Seq<char>),
    MissingSession,
    NetworkError(Seq<char>),
    BadStatus(u16),
    ApiError(ApiErrorView),
    JsonError(Seq<char>),
    StorageError(Seq<char>),
}

impl View for BiskyError {
    type V = BiskyErrorView;

    open spec fn view(&self) -> BiskyErrorView {
        match self {
            BiskyError::BadCredentials => BiskyErrorView::BadCredentials,
            BiskyError::UnexpectedResponse(t) => BiskyErrorView::UnexpectedResponse(t@),
            BiskyError::MissingSession => BiskyErrorView::MissingSession,
            BiskyError::NetworkError(t) => BiskyErrorView::NetworkError(t@),
            BiskyError::BadStatus(s) => BiskyErrorView::BadStatus(*s),
            BiskyError::ApiError(e) => BiskyErrorView::ApiError(e@),
            BiskyError::JsonError(t) => BiskyErrorView::JsonError(t@),
            BiskyError::StorageError(t) => BiskyErrorView::StorageError(t@),
        }
    }
}

/// Everything that can go wrong while driving a live stream.
#[derive(Debug, Clone)]
pub enum StreamError {
    Bisky(BiskyError),
    /// The service did not issue a cursor where one was required to
    /// continue streaming; fatal for the stream instance.
    NoCursor,
}

impl From<BiskyError> for StreamError {
    /// Wraps a transport error for a stream caller.
    fn from(error: BiskyError) -> (r: Self) {
        StreamError::Bisky(error)
    }
}

impl vstd::std_specs::convert::FromSpecImpl<BiskyError> for StreamError {
    open spec fn obeys_from_spec() -> bool {
        true
    }

    open spec fn from_spec(error: BiskyError) -> Self {
        StreamError::Bisky(error)
    }
}

} // verus!
