//! A client library for an XRPC-style federated social networking service.
//!
//! The heart of the library is a session-authenticated transport with a
//! bounded retry policy for expired access tokens, together with a
//! cursor-driven pager for bounded multi-page fetches and a polling live
//! stream for tailing unbounded collections.  Those pieces are written as
//! verified state machines: an unverified driver performs the HTTP
//! exchanges and feeds each outcome back into the machine, which decides
//! every next step.

pub mod atproto;
pub mod bluesky;
pub mod errors;
pub mod firehose;
pub mod lexicon;
pub mod pager;
pub mod storage;
pub mod stream;
pub mod textfmt;
pub mod transport;
