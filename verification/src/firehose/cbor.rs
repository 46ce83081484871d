//! The decoded shapes of event-stream frame bodies.
//!
//! Content addresses travel as their string form and timestamps as
//! RFC 3339 text, exactly as a driver hands them over after decoding
//! the binary repository format.

use vstd::prelude::*;

verus! {

/// The frame header as this stream variant carries it.
#[derive(Debug, Clone, PartialEq)]
pub struct Header {
    pub type_: String,
    pub operation: u8,
}

/// One record operation inside a commit.
#[derive(Debug, Clone, PartialEq)]
pub struct Operation {
    pub path: String,
    pub action: String,
    pub cid: Option<String>,
}

/// A commit frame body: new blocks and the operations they realize.
#[derive(Debug, Clone, PartialEq)]
pub struct BodyCommit {
    pub blocks: Vec<u8>,
    pub commit: String,
    pub operations: Vec<Operation>,
    pub prev: Option<String>,
    pub rebase: bool,
    pub repo: String,
    pub sequence: u64,
    /// Commit timestamp, RFC 3339 text.
    pub time: String,
    pub too_big: bool,
}

/// A handle-change frame body.
#[derive(Debug, Clone, PartialEq)]
pub struct BodyHandle {
    pub did: String,
    pub handle: String,
    pub sequence: u64,
    /// Change timestamp, RFC 3339 text.
    pub time: String,
}

/// A decoded frame body.
#[derive(Debug, Clone, PartialEq)]
pub enum Body {
    Commit(BodyCommit),
    Handle(BodyHandle),
}

} // verus!
