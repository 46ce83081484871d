//! Frames of the repository event stream.
//!
//! A frame is a CBOR header followed by a binary repository-format
//! body.  Decoding the two is the driver's job; the library fixes the
//! shapes and the one decision made on a decoded header: which body
//! kind its type tag announces.

use vstd::prelude::*;

pub mod cbor;

verus! {

/// The frame header: the body's type tag and an operation code.
#[derive(Debug, Clone, PartialEq)]
pub struct Header {
    pub type_: String,
    pub operation: u8,
}

/// The body kinds a frame can carry.
#[derive(Debug, Clone, Copy, PartialEq, Eq, Structural)]
pub enum FrameKind {
    /// A signed commit: new data in a repository.
    Commit,
    /// A handle change for a repository's actor.
    Handle,
}

/// Which body kind a header's type tag announces, if any.
pub open spec fn frame_kind_of(tag: Seq<char>) -> Option<FrameKind> {
    if tag == "#commit"@ {
        Some(FrameKind::Commit)
    } else if tag == "#handle"@ {
        Some(FrameKind::Handle)
    } else {
        None
    }
}

/// Decides which body kind a decoded header announces.
pub fn frame_kind(header: &Header) -> (r: Option<FrameKind>)
    ensures
        r == frame_kind_of(header.type_@),
{
    let commit = String::from_str("#commit");
    let handle = String::from_str("#handle");
    if header.type_ == commit {
        Some(FrameKind::Commit)
    } else if header.type_ == handle {
        Some(FrameKind::Handle)
    } else {
        None
    }
}

} // verus!
