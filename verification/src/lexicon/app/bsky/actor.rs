//! Actor profiles.

use vstd::prelude::*;

verus! {

/// A moderation label attached to an actor or record.
#[derive(Debug, Clone, PartialEq)]
pub struct Label {
    pub src: String,
    pub uri: String,
    pub val: String,
    pub neg: bool,
    /// Creation timestamp, RFC 3339 text.
    pub cts: String,
}

/// A compact actor profile as it appears inside other responses.
#[derive(Debug, Clone, PartialEq)]
pub struct ProfileView {
    pub did: String,
    pub handle: String,
    pub display_name: Option<String>,
}

/// A full actor profile.
#[derive(Debug, Clone, PartialEq)]
pub struct ProfileViewDetailed {
    pub did: String,
    pub handle: String,
    pub display_name: Option<String>,
    pub posts_count: Option<usize>,
    pub labels: Vec<Label>,
}

} // verus!
