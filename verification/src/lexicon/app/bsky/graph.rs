//! Social-graph queries: follows and followers.

use crate::lexicon::app::bsky::actor::ProfileView;
use vstd::prelude::*;

verus! {

/// A follow record.
#[derive(Debug, Clone, PartialEq)]
pub struct Follow {
    /// Creation timestamp, RFC 3339 text.
    pub created_at: String,
    /// The DID of the followed actor.
    pub subject: String,
}

/// The query of a follower listing.
#[derive(Debug, Clone, PartialEq)]
pub struct GetFollowers {
    pub actor: String,
    pub limit: Option<usize>,
    pub cursor: Option<String>,
}

/// One page of a follower listing.
#[derive(Debug, Clone, PartialEq)]
pub struct GetFollowersOutput {
    pub subject: ProfileView,
    pub followers: Vec<ProfileView>,
    pub cursor: Option<String>,
}

/// The query of a follow listing.
#[derive(Debug, Clone, PartialEq)]
pub struct GetFollows {
    pub actor: String,
    pub limit: Option<usize>,
    pub cursor: Option<String>,
}

/// One page of a follow listing.
#[derive(Debug, Clone, PartialEq)]
pub struct GetFollowsOutput {
    pub subject: ProfileView,
    pub follows: Vec<ProfileView>,
    pub cursor: Option<String>,
}

} // verus!
