//! Notification listing payloads.

use crate::lexicon::app::bsky::actor::ProfileView;
use crate::lexicon::app::bsky::feed::{Like, Post, Repost};
use crate::lexicon::app::bsky::graph::Follow;
use vstd::prelude::*;

verus! {

/// One notification with the record that caused it.
#[derive(Debug, Clone, PartialEq)]
pub struct Notification<T> {
    pub uri: String,
    pub cid: String,
    pub author: ProfileView,
    pub reason: String,
    pub reason_subject: Option<String>,
    pub record: T,
    pub is_read: bool,
    /// Indexing timestamp, RFC 3339 text.
    pub indexed_at: Option<String>,
    pub labels: Vec<String>,
}

/// What a notification points at.
#[derive(Debug, Clone, PartialEq)]
pub enum Subject {
    PostSubject,
    String,
}

/// A post referenced by a notification.
#[derive(Debug, Clone, PartialEq)]
pub struct PostSubject {
    pub cid: String,
    pub uri: String,
    /// Creation timestamp, RFC 3339 text.
    pub created_at: String,
}

/// An actor referenced by a notification, as a DID.
#[derive(Debug, Clone, PartialEq)]
pub struct ActorSubject(pub String);

/// The record kinds that can appear in a notification.
#[derive(Debug, Clone, PartialEq)]
pub enum NotificationRecord {
    Like(Like),
    Post(Post),
    Repost(Repost),
    Follow(Follow),
}

/// One page of a notification listing.
#[derive(Debug, Clone, PartialEq)]
pub struct ListNotificationsOutput<T> {
    pub cursor: Option<String>,
    pub notifications: Vec<Notification<T>>,
}

/// The unread-notification counter.
#[derive(Debug, Clone, PartialEq)]
pub struct NotificationCount {
    pub count: usize,
}

/// The payload that marks notifications as seen.
#[derive(Debug, Clone, PartialEq)]
pub struct UpdateSeen {
    /// The seen timestamp, RFC 3339 text.
    pub seen_at: String,
}

} // verus!
