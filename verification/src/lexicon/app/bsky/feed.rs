//! Feed payloads: posts, likes, threads and feed generators.

use crate::lexicon::app::bsky::actor::ProfileView;
use crate::lexicon::app::bsky::embed::{External, Image};
use crate::lexicon::app::bsky::richtext::facet::Facet;
use crate::lexicon::com::atproto::repo::StrongRef;
use vstd::prelude::*;

verus! {

/// The images attached to a post.
#[derive(Debug, Clone, PartialEq)]
pub struct ImagesEmbed {
    pub images: Vec<Image>,
}

/// The embed kinds a post can carry.
#[derive(Debug, Clone, PartialEq)]
pub enum Embeds {
    Images(ImagesEmbed),
    External(External),
    TodoRecord,
    TodoRecordWithMedia,
}

/// A post record.
#[derive(Debug, Clone, PartialEq)]
pub struct Post {
    /// Creation timestamp, RFC 3339 text.
    pub created_at: String,
    pub rust_type: Option<String>,
    pub text: String,
    pub embed: Option<Embeds>,
    pub reply: Option<ReplyRef>,
}

/// A compact author profile inside feed views.
#[derive(Debug, Clone, PartialEq)]
pub struct ProfileViewBasic {
    pub did: String,
    pub handle: String,
}

/// A stored post with its author.
#[derive(Debug, Clone, PartialEq)]
pub struct PostView {
    pub uri: String,
    pub cid: String,
    pub author: ProfileViewBasic,
    pub record: Post,
    /// Indexing timestamp, RFC 3339 text.
    pub indexed_at: String,
}

/// Why a post appears in a feed: it was reposted.
#[derive(Debug, Clone, PartialEq)]
pub struct ReasonRepost {
    pub by: ProfileViewBasic,
    /// Indexing timestamp, RFC 3339 text.
    pub indexed_at: String,
}

/// One entry of an author feed.
#[derive(Debug, Clone, PartialEq)]
pub struct FeedViewPost {
    pub post: PostView,
    pub reason: Option<ReasonRepost>,
}

/// One page of an author feed.
#[derive(Debug, Clone, PartialEq)]
pub struct AuthorFeed {
    pub cursor: Option<String>,
    pub feed: Vec<FeedViewPost>,
}

/// A like record.
#[derive(Debug, Clone, PartialEq)]
pub struct Like {
    /// Creation timestamp, RFC 3339 text.
    pub created_at: String,
    pub subject: StrongRef,
}

/// One like as returned by the like listing.
#[derive(Debug, Clone, PartialEq)]
pub struct GetLikesLike {
    /// Creation timestamp, RFC 3339 text.
    pub created_at: String,
    /// Indexing timestamp, RFC 3339 text.
    pub indexed_at: String,
    pub actor: ProfileView,
}

/// A repost record.
#[derive(Debug, Clone, PartialEq)]
pub struct Repost {
    /// Creation timestamp, RFC 3339 text.
    pub created_at: String,
    pub subject: StrongRef,
}

/// The thread position of a reply.
#[derive(Debug, Clone, PartialEq)]
pub struct ReplyRef {
    pub root: StrongRef,
    pub parent: StrongRef,
}

/// The query of a like listing.
#[derive(Debug, Clone, PartialEq)]
pub struct GetLikes {
    pub uri: String,
    pub cid: Option<String>,
    pub limit: Option<usize>,
    pub cursor: Option<String>,
}

/// One page of a like listing.
#[derive(Debug, Clone, PartialEq)]
pub struct GetLikesOutput {
    pub uri: String,
    pub cid: Option<String>,
    pub likes: Vec<GetLikesLike>,
    pub cursor: Option<String>,
}

/// A thread node holding a post.
#[derive(Debug, Clone, PartialEq)]
pub struct ThreadViewPost {
    pub post: PostView,
}

/// A thread node whose post is gone.
#[derive(Debug, Clone, PartialEq)]
pub struct NotFoundPost {
    pub uri: String,
    pub not_found: bool,
}

/// A thread node: present or deleted.
#[derive(Debug, Clone, PartialEq)]
pub enum ThreadViewPostEnum {
    ThreadViewPost(ThreadViewPost),
    NotFoundPost(NotFoundPost),
}

/// The query of a thread fetch.
#[derive(Debug, Clone, PartialEq)]
pub struct GetPostThread {
    pub uri: String,
    pub depth: Option<usize>,
}

/// The response of a thread fetch.
#[derive(Debug, Clone, PartialEq)]
pub struct GetPostThreadOutput {
    pub thread: ThreadViewPostEnum,
}

/// One feed offered by a feed generator.
#[derive(Debug, Clone, PartialEq)]
pub struct Feed {
    /// Format: at-uri.
    pub uri: String,
}

/// Policy links of a feed generator.
#[derive(Debug, Clone, PartialEq)]
pub struct Links {
    pub privacy_policy: Option<String>,
    pub terms_of_service: Option<String>,
}

/// The self-description of a feed generator, including its terms of
/// service and the feed URIs it offers.
#[derive(Debug, Clone, PartialEq)]
pub struct DescribeFeedGeneratorOutput {
    /// Format: did.
    pub did: String,
    pub feeds: Vec<Feed>,
    pub links: Option<Links>,
}

/// The query of a feed-skeleton fetch.
#[derive(Debug, Clone, PartialEq)]
pub struct GetFeedSkeleton {
    pub feed: String,
    /// Between 1 and 100; the service default is 50.
    pub limit: Option<usize>,
    pub cursor: Option<String>,
}

/// Why a skeleton entry appears in a feed.
#[derive(Debug, Clone, PartialEq)]
#[non_exhaustive]
pub enum SkeletonFeedPostReason {
    SkeletonReasonRepost(SkeletonReasonRepost),
}

/// A repost reference inside a feed skeleton.
#[derive(Debug, Clone, PartialEq)]
pub struct SkeletonReasonRepost {
    /// Format: at-uri.
    pub repost: String,
}

/// One entry of a feed skeleton.
#[derive(Debug, Clone, PartialEq)]
pub struct SkeletonFeedPost {
    pub post: String,
}

/// One page of a feed skeleton.
#[derive(Debug, Clone, PartialEq)]
pub struct GetFeedSkeletonOutput {
    pub feed: Vec<SkeletonFeedPost>,
    pub cursor: Option<String>,
}

/// The caller's relation to a feed generator.
#[derive(Debug, Clone, PartialEq)]
pub struct GeneratorViewState {
    pub like: String,
}

/// A feed generator as returned by a generator fetch.
#[derive(Debug, Clone, PartialEq)]
pub struct GeneratorView {
    pub uri: String,
    pub cid: String,
    pub did: String,
    pub creator: ProfileView,
    pub display_name: String,
    /// Indexing timestamp, RFC 3339 text.
    pub indexed_at: String,
    pub description: Option<String>,
    pub description_facets: Option<Vec<Facet>>,
    pub avatar: Option<String>,
    pub like_count: usize,
    pub viewer: Option<GeneratorViewState>,
}

/// A declaration of the existence of a feed generator.
#[derive(Debug, Clone, PartialEq)]
pub struct Generator {
    /// Format: did.
    pub did: String,
    pub display_name: String,
    pub description: Option<String>,
    /// Creation timestamp, RFC 3339 text.
    pub created_at: Option<String>,
    pub avatar: Option<Image>,
    pub description_facets: Option<Vec<Facet>>,
}

/// The query of a feed-generator fetch.
#[derive(Debug, Clone, PartialEq)]
pub struct GetFeedGenerator {
    /// Format: at-uri.
    pub feed: String,
}

/// The response of a feed-generator fetch.
#[derive(Debug, Clone, PartialEq)]
pub struct GetFeedGeneratorOutput {
    pub view: GeneratorView,
    pub is_online: bool,
    pub is_valid: bool,
}

} // verus!
