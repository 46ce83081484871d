//! Calls of the app-level namespace: notifications, likes, the social
//! graph, threads and feed generators.
//!
//! Each function here names one endpoint and builds its call; the pager
//! and the transport flow do the rest.

use crate::pager::{opt_text, PageRequest};
use crate::textfmt::{decimal_rep, json_escaped, usize_to_string};
use crate::transport::{
    push_param, query_view, xrpc_get_request, xrpc_post_json_request, HttpMethod, RequestBodyView,
    XrpcRequest, XrpcRequestView,
};
use vstd::prelude::*;

verus! {

/// The query of the unread-notification counter.
pub open spec fn notification_count_query_view(seen_at: Option<Seq<char>>) -> Seq<
    (Seq<char>, Seq<char>),
> {
    match seen_at {
        None => Seq::empty(),
        Some(s) => seq![("seen_at"@, s)],
    }
}

/// Builds the unread-notification counter call; a seen timestamp
/// narrows the count to newer notifications.
pub fn notification_count_request(seen_at: Option<&str>) -> (r: XrpcRequest)
    ensures
        r@ == (XrpcRequestView {
            method: HttpMethod::Get,
            path: "app.bsky.notification.getUnreadCount"@,
            query: notification_count_query_view(
                match seen_at {
                    Some(s) => Some(s@),
                    None => None,
                },
            ),
            body: RequestBodyView::NoBody,
        }),
{
    let mut q: Vec<(String, String)> = Vec::new();
    proof {
        assert(query_view(q@) =~= Seq::<(Seq<char>, Seq<char>)>::empty());
    }
    match seen_at {
        Some(s) => push_param(&mut q, "seen_at", s.to_owned()),
        None => (),
    }
    proof {
        assert(query_view(q@) =~= notification_count_query_view(
            match seen_at {
                Some(s) => Some(s@),
                None => None,
            },
        ));
    }
    xrpc_get_request("app.bsky.notification.getUnreadCount", q)
}

/// The query of one notification-listing page.
pub open spec fn list_notifications_query_view(
    limit: nat,
    cursor: Option<Seq<char>>,
    seen_at: Option<Seq<char>>,
) -> Seq<(Seq<char>, Seq<char>)> {
    let base = seq![("limit"@, decimal_rep(limit))];
    let with_cursor = match cursor {
        None => base,
        Some(c) => base.push(("cursor"@, c)),
    };
    match seen_at {
        None => with_cursor,
        Some(s) => with_cursor.push(("seenAt"@, s)),
    }
}

/// Builds one notification-listing page call from the pager's next
/// request.
pub fn list_notifications_request(seen_at: Option<&str>, page: PageRequest) -> (r: XrpcRequest)
    ensures
        r@ == (XrpcRequestView {
            method: HttpMethod::Get,
            path: "app.bsky.notification.listNotifications"@,
            query: list_notifications_query_view(
                page.limit as nat,
                opt_text(page.cursor),
                match seen_at {
                    Some(s) => Some(s@),
                    None => None,
                },
            ),
            body: RequestBodyView::NoBody,
        }),
{
    let mut q: Vec<(String, String)> = Vec::new();
    proof {
        assert(query_view(q@) =~= Seq::<(Seq<char>, Seq<char>)>::empty());
    }
    push_param(&mut q, "limit", usize_to_string(page.limit));
    match page.cursor {
        Some(c) => push_param(&mut q, "cursor", c),
        None => (),
    }
    match seen_at {
        Some(s) => push_param(&mut q, "seenAt", s.to_owned()),
        None => (),
    }
    proof {
        assert(query_view(q@) =~= list_notifications_query_view(
            page.limit as nat,
            opt_text(page.cursor),
            match seen_at {
                Some(s) => Some(s@),
                None => None,
            },
        ));
    }
    xrpc_get_request("app.bsky.notification.listNotifications", q)
}

/// The body that marks notifications as seen at the given timestamp.
pub open spec fn update_seen_body_text(seen_at: Seq<char>) -> Seq<char> {
    "{\"seenAt\":\""@ + json_escaped(seen_at) + "\"}"@
}

/// Builds the call that marks notifications as seen.  Its response body
/// must be empty; the driver finishes it with
/// [`crate::transport::finish_no_response`].
pub fn update_seen_request(seen_at: &str) -> (r: XrpcRequest)
    ensures
        r@ == (XrpcRequestView {
            method: HttpMethod::Post,
            path: "app.bsky.notification.updateSeen"@,
            query: Seq::empty(),
            body: RequestBodyView::Json(update_seen_body_text(seen_at@)),
        }),
{
    let mut body = String::from_str("{\"seenAt\":\"");
    crate::textfmt::append_json_escaped(&mut body, seen_at);
    body.append("\"}");
    proof {
        assert(body@ =~= update_seen_body_text(seen_at@));
    }
    xrpc_post_json_request("app.bsky.notification.updateSeen", body)
}

/// The query of one like-listing page.
pub open spec fn get_likes_query_view(
    uri: Seq<char>,
    limit: nat,
    cursor: Option<Seq<char>>,
) -> Seq<(Seq<char>, Seq<char>)> {
    let base = seq![("uri"@, uri), ("limit"@, decimal_rep(limit))];
    match cursor {
        None => base,
        Some(c) => base.push(("cursor"@, c)),
    }
}

/// Builds one like-listing page call from the pager's next request.
pub fn get_likes_request(uri: &str, page: PageRequest) -> (r: XrpcRequest)
    ensures
        r@ == (XrpcRequestView {
            method: HttpMethod::Get,
            path: "app.bsky.feed.getLikes"@,
            query: get_likes_query_view(uri@, page.limit as nat, opt_text(page.cursor)),
            body: RequestBodyView::NoBody,
        }),
{
    let mut q: Vec<(String, String)> = Vec::new();
    proof {
        assert(query_view(q@) =~= Seq::<(Seq<char>, Seq<char>)>::empty());
    }
    push_param(&mut q, "uri", uri.to_owned());
    push_param(&mut q, "limit", usize_to_string(page.limit));
    match page.cursor {
        Some(c) => push_param(&mut q, "cursor", c),
        None => (),
    }
    proof {
        assert(query_view(q@) =~= get_likes_query_view(
            uri@,
            page.limit as nat,
            opt_text(page.cursor),
        ));
    }
    xrpc_get_request("app.bsky.feed.getLikes", q)
}

/// The query of one follows or followers page.
pub open spec fn actor_page_query_view(
    actor: Seq<char>,
    limit: nat,
    cursor: Option<Seq<char>>,
) -> Seq<(Seq<char>, Seq<char>)> {
    let base = seq![("actor"@, actor), ("limit"@, decimal_rep(limit))];
    match cursor {
        None => base,
        Some(c) => base.push(("cursor"@, c)),
    }
}

fn actor_page_query(actor: &str, page: PageRequest) -> (q: Vec<(String, String)>)
    ensures
        query_view(q@) == actor_page_query_view(actor@, page.limit as nat, opt_text(page.cursor)),
{
    let mut q: Vec<(String, String)> = Vec::new();
    proof {
        assert(query_view(q@) =~= Seq::<(Seq<char>, Seq<char>)>::empty());
    }
    push_param(&mut q, "actor", actor.to_owned());
    push_param(&mut q, "limit", usize_to_string(page.limit));
    match page.cursor {
        Some(c) => push_param(&mut q, "cursor", c),
        None => (),
    }
    proof {
        assert(query_view(q@) =~= actor_page_query_view(
            actor@,
            page.limit as nat,
            opt_text(page.cursor),
        ));
    }
    q
}

/// Builds one follow-listing page call from the pager's next request.
pub fn get_follows_request(actor: &str, page: PageRequest) -> (r: XrpcRequest)
    ensures
        r@ == (XrpcRequestView {
            method: HttpMethod::Get,
            path: "app.bsky.graph.getFollows"@,
            query: actor_page_query_view(actor@, page.limit as nat, opt_text(page.cursor)),
            body: RequestBodyView::NoBody,
        }),
{
    let q = actor_page_query(actor, page);
    xrpc_get_request("app.bsky.graph.getFollows", q)
}

/// Builds one follower-listing page call from the pager's next request.
pub fn get_followers_request(actor: &str, page: PageRequest) -> (r: XrpcRequest)
    ensures
        r@ == (XrpcRequestView {
            method: HttpMethod::Get,
            path: "app.bsky.graph.getFollowers"@,
            query: actor_page_query_view(actor@, page.limit as nat, opt_text(page.cursor)),
            body: RequestBodyView::NoBody,
        }),
{
    let q = actor_page_query(actor, page);
    xrpc_get_request("app.bsky.graph.getFollowers", q)
}

/// Builds the thread fetch for one post.
pub fn get_post_thread_request(uri: &str) -> (r: XrpcRequest)
    ensures
        r@ == (XrpcRequestView {
            method: HttpMethod::Get,
            path: "app.bsky.feed.getPostThread"@,
            query: seq![("uri"@, uri@)],
            body: RequestBodyView::NoBody,
        }),
{
    let mut q: Vec<(String, String)> = Vec::new();
    proof {
        assert(query_view(q@) =~= Seq::<(Seq<char>, Seq<char>)>::empty());
    }
    push_param(&mut q, "uri", uri.to_owned());
    proof {
        assert(query_view(q@) =~= seq![("uri"@, uri@)]);
    }
    xrpc_get_request("app.bsky.feed.getPostThread", q)
}

/// Builds the profile fetch for one actor.
pub fn get_profile_request(actor: &str) -> (r: XrpcRequest)
    ensures
        r@ == (XrpcRequestView {
            method: HttpMethod::Get,
            path: "app.bsky.actor.getProfile"@,
            query: seq![("actor"@, actor@)],
            body: RequestBodyView::NoBody,
        }),
{
    let mut q: Vec<(String, String)> = Vec::new();
    proof {
        assert(query_view(q@) =~= Seq::<(Seq<char>, Seq<char>)>::empty());
    }
    push_param(&mut q, "actor", actor.to_owned());
    proof {
        assert(query_view(q@) =~= seq![("actor"@, actor@)]);
    }
    xrpc_get_request("app.bsky.actor.getProfile", q)
}

/// Builds the feed-generator self-description fetch.
pub fn describe_feed_generator_request() -> (r: XrpcRequest)
    ensures
        r@ == (XrpcRequestView {
            method: HttpMethod::Get,
            path: "app.bsky.feed.describeFeedGenerator"@,
            query: Seq::empty(),
            body: RequestBodyView::NoBody,
        }),
{
    let q: Vec<(String, String)> = Vec::new();
    proof {
        assert(query_view(q@) =~= Seq::<(Seq<char>, Seq<char>)>::empty());
    }
    xrpc_get_request("app.bsky.feed.describeFeedGenerator", q)
}

/// The query of a feed-skeleton fetch.
pub open spec fn feed_skeleton_query_view(
    feed: Seq<char>,
    limit: Option<nat>,
    cursor: Option<Seq<char>>,
) -> Seq<(Seq<char>, Seq<char>)> {
    let base = seq![("feed"@, feed)];
    let with_limit = match limit {
        None => base,
        Some(n) => base.push(("limit"@, decimal_rep(n))),
    };
    match cursor {
        None => with_limit,
        Some(c) => with_limit.push(("cursor"@, c)),
    }
}

/// Builds a feed-skeleton fetch.  This single call passes the caller's
/// limit through as-is; the service default applies when it is absent.
pub fn get_feed_skeleton_request(feed: &str, limit: Option<usize>, cursor: Option<&str>) -> (r:
    XrpcRequest)
    ensures
        r@ == (XrpcRequestView {
            method: HttpMethod::Get,
            path: "app.bsky.feed.getFeedSkeleton"@,
            query: feed_skeleton_query_view(
                feed@,
                match limit {
                    Some(n) => Some(n as nat),
                    None => None,
                },
                match cursor {
                    Some(c) => Some(c@),
                    None => None,
                },
            ),
            body: RequestBodyView::NoBody,
        }),
{
    let mut q: Vec<(String, String)> = Vec::new();
    proof {
        assert(query_view(q@) =~= Seq::<(Seq<char>, Seq<char>)>::empty());
    }
    push_param(&mut q, "feed", feed.to_owned());
    match limit {
        Some(n) => push_param(&mut q, "limit", usize_to_string(n)),
        None => (),
    }
    match cursor {
        Some(c) => push_param(&mut q, "cursor", c.to_owned()),
        None => (),
    }
    proof {
        assert(query_view(q@) =~= feed_skeleton_query_view(
            feed@,
            match limit {
                Some(n) => Some(n as nat),
                None => None,
            },
            match cursor {
                Some(c) => Some(c@),
                None => None,
            },
        ));
    }
    xrpc_get_request("app.bsky.feed.getFeedSkeleton", q)
}

/// Builds a feed-generator fetch.
pub fn get_feed_generator_request(feed: &str) -> (r: XrpcRequest)
    ensures
        r@ == (XrpcRequestView {
            method: HttpMethod::Get,
            path: "app.bsky.feed.getFeedGenerator"@,
            query: seq![("feed"@, feed@)],
            body: RequestBodyView::NoBody,
        }),
{
    let mut q: Vec<(String, String)> = Vec::new();
    proof {
        assert(query_view(q@) =~= Seq::<(Seq<char>, Seq<char>)>::empty());
    }
    push_param(&mut q, "feed", feed.to_owned());
    proof {
        assert(query_view(q@) =~= seq![("feed"@, feed@)]);
    }
    xrpc_get_request("app.bsky.feed.getFeedGenerator", q)
}

} // verus!
