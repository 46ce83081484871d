use bisky::atproto::{
    repo_create_record_request, repo_list_records_request, repo_put_record_request,
    repo_upload_blob_request, ClientBuilder, Jwt, UserSession,
};
use bisky::bluesky::{
    describe_feed_generator_request, get_feed_generator_request, get_feed_skeleton_request,
    get_followers_request, get_follows_request, get_likes_request, get_post_thread_request,
    get_profile_request, list_notifications_request, notification_count_request,
    update_seen_request,
};
use bisky::firehose::{frame_kind, FrameKind, Header};
use bisky::lexicon::com::atproto::server::{CreateUserSession, RefreshUserSession};
use bisky::pager::PageRequest;
use bisky::storage::File;
use bisky::textfmt::{bool_to_string, usize_to_string};
use bisky::transport::{HttpMethod, RequestBody};

fn pairs(q: &[(String, String)]) -> Vec<(&str, &str)> {
    q.iter().map(|p| (p.0.as_str(), p.1.as_str())).collect()
}

#[test]
fn decimal_rendering_is_exact() {
    assert_eq!(usize_to_string(0), "0");
    assert_eq!(usize_to_string(7), "7");
    assert_eq!(usize_to_string(42), "42");
    assert_eq!(usize_to_string(100), "100");
    assert_eq!(usize_to_string(99999), "99999");
    assert_eq!(usize_to_string(usize::MAX), usize::MAX.to_string());
}

#[test]
fn boolean_rendering_is_exact() {
    assert_eq!(bool_to_string(true), "true");
    assert_eq!(bool_to_string(false), "false");
}

#[test]
fn builder_defaults_to_flagship_service_and_no_session() {
    let client = ClientBuilder::new().build();
    assert_eq!(client.service, "https://bsky.social");
    assert!(client.session.is_none());
}

#[test]
fn builder_takes_service_and_session() {
    let mut builder = ClientBuilder::new();
    builder.service("https://pds.example".to_string()).session(Some(UserSession {
        did: "did:plc:alice".to_string(),
        handle: "alice.example".to_string(),
        jwt: Jwt { access: "a".to_string(), refresh: "r".to_string() },
    }));
    let client = builder.build();
    assert_eq!(client.service, "https://pds.example");
    assert_eq!(client.session.unwrap().did, "did:plc:alice");
}

#[test]
fn session_is_built_whole_from_login_and_refresh_responses() {
    let created: UserSession = CreateUserSession {
        did: "did:plc:alice".to_string(),
        email: "alice@example.com".to_string(),
        handle: "alice.example".to_string(),
        access_jwt: "a1".to_string(),
        refresh_jwt: "r1".to_string(),
    }
    .into();
    assert_eq!(created.did, "did:plc:alice");
    assert_eq!(created.handle, "alice.example");
    assert_eq!(created.jwt.access, "a1");
    assert_eq!(created.jwt.refresh, "r1");

    let refreshed: UserSession = RefreshUserSession {
        did: "did:plc:alice".to_string(),
        handle: "alice.example".to_string(),
        access_jwt: "a2".to_string(),
        refresh_jwt: "r2".to_string(),
    }
    .into();
    assert_eq!(refreshed.jwt.access, "a2");
    assert_eq!(refreshed.jwt.refresh, "r2");
}

#[test]
fn list_records_query_is_exact() {
    let request = repo_list_records_request(
        "did:plc:alice",
        "app.bsky.feed.post",
        true,
        PageRequest { limit: 100, cursor: Some("c7".to_string()) },
    );
    assert!(matches!(request.method, HttpMethod::Get));
    assert_eq!(request.path, "com.atproto.repo.listRecords");
    assert_eq!(
        pairs(&request.query),
        vec![
            ("repo", "did:plc:alice"),
            ("collection", "app.bsky.feed.post"),
            ("reverse", "true"),
            ("limit", "100"),
            ("cursor", "c7"),
        ]
    );
    assert!(matches!(request.body, RequestBody::NoBody));

    let without_cursor = repo_list_records_request(
        "did:plc:alice",
        "app.bsky.feed.post",
        false,
        PageRequest { limit: 1, cursor: None },
    );
    assert_eq!(
        pairs(&without_cursor.query),
        vec![
            ("repo", "did:plc:alice"),
            ("collection", "app.bsky.feed.post"),
            ("reverse", "false"),
            ("limit", "1"),
        ]
    );
}

#[test]
fn create_record_body_frames_the_record_verbatim() {
    let request = repo_create_record_request(
        "did:plc:alice",
        "app.bsky.feed.post",
        "{\"text\":\"hello\"}",
    );
    assert_eq!(request.path, "com.atproto.repo.createRecord");
    let body = match request.body {
        RequestBody::Json(s) => s,
        _ => panic!("expected a JSON body"),
    };
    assert_eq!(
        body,
        "{\"repo\":\"did:plc:alice\",\"collection\":\"app.bsky.feed.post\",\"record\":{\"text\":\"hello\"}}"
    );
    let v: serde_json::Value = serde_json::from_str(&body).unwrap();
    assert_eq!(
        v.get("record").unwrap().get("text").unwrap().as_str().unwrap(),
        "hello"
    );
}

#[test]
fn put_record_body_leaves_unset_fields_out() {
    let bare = repo_put_record_request(
        "did:plc:alice",
        "app.bsky.feed.post",
        "3k2a",
        None,
        "{\"text\":\"hi\"}",
        None,
        None,
    );
    let body = match bare.body {
        RequestBody::Json(s) => s,
        _ => panic!("expected a JSON body"),
    };
    assert_eq!(
        body,
        "{\"repo\":\"did:plc:alice\",\"collection\":\"app.bsky.feed.post\",\"rkey\":\"3k2a\",\"record\":{\"text\":\"hi\"}}"
    );

    let full = repo_put_record_request(
        "did:plc:alice",
        "app.bsky.feed.post",
        "3k2a",
        Some(false),
        "{\"text\":\"hi\"}",
        Some("cid-old"),
        Some("cid-commit"),
    );
    let body = match full.body {
        RequestBody::Json(s) => s,
        _ => panic!("expected a JSON body"),
    };
    assert_eq!(
        body,
        "{\"repo\":\"did:plc:alice\",\"collection\":\"app.bsky.feed.post\",\"rkey\":\"3k2a\",\"validate\":false,\"record\":{\"text\":\"hi\"},\"swapRecord\":\"cid-old\",\"swapCommit\":\"cid-commit\"}"
    );
    assert_eq!(full.path, "com.atproto.repo.putRecord");
}

#[test]
fn upload_blob_carries_bytes_and_content_type() {
    let request = repo_upload_blob_request(vec![1, 2, 3], "image/png");
    assert_eq!(request.path, "com.atproto.repo.uploadBlob");
    match request.body {
        RequestBody::Binary(bytes, mime) => {
            assert_eq!(bytes, vec![1, 2, 3]);
            assert_eq!(mime, "image/png");
        },
        _ => panic!("expected a binary body"),
    }
}

#[test]
fn notification_queries_are_exact() {
    let count = notification_count_request(Some("2024-01-01T00:00:00Z"));
    assert_eq!(count.path, "app.bsky.notification.getUnreadCount");
    assert_eq!(pairs(&count.query), vec![("seen_at", "2024-01-01T00:00:00Z")]);
    assert!(notification_count_request(None).query.is_empty());

    let list = list_notifications_request(
        Some("2024-01-01T00:00:00Z"),
        PageRequest { limit: 100, cursor: Some("c1".to_string()) },
    );
    assert_eq!(list.path, "app.bsky.notification.listNotifications");
    assert_eq!(
        pairs(&list.query),
        vec![
            ("limit", "100"),
            ("cursor", "c1"),
            ("seenAt", "2024-01-01T00:00:00Z"),
        ]
    );
}

#[test]
fn update_seen_body_is_exact() {
    let request = update_seen_request("2024-01-01T00:00:00Z");
    assert_eq!(request.path, "app.bsky.notification.updateSeen");
    match request.body {
        RequestBody::Json(s) => assert_eq!(s, "{\"seenAt\":\"2024-01-01T00:00:00Z\"}"),
        _ => panic!("expected a JSON body"),
    }
}

#[test]
fn graph_and_feed_queries_are_exact() {
    let likes = get_likes_request(
        "at://did:plc:alice/app.bsky.feed.post/3k2a",
        PageRequest { limit: 50, cursor: None },
    );
    assert_eq!(likes.path, "app.bsky.feed.getLikes");
    assert_eq!(
        pairs(&likes.query),
        vec![("uri", "at://did:plc:alice/app.bsky.feed.post/3k2a"), ("limit", "50")]
    );

    let follows = get_follows_request("did:plc:alice", PageRequest {
        limit: 100,
        cursor: Some("f1".to_string()),
    });
    assert_eq!(follows.path, "app.bsky.graph.getFollows");
    assert_eq!(
        pairs(&follows.query),
        vec![("actor", "did:plc:alice"), ("limit", "100"), ("cursor", "f1")]
    );

    let followers = get_followers_request("did:plc:alice", PageRequest { limit: 25, cursor: None });
    assert_eq!(followers.path, "app.bsky.graph.getFollowers");
    assert_eq!(pairs(&followers.query), vec![("actor", "did:plc:alice"), ("limit", "25")]);

    let thread = get_post_thread_request("at://uri");
    assert_eq!(thread.path, "app.bsky.feed.getPostThread");
    assert_eq!(pairs(&thread.query), vec![("uri", "at://uri")]);

    let profile = get_profile_request("alice.example");
    assert_eq!(profile.path, "app.bsky.actor.getProfile");
    assert_eq!(pairs(&profile.query), vec![("actor", "alice.example")]);

    let describe = describe_feed_generator_request();
    assert_eq!(describe.path, "app.bsky.feed.describeFeedGenerator");
    assert!(describe.query.is_empty());

    let skeleton = get_feed_skeleton_request("at://feed", Some(40), Some("s1"));
    assert_eq!(skeleton.path, "app.bsky.feed.getFeedSkeleton");
    assert_eq!(
        pairs(&skeleton.query),
        vec![("feed", "at://feed"), ("limit", "40"), ("cursor", "s1")]
    );
    let bare_skeleton = get_feed_skeleton_request("at://feed", None, None);
    assert_eq!(pairs(&bare_skeleton.query), vec![("feed", "at://feed")]);

    let generator = get_feed_generator_request("at://feed");
    assert_eq!(generator.path, "app.bsky.feed.getFeedGenerator");
    assert_eq!(pairs(&generator.query), vec![("feed", "at://feed")]);
}

#[test]
fn file_store_keeps_its_path() {
    let file = File::new("/tmp/session.json".to_string());
    assert_eq!(file.path, "/tmp/session.json");
}

#[test]
fn frame_kinds_follow_the_type_tag() {
    let commit = Header { type_: "#commit".to_string(), operation: 1 };
    let handle = Header { type_: "#handle".to_string(), operation: 1 };
    let other = Header { type_: "#info".to_string(), operation: 1 };
    assert_eq!(frame_kind(&commit), Some(FrameKind::Commit));
    assert_eq!(frame_kind(&handle), Some(FrameKind::Handle));
    assert_eq!(frame_kind(&other), None);
}
