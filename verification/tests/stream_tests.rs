use bisky::errors::{BiskyError, StreamError};
use bisky::stream::{LiveStream, StreamStep};

/// Drives one `next` attempt the way the HTTP driver does: deliver from
/// the buffer when it holds anything, otherwise hand the fetch outcome
/// to the stream — except that a failed fetch never reaches it.
fn drive_next(
    stream: &mut LiveStream<String>,
    fetch: Result<(Vec<String>, Option<String>), String>,
) -> Result<StreamStep<String>, String> {
    if let Some(item) = stream.pop_buffered() {
        return Ok(StreamStep::Item(item));
    }
    match fetch {
        Err(e) => Err(e),
        Ok((items, cursor)) => Ok(stream.on_fetch(items, cursor)),
    }
}

fn three_items() -> Vec<String> {
    vec!["one".to_string(), "two".to_string(), "three".to_string()]
}

#[test]
fn stream_bootstrap_needs_a_cursor() {
    match LiveStream::<String>::bootstrap(None) {
        Err(StreamError::NoCursor) => (),
        _ => panic!("expected NoCursor"),
    }
    let stream = LiveStream::<String>::bootstrap(Some("c0".to_string())).unwrap();
    assert_eq!(stream.cursor, "c0");
    assert!(stream.queue.is_empty());
}

#[test]
fn stream_delivers_three_items_then_polls() {
    // Scenario: three existing items behind cursor "c0"; the first three
    // `next` calls deliver them in server order, and a fourth call that
    // sees an empty upstream page waits instead of erroring.
    let mut stream = LiveStream::<String>::bootstrap(Some("c0".to_string())).unwrap();

    match drive_next(&mut stream, Ok((three_items(), Some("c3".to_string())))).unwrap() {
        StreamStep::Item(x) => assert_eq!(x, "one"),
        _ => panic!("expected the first item"),
    }
    assert_eq!(stream.cursor, "c3");

    match drive_next(&mut stream, Ok((Vec::new(), None))).unwrap() {
        StreamStep::Item(x) => assert_eq!(x, "two"),
        _ => panic!("expected the second item, buffered"),
    }
    match drive_next(&mut stream, Ok((Vec::new(), None))).unwrap() {
        StreamStep::Item(x) => assert_eq!(x, "three"),
        _ => panic!("expected the third item, buffered"),
    }

    // The buffer is drained; an empty upstream page means wait-and-poll.
    match drive_next(&mut stream, Ok((Vec::new(), Some("c3".to_string())))).unwrap() {
        StreamStep::Wait => (),
        _ => panic!("an empty page polls, it does not error"),
    }
    assert_eq!(stream.cursor, "c3");
}

#[test]
fn stream_items_without_cursor_are_fatal() {
    let mut stream = LiveStream::<String>::bootstrap(Some("c0".to_string())).unwrap();
    match stream.on_fetch(three_items(), None) {
        StreamStep::NoCursor => (),
        _ => panic!("expected NoCursor"),
    }
    // The fatal answer changed nothing.
    assert_eq!(stream.cursor, "c0");
    assert!(stream.queue.is_empty());
}

#[test]
fn stream_next_is_idempotent_under_transient_failure() {
    // A failed fetch leaves the cursor alone, so retrying `next`
    // delivers exactly the item the failed call would have delivered.
    let mut failing = LiveStream::<String>::bootstrap(Some("c0".to_string())).unwrap();
    let mut direct = LiveStream::<String>::bootstrap(Some("c0".to_string())).unwrap();

    let err = drive_next(&mut failing, Err("connection reset".to_string()));
    assert_eq!(err.unwrap_err(), "connection reset");
    assert_eq!(failing.cursor, "c0");
    assert!(failing.queue.is_empty());

    let retried = drive_next(&mut failing, Ok((three_items(), Some("c3".to_string()))));
    let straight = drive_next(&mut direct, Ok((three_items(), Some("c3".to_string()))));
    match (retried.unwrap(), straight.unwrap()) {
        (StreamStep::Item(a), StreamStep::Item(b)) => assert_eq!(a, b),
        _ => panic!("both attempts deliver the same item"),
    }
    assert_eq!(failing.cursor, direct.cursor);
    let rest_failing: Vec<String> = failing.queue.iter().cloned().collect();
    let rest_direct: Vec<String> = direct.queue.iter().cloned().collect();
    assert_eq!(rest_failing, rest_direct);
}

#[test]
fn stream_error_wraps_transport_errors() {
    let e = StreamError::from(BiskyError::BadCredentials);
    assert!(matches!(e, StreamError::Bisky(BiskyError::BadCredentials)));
}
