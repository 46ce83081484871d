use bisky::pager::{Page, Pager, PageRequest};

/// Serves pages from a fixed collection the way the service does:
/// at most the requested amount, starting where the cursor points.
fn serve(collection: &[u32], request: &PageRequest) -> Page<u32> {
    let start: usize = match &request.cursor {
        None => 0,
        Some(c) => c.parse().unwrap(),
    };
    let end = (start + request.limit).min(collection.len());
    Page {
        items: collection[start..end].to_vec(),
        cursor: if end > start { Some(end.to_string()) } else { None },
    }
}

#[test]
fn pager_limit_250_over_180_items() {
    // Scenario: limit 250 against a collection of exactly 180 items.
    // Two item-bearing fetches (100 + 80) come back, the items arrive
    // in server order, and the returned cursor is the 80-item page's.
    let collection: Vec<u32> = (0..180).collect();
    let mut pager: Pager<u32> = Pager::new(250, None);
    let mut fetches = 0;
    let mut item_bearing = 0;
    while let Some(request) = pager.next_request() {
        fetches += 1;
        let page = serve(&collection, &request);
        if !page.items.is_empty() {
            item_bearing += 1;
        }
        assert!(page.items.len() <= request.limit);
        pager.on_page(page);
    }
    assert_eq!(item_bearing, 2);
    assert!(fetches <= 3); // never more than ⌈250/100⌉ requests
    let (items, cursor) = pager.into_results();
    assert_eq!(items.len(), 180);
    let expected: Vec<u32> = (0..180).collect();
    assert_eq!(items, expected);
    assert_eq!(cursor.as_deref(), Some("180"));
}

#[test]
fn pager_never_returns_more_than_the_limit() {
    let collection: Vec<u32> = (0..500).collect();
    let mut pager: Pager<u32> = Pager::new(250, None);
    let mut fetches = 0;
    while let Some(request) = pager.next_request() {
        fetches += 1;
        assert!(request.limit <= 100);
        pager.on_page(serve(&collection, &request));
    }
    assert_eq!(fetches, 3); // exactly ⌈250/100⌉ on a full collection
    let (items, cursor) = pager.into_results();
    assert_eq!(items.len(), 250);
    assert_eq!(items[249], 249);
    assert_eq!(cursor.as_deref(), Some("250"));
}

#[test]
fn pager_empty_first_page_ends_the_run() {
    let mut pager: Pager<u32> = Pager::new(50, Some("resume".to_string()));
    let request = pager.next_request().unwrap();
    assert_eq!(request.limit, 50);
    assert_eq!(request.cursor.as_deref(), Some("resume"));
    let more = pager.on_page(Page { items: Vec::new(), cursor: None });
    assert!(!more);
    assert!(pager.next_request().is_none());
    let (items, cursor) = pager.into_results();
    assert!(items.is_empty());
    // The last known cursor survives an empty page.
    assert_eq!(cursor.as_deref(), Some("resume"));
}

#[test]
fn pager_limit_zero_asks_for_nothing() {
    let pager: Pager<u32> = Pager::new(0, None);
    assert!(pager.next_request().is_none());
    let (items, cursor) = pager.into_results();
    assert!(items.is_empty());
    assert!(cursor.is_none());
}

#[test]
fn pager_unbounded_fetches_until_an_empty_page() {
    // An effectively unbounded limit drains the whole collection and
    // stops at the first empty page.
    let collection: Vec<u32> = (0..230).collect();
    let mut pager: Pager<u32> = Pager::new(usize::MAX, None);
    while let Some(request) = pager.next_request() {
        pager.on_page(serve(&collection, &request));
    }
    let (items, _cursor) = pager.into_results();
    assert_eq!(items.len(), 230);
}

#[test]
fn pager_adopts_each_pages_cursor() {
    let mut pager: Pager<u32> = Pager::new(250, None);
    let first = pager.next_request().unwrap();
    assert!(first.cursor.is_none());
    assert_eq!(first.limit, 100);
    pager.on_page(Page { items: (0..100).collect(), cursor: Some("c100".to_string()) });
    let second = pager.next_request().unwrap();
    assert_eq!(second.cursor.as_deref(), Some("c100"));
    assert_eq!(second.limit, 100);
    // A page with items but no cursor: the pager continues without one.
    let more = pager.on_page(Page { items: (100..180).collect(), cursor: None });
    assert!(more);
    let third = pager.next_request().unwrap();
    assert!(third.cursor.is_none());
    assert_eq!(third.limit, 70);
}
