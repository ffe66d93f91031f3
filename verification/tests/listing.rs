use hn_reader::category::Category;
use hn_reader::fetch::{ApiError, FetchSession, STORY_LIMIT};
use hn_reader::story::Story;

fn story(id: u64, time: u64) -> Story {
    Story {
        id,
        title: format!("story {}", id),
        url: None,
        by: "author".to_string(),
        score: 10,
        time,
        descendants: Some(0),
    }
}

#[test]
fn category_endpoints() {
    assert_eq!(Category::Top.api_endpoint(), "topstories");
    assert_eq!(Category::New.api_endpoint(), "newstories");
    assert_eq!(Category::Best.api_endpoint(), "beststories");
    assert_eq!(Category::Ask.api_endpoint(), "askstories");
    assert_eq!(Category::Show.api_endpoint(), "showstories");
    assert_eq!(Category::Jobs.api_endpoint(), "jobstories");
}

#[test]
fn category_display_names() {
    assert_eq!(Category::Top.display_name(), "Top");
    assert_eq!(Category::New.display_name(), "New");
    assert_eq!(Category::Best.display_name(), "Best");
    assert_eq!(Category::Ask.display_name(), "Ask");
    assert_eq!(Category::Show.display_name(), "Show");
    assert_eq!(Category::Jobs.display_name(), "Jobs");
}

#[test]
fn category_default_and_all() {
    assert_eq!(Category::default(), Category::Top);
    let all = Category::all();
    assert_eq!(
        all,
        vec![
            Category::Top,
            Category::New,
            Category::Best,
            Category::Ask,
            Category::Show,
            Category::Jobs
        ]
    );
}

#[test]
fn list_failure_is_transport_error() {
    // A failed identifier-list request fails the whole fetch; no session
    // exists on which an item request could be made.
    let r = FetchSession::begin(Err("connection timed out".to_string()));
    match r {
        Err(ApiError::Request(msg)) => assert_eq!(msg, "connection timed out"),
        _ => panic!("expected a transport error"),
    }
}

#[test]
fn api_error_messages() {
    let e = ApiError::Request("boom".to_string());
    assert_eq!(e.message(), "Request error: boom");
    let p = ApiError::Parse("bad json".to_string());
    assert_eq!(p.message(), "Parse error: bad json");
}

#[test]
fn fetch_truncates_to_limit() {
    // 50 ranked identifiers: only the first 30 are requested.
    let ids: Vec<u64> = (1..=50).collect();
    let mut session = FetchSession::begin(Ok(ids)).unwrap();
    let mut requested = Vec::new();
    while let Some(id) = session.next_request() {
        requested.push(id);
        session.record(Some(story(id, 1000 + id)));
    }
    assert_eq!(requested.len(), STORY_LIMIT);
    assert_eq!(requested, (1..=30).collect::<Vec<u64>>());
    let stories = session.finish();
    assert_eq!(stories.len(), 30);
    for (k, s) in stories.iter().enumerate() {
        assert_eq!(s.id, k as u64 + 1);
    }
}

#[test]
fn failed_items_are_skipped_in_order() {
    // Of 30 requested items, 5 fail: exactly 25 survive, in request order.
    let ids: Vec<u64> = (1..=30).collect();
    let mut session = FetchSession::begin(Ok(ids)).unwrap();
    let mut failed = 0;
    while let Some(id) = session.next_request() {
        if id % 6 == 0 {
            failed += 1;
            session.record(None);
        } else {
            session.record(Some(story(id, 2000)));
        }
    }
    assert_eq!(failed, 5);
    let stories = session.finish();
    assert_eq!(stories.len(), 25);
    let expected: Vec<u64> = (1..=30).filter(|id| id % 6 != 0).collect();
    let got: Vec<u64> = stories.iter().map(|s| s.id).collect();
    assert_eq!(got, expected);
}

#[test]
fn all_items_failing_is_success_with_empty_list() {
    let ids: Vec<u64> = vec![7, 8, 9];
    let mut session = FetchSession::begin(Ok(ids)).unwrap();
    while let Some(_id) = session.next_request() {
        session.record(None);
    }
    let stories = session.finish();
    assert!(stories.is_empty());
}

#[test]
fn short_list_is_not_padded() {
    let ids: Vec<u64> = vec![3, 1, 2];
    let mut session = FetchSession::begin(Ok(ids)).unwrap();
    let mut requested = Vec::new();
    while let Some(id) = session.next_request() {
        requested.push(id);
        session.record(Some(story(id, 10)));
    }
    assert_eq!(requested, vec![3, 1, 2]);
    assert_eq!(session.finish().len(), 3);
}
