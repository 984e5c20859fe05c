use juso_lookup::lookup::{Action, Event, Lookup, LookupError, Reply};
use juso_lookup::model::{ResultMetadata, SearchResult};

fn result_with(total_count: i32) -> SearchResult {
    SearchResult {
        metadata: ResultMetadata { total_count, pageable_count: 0, is_end: false },
        items: Vec::new(),
    }
}

fn fetching(keyword: &str) -> Lookup {
    Lookup::Fetching { keyword: keyword.to_string() }
}

#[test]
fn lookup_starts_by_reading_the_cache_at_the_keyword() {
    let (lookup, action) = Lookup::start("카페");
    assert_eq!(lookup, Lookup::CacheCheck { keyword: "카페".to_string() });
    assert_eq!(action, Action::ReadCache { key: "카페".to_string() });
    assert!(!lookup.is_done());
}

#[test]
fn hit_finishes_with_the_cached_value() {
    let (lookup, _) = Lookup::start("카페");
    let (lookup, action) = lookup.step(Event::CacheHit(result_with(4)));
    assert_eq!(action, Some(Action::Finish(Reply::Cached(result_with(4)))));
    assert_eq!(lookup, Lookup::Done);
    assert!(lookup.is_done());
}

#[test]
fn after_a_hit_nothing_more_is_asked() {
    let (lookup, _) = Lookup::start("카페");
    let (mut lookup, _) = lookup.step(Event::CacheHit(result_with(4)));
    let events = vec![
        Event::CacheHit(result_with(1)),
        Event::CacheAbsent,
        Event::CacheUnreadable,
        Event::UpstreamUnreachable,
        Event::UpstreamStatus(200),
        Event::BodyParsed(result_with(1)),
        Event::BodyUnparsable,
        Event::Stored,
    ];
    for event in events {
        let (next, action) = lookup.step(event);
        assert_eq!(action, None);
        assert_eq!(next, Lookup::Done);
        lookup = next;
    }
}

#[test]
fn absent_cache_asks_the_upstream_for_the_keyword() {
    let (lookup, _) = Lookup::start("카페");
    let (lookup, action) = lookup.step(Event::CacheAbsent);
    assert_eq!(action, Some(Action::Fetch { keyword: "카페".to_string() }));
    assert_eq!(lookup, fetching("카페"));
}

#[test]
fn corrupt_cache_entry_proceeds_to_the_upstream() {
    let (lookup, _) = Lookup::start("카페");
    let (lookup, action) = lookup.step(Event::CacheUnreadable);
    assert_eq!(action, Some(Action::Fetch { keyword: "카페".to_string() }));
    assert_eq!(lookup, fetching("카페"));
}

#[test]
fn unreachable_upstream_fails_the_lookup() {
    let (lookup, action) = fetching("k").step(Event::UpstreamUnreachable);
    assert_eq!(action, Some(Action::Finish(Reply::Failed(LookupError::UpstreamUnavailable))));
    assert_eq!(lookup, Lookup::Done);
}

#[test]
fn success_status_asks_for_the_body() {
    let (lookup, action) = fetching("k").step(Event::UpstreamStatus(200));
    assert_eq!(action, Some(Action::ReadBody));
    assert_eq!(lookup, Lookup::ParseAndCache { keyword: "k".to_string() });
}

#[test]
fn other_statuses_pass_through() {
    for status in [0u16, 199, 201, 204, 302, 400, 429, 500, 65535] {
        let (lookup, action) = fetching("k").step(Event::UpstreamStatus(status));
        assert_eq!(action, Some(Action::Finish(Reply::PassThrough { status })));
        assert_eq!(lookup, Lookup::Done);
    }
}

#[test]
fn parsed_body_is_stored_under_the_keyword_for_sixty_seconds() {
    let waiting = Lookup::ParseAndCache { keyword: "카페".to_string() };
    let (lookup, action) = waiting.step(Event::BodyParsed(result_with(3)));
    assert_eq!(
        action,
        Some(Action::Store { key: "카페".to_string(), value: result_with(3), ttl_seconds: 60 })
    );
    assert_eq!(lookup, Lookup::Storing { value: result_with(3) });
    let (lookup, action) = lookup.step(Event::Stored);
    assert_eq!(action, Some(Action::Finish(Reply::Fresh(result_with(3)))));
    assert_eq!(lookup, Lookup::Done);
}

#[test]
fn unparsable_body_fails_the_lookup_without_a_write() {
    let waiting = Lookup::ParseAndCache { keyword: "카페".to_string() };
    let (lookup, action) = waiting.step(Event::BodyUnparsable);
    assert_eq!(
        action,
        Some(Action::Finish(Reply::Failed(LookupError::MalformedUpstreamResponse)))
    );
    assert_eq!(lookup, Lookup::Done);
}

#[test]
fn full_miss_path_takes_four_answers() {
    let (lookup, first) = Lookup::start("a");
    assert_eq!(first, Action::ReadCache { key: "a".to_string() });
    let (lookup, second) = lookup.step(Event::CacheAbsent);
    assert_eq!(second, Some(Action::Fetch { keyword: "a".to_string() }));
    let (lookup, third) = lookup.step(Event::UpstreamStatus(200));
    assert_eq!(third, Some(Action::ReadBody));
    let (lookup, fourth) = lookup.step(Event::BodyParsed(result_with(1)));
    assert_eq!(
        fourth,
        Some(Action::Store { key: "a".to_string(), value: result_with(1), ttl_seconds: 60 })
    );
    let (lookup, last) = lookup.step(Event::Stored);
    assert_eq!(last, Some(Action::Finish(Reply::Fresh(result_with(1)))));
    assert!(lookup.is_done());
}

#[test]
fn an_answer_out_of_turn_changes_nothing() {
    let (lookup, _) = Lookup::start("a");
    let (lookup, action) = lookup.step(Event::UpstreamStatus(200));
    assert_eq!(action, None);
    assert_eq!(lookup, Lookup::CacheCheck { keyword: "a".to_string() });
    let (lookup, action) = lookup.step(Event::Stored);
    assert_eq!(action, None);
    assert_eq!(lookup, Lookup::CacheCheck { keyword: "a".to_string() });

    let (lookup, action) = fetching("a").step(Event::CacheHit(result_with(1)));
    assert_eq!(action, None);
    assert_eq!(lookup, fetching("a"));
    let (lookup, action) = lookup.step(Event::BodyParsed(result_with(1)));
    assert_eq!(action, None);
    assert_eq!(lookup, fetching("a"));

    let waiting = Lookup::ParseAndCache { keyword: "a".to_string() };
    let (lookup, action) = waiting.step(Event::CacheAbsent);
    assert_eq!(action, None);
    assert_eq!(lookup, Lookup::ParseAndCache { keyword: "a".to_string() });

    let storing = Lookup::Storing { value: result_with(2) };
    let (lookup, action) = storing.step(Event::BodyUnparsable);
    assert_eq!(action, None);
    assert_eq!(lookup, Lookup::Storing { value: result_with(2) });
}

#[test]
fn the_upstream_is_asked_at_most_once() {
    let (lookup, _) = Lookup::start("a");
    let (lookup, action) = lookup.step(Event::CacheAbsent);
    assert_eq!(action, Some(Action::Fetch { keyword: "a".to_string() }));
    let (lookup, action) = lookup.step(Event::CacheAbsent);
    assert_eq!(action, None);
    let (_, action) = lookup.step(Event::CacheUnreadable);
    assert_eq!(action, None);
}
