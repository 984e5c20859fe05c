use juso_lookup::model::{ResultItem, ResultMetadata, SearchResult};
use juso_lookup::store::CacheStore;

fn result_with(total_count: i32) -> SearchResult {
    SearchResult {
        metadata: ResultMetadata { total_count, pageable_count: 1, is_end: true },
        items: vec![ResultItem {
            id: "42".to_string(),
            name: "n".to_string(),
            category_name: "c".to_string(),
            category_group_code: "g".to_string(),
            category_group_name: "gn".to_string(),
            phone: "p".to_string(),
            address_name: "a".to_string(),
            road_address_name: "r".to_string(),
            x: "127.0".to_string(),
            y: "37.5".to_string(),
            url: "u".to_string(),
            distance: "d".to_string(),
        }],
    }
}

#[test]
fn new_store_holds_nothing() {
    let store = CacheStore::new();
    assert_eq!(store.get("a", 0), None);
    assert_eq!(store.get("", 0), None);
    assert_eq!(store.get("a", u64::MAX), None);
}

#[test]
fn put_then_get_returns_an_equal_value() {
    let mut store = CacheStore::new();
    store.put("a", result_with(1), 60, 100);
    assert_eq!(store.get("a", 100), Some(result_with(1)));
    assert_eq!(store.get("a", 130), Some(result_with(1)));
}

#[test]
fn entry_lives_for_exactly_its_ttl() {
    let mut store = CacheStore::new();
    store.put("a", result_with(1), 60, 100);
    assert_eq!(store.get("a", 159), Some(result_with(1)));
    assert_eq!(store.get("a", 160), None);
    assert_eq!(store.get("a", 161), None);
    assert_eq!(store.get("a", u64::MAX), None);
}

#[test]
fn zero_ttl_is_never_found() {
    let mut store = CacheStore::new();
    store.put("a", result_with(1), 0, 100);
    assert_eq!(store.get("a", 100), None);
    assert_eq!(store.get("a", 99), None);
}

#[test]
fn a_clock_that_reads_earlier_counts_no_time_as_passed() {
    let mut store = CacheStore::new();
    store.put("a", result_with(1), 1, 100);
    assert_eq!(store.get("a", 0), Some(result_with(1)));
    assert_eq!(store.get("a", 99), Some(result_with(1)));
    assert_eq!(store.get("a", 100), Some(result_with(1)));
    assert_eq!(store.get("a", 101), None);
}

#[test]
fn ttl_near_the_end_of_time_does_not_wrap() {
    let mut store = CacheStore::new();
    store.put("a", result_with(1), u64::MAX, u64::MAX - 1);
    assert_eq!(store.get("a", u64::MAX), Some(result_with(1)));
    store.put("b", result_with(2), 60, u64::MAX);
    assert_eq!(store.get("b", u64::MAX), Some(result_with(2)));
    assert_eq!(store.get("b", 0), Some(result_with(2)));
}

#[test]
fn put_replaces_the_entry_whole() {
    let mut store = CacheStore::new();
    store.put("a", result_with(1), 60, 100);
    store.put("a", result_with(2), 10, 150);
    assert_eq!(store.get("a", 150), Some(result_with(2)));
    assert_eq!(store.get("a", 159), Some(result_with(2)));
    assert_eq!(store.get("a", 160), None);
}

#[test]
fn put_revives_an_expired_key() {
    let mut store = CacheStore::new();
    store.put("a", result_with(1), 60, 0);
    assert_eq!(store.get("a", 60), None);
    store.put("a", result_with(2), 60, 60);
    assert_eq!(store.get("a", 60), Some(result_with(2)));
    assert_eq!(store.get("a", 119), Some(result_with(2)));
}

#[test]
fn keys_are_independent_and_verbatim() {
    let mut store = CacheStore::new();
    store.put("a", result_with(1), 60, 0);
    store.put("A", result_with(2), 60, 0);
    store.put("a ", result_with(3), 60, 0);
    store.put("", result_with(4), 60, 0);
    assert_eq!(store.get("a", 1), Some(result_with(1)));
    assert_eq!(store.get("A", 1), Some(result_with(2)));
    assert_eq!(store.get("a ", 1), Some(result_with(3)));
    assert_eq!(store.get("", 1), Some(result_with(4)));
    assert_eq!(store.get(" a", 1), None);
    store.put("A", result_with(5), 60, 30);
    assert_eq!(store.get("a", 61), None);
    assert_eq!(store.get("A", 61), Some(result_with(5)));
}

#[test]
fn get_does_not_change_the_store() {
    let mut store = CacheStore::new();
    store.put("a", result_with(1), 60, 0);
    assert_eq!(store.get("a", 100), None);
    assert_eq!(store.get("a", 10), Some(result_with(1)));
    assert_eq!(store.get("a", 10), Some(result_with(1)));
}

#[test]
fn clone_of_a_result_is_equal_to_it() {
    let first = result_with(5);
    let copy = first.clone();
    assert_eq!(copy, first);
    assert_eq!(copy.items[0].clone(), first.items[0]);
    assert_ne!(copy, result_with(6));
}
