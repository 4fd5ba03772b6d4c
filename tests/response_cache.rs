use aksver::cache::{CacheStep, ResponseCache};

#[test]
fn concurrent_requests_fetch_once() {
    let mut c: ResponseCache<Vec<String>> = ResponseCache::new(60, 10);
    assert_eq!(c.begin("k", 0), CacheStep::Fetch);
    assert_eq!(c.begin("k", 1), CacheStep::Join);
    assert_eq!(c.begin("k", 500), CacheStep::Join);
    assert_eq!(c.begin("other", 1), CacheStep::Fetch);
}

#[test]
fn stored_value_served_until_ttl() {
    let mut c: ResponseCache<Vec<String>> = ResponseCache::new(60, 10);
    assert_eq!(c.begin("k", 0), CacheStep::Fetch);
    c.finish_ok("k", vec!["1.28.5".to_string()], 100);
    assert_eq!(c.begin("k", 100), CacheStep::Hit);
    assert_eq!(c.begin("k", 159), CacheStep::Hit);
    assert_eq!(c.ready_value("k"), Some(&vec!["1.28.5".to_string()]));
    assert_eq!(c.begin("k", 160), CacheStep::Fetch);
    assert_eq!(c.begin("k", 161), CacheStep::Join);
}

#[test]
fn failure_is_not_cached() {
    let mut c: ResponseCache<u32> = ResponseCache::new(60, 10);
    assert_eq!(c.begin("k", 0), CacheStep::Fetch);
    c.finish_err("k");
    assert_eq!(c.ready_value("k"), None);
    assert_eq!(c.begin("k", 1), CacheStep::Fetch);
}

#[test]
fn capacity_drops_stored_values_not_pending() {
    let mut c: ResponseCache<u32> = ResponseCache::new(1_000, 2);
    assert_eq!(c.begin("a", 0), CacheStep::Fetch);
    c.finish_ok("a", 1, 0);
    assert_eq!(c.begin("b", 0), CacheStep::Fetch);
    assert_eq!(c.begin("p", 0), CacheStep::Fetch);
    c.finish_ok("b", 2, 1);
    // Three keys for a capacity of two: the oldest stored value goes, the
    // fetch in flight stays.
    assert_eq!(c.ready_value("a"), None);
    assert_eq!(c.ready_value("b"), Some(&2));
    assert_eq!(c.begin("p", 2), CacheStep::Join);
}
