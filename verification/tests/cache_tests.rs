use job_tracker::cache::TTLCache;

#[test]
fn fresh_entry_is_served_and_stale_entry_is_not() {
    let mut cache: TTLCache<Vec<String>> = TTLCache::new(50);
    let jobs = vec!["job1".to_string(), "job2".to_string()];
    cache.put_at("q1".to_string(), jobs.clone(), 0);
    assert_eq!(cache.get_at("q1", 10), Some(&jobs));
    assert_eq!(cache.get_at("q1", 60), None);
}

#[test]
fn entry_goes_stale_exactly_at_ttl() {
    let mut cache: TTLCache<u32> = TTLCache::new(50);
    cache.put_at("k".to_string(), 7, 100);
    assert_eq!(cache.get_at("k", 100), Some(&7));
    assert_eq!(cache.get_at("k", 149), Some(&7));
    assert_eq!(cache.get_at("k", 150), None);
    assert_eq!(cache.get_at("k", u64::MAX), None);
}

#[test]
fn absent_key_gives_nothing() {
    let mut cache: TTLCache<u32> = TTLCache::new(50);
    assert_eq!(cache.get_at("k", 0), None);
    cache.put_at("k".to_string(), 1, 0);
    assert_eq!(cache.get_at("other", 0), None);
    assert_eq!(cache.get_at("", 0), None);
}

#[test]
fn last_write_wins() {
    let mut cache: TTLCache<u32> = TTLCache::new(50);
    cache.put_at("k".to_string(), 1, 0);
    cache.put_at("k".to_string(), 2, 5);
    assert_eq!(cache.get_at("k", 5), Some(&2));
    assert_eq!(cache.get_at("k", 54), Some(&2));
    assert_eq!(cache.get_at("k", 55), None);
}

#[test]
fn refill_makes_a_stale_entry_fresh_again() {
    let mut cache: TTLCache<u32> = TTLCache::new(50);
    cache.put_at("k".to_string(), 1, 0);
    assert_eq!(cache.get_at("k", 70), None);
    cache.put_at("k".to_string(), 2, 70);
    assert_eq!(cache.get_at("k", 100), Some(&2));
}

#[test]
fn put_under_one_key_leaves_other_keys() {
    let mut cache: TTLCache<u32> = TTLCache::new(50);
    cache.put_at("a".to_string(), 1, 0);
    cache.put_at("b".to_string(), 2, 30);
    cache.put_at("a".to_string(), 3, 40);
    assert_eq!(cache.get_at("b", 60), Some(&2));
    assert_eq!(cache.get_at("a", 60), Some(&3));
    assert_eq!(cache.get_at("b", 80), None);
}

#[test]
fn clock_reading_before_the_put_counts_as_no_time_passed() {
    let mut cache: TTLCache<u32> = TTLCache::new(50);
    cache.put_at("k".to_string(), 1, 1000);
    assert_eq!(cache.get_at("k", 10), Some(&1));
}

#[test]
fn zero_ttl_serves_nothing() {
    let mut cache: TTLCache<u32> = TTLCache::new(0);
    cache.put_at("k".to_string(), 1, 10);
    assert_eq!(cache.get_at("k", 10), None);
    assert_eq!(cache.ttl_ms(), 0);
}

#[test]
fn put_then_get_on_the_cache_clock() {
    let mut cache: TTLCache<u32> = TTLCache::new(3_600_000);
    cache.put("k".to_string(), 1);
    assert_eq!(cache.get("k"), Some(&1));
    cache.put("k".to_string(), 2);
    assert_eq!(cache.get("k"), Some(&2));
    assert_eq!(cache.get("absent"), None);
}

#[test]
fn stale_entry_stays_stored_until_it_is_purged() {
    let mut cache: TTLCache<u32> = TTLCache::new(50);
    cache.put_at("old".to_string(), 1, 0);
    cache.put_at("new".to_string(), 2, 40);
    assert_eq!(cache.get_at("old", 60), None);
    assert!(cache.is_stored("old"));
    assert!(cache.is_stored("new"));
    assert!(!cache.is_stored("other"));
    cache.purge_expired(60);
    assert!(!cache.is_stored("old"));
    assert!(cache.is_stored("new"));
    assert_eq!(cache.get_at("new", 60), Some(&2));
    assert_eq!(cache.get_at("old", 60), None);
}

#[test]
fn purge_keeps_what_is_fresh_and_drops_the_rest() {
    let mut cache: TTLCache<u64> = TTLCache::new(10);
    for i in 0..20u64 {
        cache.put_at(format!("k{}", i), i, i);
    }
    cache.purge_expired(25);
    for i in 0..20u64 {
        let key = format!("k{}", i);
        assert_eq!(cache.is_stored(&key), i > 15, "{}", key);
        assert_eq!(cache.get_at(&key, 25), if i > 15 { Some(&i) } else { None });
    }
    cache.purge_expired(1000);
    assert!(!cache.is_stored("k19"));
    cache.purge_expired(1000);
    assert!(!cache.is_stored("k19"));
}

#[test]
fn zero_ttl_serves_nothing_on_the_cache_clock() {
    let mut cache: TTLCache<u32> = TTLCache::new(0);
    cache.put("k".to_string(), 1);
    assert_eq!(cache.get("k"), None);
    assert!(cache.is_stored("k"));
}

#[test]
fn cache_clock_starts_when_the_cache_is_made() {
    let cache: TTLCache<u32> = TTLCache::new(1);
    let first = cache.now_ms();
    let second = cache.now_ms();
    assert!(first <= second);
    assert!(second < 60_000);
}
