use opengrok_mcp::cache::MemoryCache;

fn s(x: &str) -> String {
    x.to_string()
}

#[test]
fn insert_and_retrieve() {
    let mut cache = MemoryCache::new(60_000_000_000, 100);
    cache.insert(s("key"), s("value"));
    assert_eq!(cache.get(&s("key")), Some(s("value")));
}

#[test]
fn missing_key_returns_none() {
    let mut cache = MemoryCache::new(60_000_000_000, 100);
    assert_eq!(cache.get(&s("missing")), None);
}

#[test]
fn remove_returns_value() {
    let mut cache = MemoryCache::new(60_000_000_000, 100);
    cache.insert(s("a"), s("42"));
    assert_eq!(cache.remove(&s("a")), Some(s("42")));
    assert_eq!(cache.get(&s("a")), None);
}

#[test]
fn len_reflects_inserts() {
    let mut cache = MemoryCache::new(60_000_000_000, 100);
    assert_eq!(cache.len(), 0);
    cache.insert(s("1"), s("10"));
    assert_eq!(cache.len(), 1);
    cache.insert(s("2"), s("20"));
    assert_eq!(cache.len(), 2);
}

#[test]
fn is_empty() {
    let mut cache = MemoryCache::new(60_000_000_000, 100);
    assert!(cache.is_empty());
    cache.insert(s("1"), s("10"));
    assert!(!cache.is_empty());
}

#[test]
fn capacity_limit_triggers_eviction() {
    let mut cache = MemoryCache::new(3_600_000_000_000, 10);
    for i in 0..20 {
        cache.insert(i.to_string(), (i * 10).to_string());
    }
    assert!(cache.len() <= 10, "expected ≤10, got {}", cache.len());
}

#[test]
fn lru_eviction_respects_access_recency() {
    let mut cache = MemoryCache::new(3_600_000_000_000, 3);

    cache.insert(s("1"), s("10"));
    cache.insert(s("2"), s("20"));
    cache.insert(s("3"), s("30"));

    assert_eq!(cache.get(&s("1")), Some(s("10")));

    cache.insert(s("4"), s("40"));

    assert_eq!(cache.get(&s("1")), Some(s("10")), "key 1 was accessed, should survive");
    assert_eq!(cache.get(&s("3")), Some(s("30")), "key 3 should survive");
    assert_eq!(cache.get(&s("4")), Some(s("40")), "key 4 was just inserted");
    assert_eq!(cache.get(&s("2")), None, "key 2 should be evicted (LRU)");
}

#[test]
fn entry_expires_after_ttl_at_explicit_times() {
    let mut cache = MemoryCache::new(10, 100);
    cache.insert_at(s("key"), s("value"), 100);
    assert_eq!(cache.get_at(&s("key"), 109), Some(s("value")));
    assert_eq!(cache.get_at(&s("key"), 110), None);
    assert!(cache.is_empty(), "expired entry should be evicted");
}

#[test]
fn evict_expired_removes_stale_entries_at_explicit_times() {
    let mut cache = MemoryCache::new(10, 100);
    cache.insert_at(s("1"), s("10"), 0);
    cache.insert_at(s("2"), s("20"), 5);
    cache.evict_expired_at(12);
    assert_eq!(cache.len(), 1);
    assert_eq!(cache.get_at(&s("2"), 12), Some(s("20")));
    cache.evict_expired_at(50);
    assert_eq!(cache.len(), 0);
}

#[test]
fn overwrite_keeps_one_entry() {
    let mut cache = MemoryCache::new(60_000_000_000, 2);
    cache.insert(s("k"), s("a"));
    cache.insert(s("k"), s("b"));
    assert_eq!(cache.len(), 1);
    assert_eq!(cache.get(&s("k")), Some(s("b")));
}

/// Waits, without sleeping a thread, until `ms` milliseconds have passed.
fn wait_ms(ms: u64) {
    let start = std::time::Instant::now();
    while start.elapsed() < std::time::Duration::from_millis(ms) {
        std::hint::spin_loop();
    }
}

#[test]
fn entry_expires_after_ttl() {
    let mut cache = MemoryCache::new(10_000_000, 100);
    cache.insert(s("key"), s("value"));

    assert!(cache.get(&s("key")).is_some());

    wait_ms(50);

    assert!(cache.get(&s("key")).is_none());
    assert!(cache.is_empty(), "expired entry should be evicted");
}

#[test]
fn evict_expired_removes_stale_entries() {
    let mut cache = MemoryCache::new(10_000_000, 100);
    cache.insert(s("1"), s("10"));
    cache.insert(s("2"), s("20"));

    wait_ms(50);

    cache.evict_expired();
    assert_eq!(cache.len(), 0);
}

#[test]
fn clock_never_reads_earlier_than_a_given_time() {
    // Times in nanoseconds: a 10 s TTL, entries stamped at 0 s and 100 s.
    let mut cache = MemoryCache::new(10_000_000_000, 100);
    cache.insert_at(s("old"), s("1"), 0);
    cache.insert_at(s("recent"), s("2"), 100_000_000_000);
    assert!(cache.clock_ns() >= 100_000_000_000);
    // The clock reads at least 100 s now, so `old` has expired and
    // `recent` has not, however little real time has passed.
    cache.evict_expired();
    assert_eq!(cache.len(), 1);
    assert_eq!(cache.get(&s("old")), None);
    assert_eq!(cache.get(&s("recent")), Some(s("2")));
}
