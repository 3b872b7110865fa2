use pywatt_sdk::cache::in_memory::InMemoryCache;
use pywatt_sdk::cache::{CacheConfig, CachePolicy, CacheService, CacheType};
use pywatt_sdk::database::PoolConfig;
use std::time::Duration;

fn config(namespace: &str, ttl: u64) -> CacheConfig {
    CacheConfig {
        cache_type: CacheType::InMemory,
        policy: CachePolicy::LRU,
        hosts: vec![],
        port: None,
        connection_timeout_seconds: 5,
        operation_timeout_seconds: 2,
        default_ttl_seconds: ttl,
        default_ttl: None,
        username: None,
        password: None,
        pool: PoolConfig::default(),
        tls_enabled: false,
        file_path: None,
        max_size_bytes: None,
        namespace: Some(namespace.to_string()),
        database: None,
        extra_params: vec![],
    }
}

#[test]
fn test_in_memory_cache_basic_operations() {
    let mut cache = InMemoryCache::new(&config("test", 300));
    let key = "test-key";
    let value = b"test-value";
    cache.set(key, value, None).unwrap();
    assert_eq!(cache.get(key).unwrap(), Some(value.to_vec()));
    assert_eq!(cache.get_string(key).unwrap(), Some("test-value".to_string()));
    assert!(cache.key_exists(key).unwrap());
    assert!(cache.delete(key).unwrap());
    assert_eq!(cache.get(key).unwrap(), None);
    let key2 = "test-key2";
    assert!(cache.set_nx(key2, b"nx-value", None).unwrap());
    assert!(!cache.set_nx(key2, b"nx-value2", None).unwrap());
    assert_eq!(cache.get(key2).unwrap(), Some(b"nx-value".to_vec()));
}

#[test]
fn test_in_memory_cache_expiry() {
    let mut cache = InMemoryCache::new(&config("test", 1));
    let key = "expiring-key";
    let value = b"expiring-value";
    cache.set_at(key, value, None, 1000).unwrap();
    assert_eq!(cache.get_at(key, 1000).unwrap(), Some(value.to_vec()));
    assert_eq!(cache.get_at(key, 1002).unwrap(), None);
}

#[test]
fn test_in_memory_cache_increment() {
    let mut cache = InMemoryCache::new(&config("test", 300));
    let key = "counter";
    assert_eq!(cache.increment(key, 5).unwrap(), 5);
    assert_eq!(cache.increment(key, 3).unwrap(), 8);
    assert_eq!(cache.decrement(key, 2).unwrap(), 6);
}

#[test]
fn test_in_memory_cache_bulk_operations() {
    let mut cache = InMemoryCache::new(&config("test", 300));
    let items = vec![
        ("key1".to_string(), b"value1".to_vec()),
        ("key2".to_string(), b"value2".to_vec()),
        ("key3".to_string(), b"value3".to_vec()),
    ];
    cache.set_many(&items, None).unwrap();
    let keys = vec!["key1".to_string(), "key2".to_string(), "key3".to_string(), "key4".to_string()];
    let results = cache.get_many(&keys).unwrap();
    assert_eq!(results.len(), 3);
    let find = |k: &str| results.iter().find(|(n, _)| n == k).map(|(_, v)| v.clone());
    assert_eq!(find("key1").unwrap(), b"value1".to_vec());
    assert_eq!(find("key2").unwrap(), b"value2".to_vec());
    assert_eq!(find("key3").unwrap(), b"value3".to_vec());
    let keys_to_delete = vec!["key1".to_string(), "key2".to_string(), "key4".to_string()];
    assert_eq!(cache.delete_many(&keys_to_delete).unwrap(), 2);
    assert!(!cache.key_exists("key1").unwrap());
    assert!(!cache.key_exists("key2").unwrap());
    assert!(cache.key_exists("key3").unwrap());
}

#[test]
fn test_in_memory_cache_namespacing() {
    let mut cache1 = InMemoryCache::new(&config("ns1", 300));
    let mut cache2 = InMemoryCache::new(&config("ns2", 300));
    let key = "shared-key";
    cache1.set(key, b"value1", None).unwrap();
    cache2.set(key, b"value2", None).unwrap();
    assert_eq!(cache1.get(key).unwrap(), Some(b"value1".to_vec()));
    assert_eq!(cache2.get(key).unwrap(), Some(b"value2".to_vec()));
    cache1.clear(None).unwrap();
    assert_eq!(cache1.get(key).unwrap(), None);
    assert_eq!(cache2.get(key).unwrap(), Some(b"value2".to_vec()));
}

#[test]
fn test_in_memory_cache_locking() {
    let mut cache = InMemoryCache::new(&config("test", 300));
    let lock_key = "my-lock";
    let lock_ttl = Duration::from_secs(10);
    let token = cache.lock(lock_key, lock_ttl).unwrap();
    assert!(token.is_some());
    let token = token.unwrap();
    assert!(cache.lock(lock_key, lock_ttl).unwrap().is_none());
    assert!(!cache.unlock(lock_key, "wrong-token").unwrap());
    assert!(cache.unlock(lock_key, &token).unwrap());
    assert!(cache.lock(lock_key, lock_ttl).unwrap().is_some());
}

#[test]
fn test_cache_stats() {
    let mut cache = InMemoryCache::new(&config("test", 300));
    cache.set("key1", b"value1", None).unwrap();
    cache.set("key2", b"value2", None).unwrap();
    cache.get("key1").unwrap();
    cache.get("key2").unwrap();
    cache.get("key2").unwrap();
    cache.get("key3").unwrap();
    cache.get("key4").unwrap();
    let stats = cache.stats().unwrap();
    assert_eq!(stats.item_count, Some(2));
    assert_eq!(stats.hits, Some(3));
    assert_eq!(stats.misses, Some(2));
    assert!(stats.memory_used_bytes.unwrap() > 0);
}

#[test]
fn get_set_returns_previous_value() {
    let mut cache = InMemoryCache::new(&config("test", 300));
    assert_eq!(cache.get_set("k", b"one").unwrap(), None);
    assert_eq!(cache.get_set("k", b"two").unwrap(), Some(b"one".to_vec()));
    assert_eq!(cache.get("k").unwrap(), Some(b"two".to_vec()));
}

#[test]
fn increment_of_non_number_starts_at_zero() {
    let mut cache = InMemoryCache::new(&config("test", 300));
    cache.set("n", b"abc", None).unwrap();
    assert_eq!(cache.increment("n", 4).unwrap(), 4);
    assert_eq!(cache.get_string("n").unwrap(), Some("4".to_string()));
    assert_eq!(cache.increment("n", -10).unwrap(), -6);
    assert_eq!(cache.get_string("n").unwrap(), Some("-6".to_string()));
}

#[test]
fn expired_entries_are_removed_and_lock_expires() {
    let mut cache = InMemoryCache::new(&config("test", 5));
    cache.set_at("a", b"1", None, 100).unwrap();
    cache.set_at("b", b"2", Some(Duration::from_secs(50)), 100).unwrap();
    cache.remove_expired_at(106);
    assert_eq!(cache.get_at("a", 106).unwrap(), None);
    assert_eq!(cache.get_at("b", 106).unwrap(), Some(b"2".to_vec()));
    let t = cache.lock_at("l", Duration::from_secs(3), 200).unwrap();
    assert!(t.is_some());
    assert!(cache.lock_at("l", Duration::from_secs(3), 202).unwrap().is_none());
    assert!(cache.lock_at("l", Duration::from_secs(3), 204).unwrap().is_some());
}

#[test]
fn prefixed_keys_and_cache_type() {
    let cache = InMemoryCache::new(&config("app", 300));
    assert_eq!(cache.prefix_key("user"), "app:user");
    assert_eq!(cache.get_cache_type(), CacheType::InMemory);
    assert_eq!(cache.get_default_ttl(), Duration::from_secs(300));
}

#[test]
fn test_stats_memory_estimate_counts_key_value_and_overhead() {
    let mut cache = InMemoryCache::new(&config("ns", 300));
    cache.set("a", b"xyz", None).unwrap();
    cache.set("bb", b"", None).unwrap();
    let stats = cache.stats().unwrap();
    // "ns:a" + "xyz" + 32, then "ns:bb" + "" + 32
    assert_eq!(stats.memory_used_bytes, Some(4 + 3 + 32 + 5 + 32));
}

#[test]
fn test_full_cache_evicts_a_tenth_of_capacity_before_storing() {
    // 2000 bytes allow 20 items; a full cache drops 2 of them for a new one.
    let mut c = config("ev", 300);
    c.max_size_bytes = Some(2000);
    let mut cache = InMemoryCache::new(&c);
    for i in 0..20 {
        cache.set(&format!("k{}", i), b"v", None).unwrap();
    }
    assert_eq!(cache.stats().unwrap().item_count, Some(20));
    cache.set("new", b"v", None).unwrap();
    assert_eq!(cache.stats().unwrap().item_count, Some(19));
    assert_eq!(cache.get("new").unwrap(), Some(b"v".to_vec()));
}

#[test]
fn test_set_many_beyond_capacity_evicts_what_is_needed_plus_one() {
    let mut c = config("ev2", 300);
    c.max_size_bytes = Some(2000);
    let mut cache = InMemoryCache::new(&c);
    for i in 0..15 {
        cache.set(&format!("old{}", i), b"v", None).unwrap();
    }
    let items: Vec<(String, Vec<u8>)> = (0..10).map(|i| (format!("new{}", i), b"w".to_vec())).collect();
    cache.set_many(&items, None).unwrap();
    // 15 + 10 - 20 + 1 = 6 old entries go; 9 stay beside the 10 new ones.
    assert_eq!(cache.stats().unwrap().item_count, Some(19));
    for (k, v) in &items {
        assert_eq!(cache.get(k).unwrap(), Some(v.clone()));
    }
}
