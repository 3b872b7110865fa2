use pywatt_sdk::cache::in_memory::{CacheEntry, InMemoryCache};
use pywatt_sdk::cache::patterns::{
    AcquireStep, DistributedLock, EventInvalidationStrategy, InvalidationStrategy, RetryConfig, TtlInvalidationStrategy,
};
use pywatt_sdk::cache::remote::strip_prefix;
use pywatt_sdk::cache::{CacheConfig, CacheError, CachePolicy, CacheService, CacheType};
use pywatt_sdk::database::PoolConfig;
use std::time::Duration;

fn plain_config() -> CacheConfig {
    CacheConfig {
        cache_type: CacheType::InMemory,
        policy: CachePolicy::LRU,
        hosts: vec![],
        port: None,
        connection_timeout_seconds: 5,
        operation_timeout_seconds: 2,
        default_ttl_seconds: 300,
        default_ttl: None,
        username: None,
        password: None,
        pool: PoolConfig::default(),
        tls_enabled: false,
        file_path: None,
        max_size_bytes: None,
        namespace: None,
        database: None,
        extra_params: vec![],
    }
}

#[test]
fn test_lock_acquire_release_cycle() {
    let cache = InMemoryCache::new(&plain_config());
    let mut lock = DistributedLock::new(cache, "res", Duration::from_secs(30), None);
    assert!(!lock.is_acquired());
    assert!(lock.try_acquire().unwrap());
    assert!(lock.is_acquired());
    // While held, another holder cannot take the same key.
    assert_eq!(lock.cache_mut().lock("lock:res", Duration::from_secs(30)).unwrap(), None);
    assert!(lock.release().unwrap());
    assert!(!lock.is_acquired());
    // Released: the key can be taken again.
    assert!(lock.cache_mut().lock("lock:res", Duration::from_secs(30)).unwrap().is_some());
    // Without a token, release answers false.
    assert!(!lock.release().unwrap());
}

#[test]
fn test_acquire_steps_back_off_then_give_up() {
    let cache = InMemoryCache::new(&plain_config());
    let retry = RetryConfig { max_attempts: 2, retry_delay: Duration::from_millis(100), use_backoff: true };
    let mut lock = DistributedLock::new(cache, "job", Duration::from_secs(30), Some(retry));
    // Someone else holds the lock.
    assert!(lock.cache_mut().lock("lock:job", Duration::from_secs(30)).unwrap().is_some());
    let mut attempts: u32 = 0;
    let mut delay = lock.initial_delay();
    assert_eq!(delay, Duration::from_millis(100));
    match lock.acquire_step(&mut attempts, &mut delay).unwrap() {
        AcquireStep::RetryAfter(d) => assert_eq!(d, Duration::from_millis(100)),
        other => panic!("unexpected {:?}", other),
    }
    assert_eq!(attempts, 1);
    assert_eq!(delay, Duration::from_millis(200));
    assert!(matches!(lock.acquire_step(&mut attempts, &mut delay).unwrap(), AcquireStep::GiveUp));
    assert_eq!(attempts, 2);
    assert!(!lock.is_acquired());
    match lock.acquire_failure() {
        CacheError::Internal(m) => assert_eq!(m, "Failed to acquire lock 'lock:job' after 2 attempts"),
        other => panic!("unexpected {:?}", other),
    }
    // No attempt is left: nothing changes.
    assert!(matches!(lock.acquire_step(&mut attempts, &mut delay).unwrap(), AcquireStep::GiveUp));
    assert_eq!(attempts, 2);
}

#[test]
fn test_acquire_step_without_backoff_keeps_delay() {
    let cache = InMemoryCache::new(&plain_config());
    let retry = RetryConfig { max_attempts: 3, retry_delay: Duration::from_millis(50), use_backoff: false };
    let mut lock = DistributedLock::new(cache, "k", Duration::from_secs(30), Some(retry));
    assert!(lock.cache_mut().lock("lock:k", Duration::from_secs(30)).unwrap().is_some());
    let mut attempts: u32 = 0;
    let mut delay = lock.initial_delay();
    assert!(matches!(lock.acquire_step(&mut attempts, &mut delay).unwrap(), AcquireStep::RetryAfter(_)));
    assert_eq!(delay, Duration::from_millis(50));
}

#[test]
fn test_acquire_step_takes_free_lock() {
    let cache = InMemoryCache::new(&plain_config());
    let mut lock = DistributedLock::new(cache, "free", Duration::from_secs(30), None);
    let mut attempts: u32 = 0;
    let mut delay = lock.initial_delay();
    assert!(matches!(lock.acquire_step(&mut attempts, &mut delay).unwrap(), AcquireStep::Acquired));
    assert!(lock.is_acquired());
}

#[test]
fn test_versioned_keys_count_up() {
    let mut cache = InMemoryCache::new(&plain_config());
    let versioned = EventInvalidationStrategy::new("app", Duration::from_secs(60), true);
    assert_eq!(versioned.versioned_key(&mut cache, "user").unwrap(), "app:v1");
    assert_eq!(versioned.versioned_key(&mut cache, "user").unwrap(), "app:v2");
    assert_eq!(cache.get_string("app:user_version").unwrap(), Some("2".to_string()));
    let plain = EventInvalidationStrategy::new("app", Duration::from_secs(60), false);
    assert_eq!(plain.versioned_key(&mut cache, "user").unwrap(), "app");
    // Invalidating under versioning bumps the counter.
    versioned.invalidate(&mut cache, "user", "1").unwrap();
    assert_eq!(cache.get_string("app:user_version").unwrap(), Some("3".to_string()));
}

#[test]
fn test_ttl_strategy_invalidate_deletes_entity_key() {
    let mut cache = InMemoryCache::new(&plain_config());
    let strategy = TtlInvalidationStrategy::new("p", Duration::from_secs(60));
    let key = strategy.generate_key("user", "1");
    assert_eq!(key, "p:user:1");
    cache.set(&key, b"v", None).unwrap();
    cache.set("p:user:2", b"w", None).unwrap();
    strategy.invalidate(&mut cache, "user", "1").unwrap();
    assert_eq!(cache.get("p:user:1").unwrap(), None);
    assert_eq!(cache.get("p:user:2").unwrap(), Some(b"w".to_vec()));
}

#[test]
fn test_type_invalidation_removes_every_entity_of_the_type() {
    let mut cache = InMemoryCache::new(&plain_config());
    let strategy = TtlInvalidationStrategy::new("app", Duration::from_secs(60));
    cache.set("app:user:1", b"x", None).unwrap();
    cache.set("app:user:2", b"y", None).unwrap();
    cache.set("app:post:1", b"z", None).unwrap();
    strategy.invalidate_type(&mut cache, "user").unwrap();
    assert_eq!(cache.get("app:user:1").unwrap(), None);
    assert_eq!(cache.get("app:user:2").unwrap(), None);
    assert_eq!(cache.get("app:post:1").unwrap(), Some(b"z".to_vec()));
}

#[test]
fn test_strip_prefix_removes_namespace_only() {
    assert_eq!(strip_prefix(Some("ns"), "ns:key"), "key");
    assert_eq!(strip_prefix(Some("ns"), "other:key"), "other:key");
    assert_eq!(strip_prefix(None, "ns:key"), "ns:key");
}

#[test]
fn test_entry_without_expiry_never_expires() {
    let entry = CacheEntry::new(b"v".to_vec(), None);
    assert!(!entry.is_expired());
    let short = CacheEntry::new(b"v".to_vec(), Some(Duration::from_secs(3600)));
    assert!(!short.is_expired());
}
