//! Cache invalidation strategies and a distributed lock built on a cache's
//! `lock`/`unlock`.

use crate::cache::{unit_result_of, CacheError, CacheResult, CacheService};
use crate::sys::{doubled_duration, duration_doubled, duration_from_millis, duration_nanos, duration_secs};
use crate::text::{concat2, concat3, decimal, i64_to_string, owned, signed_decimal, u64_to_string};
use std::time::Duration;
use vstd::prelude::*;

verus! {

/// `prefix:entity_type:entity_id`.
pub open spec fn entity_key(prefix: Seq<char>, entity_type: Seq<char>, entity_id: Seq<char>) -> Seq<char> {
    prefix + ":"@ + entity_type + ":"@ + entity_id
}

/// `prefix:entity_type`, the namespace handed to `clear` for a whole type:
/// clearing it removes the keys that start with `prefix:entity_type:`, which
/// are the keys of the type's entities.
pub open spec fn type_namespace(prefix: Seq<char>, entity_type: Seq<char>) -> Seq<char> {
    prefix + ":"@ + entity_type
}

/// `prefix:entity_type_version`, the counter of a type's version.
pub open spec fn version_key(prefix: Seq<char>, entity_type: Seq<char>) -> Seq<char> {
    prefix + ":"@ + entity_type + "_version"@
}

/// The key that `versioned_key` answers after the version counter answered
/// `v`: `prefix:v<n>` for the new version `n`, or the counter's error.
pub open spec fn versioned_answer(prefix: Seq<char>, v: CacheResult<i64>, r: CacheResult<String>) -> bool {
    match v {
        Ok(n) => r matches Ok(s) && s@ == prefix + ":v"@ + signed_decimal(n as int),
        Err(e) => r == Err::<String, CacheError>(e),
    }
}

/// Builds `prefix:entity_type:entity_id`.
fn make_entity_key(prefix: &str, entity_type: &str, entity_id: &str) -> (r: String)
    ensures
        r@ == entity_key(prefix@, entity_type@, entity_id@),
{
    let a = concat3(prefix, ":", entity_type);
    concat3(a.as_str(), ":", entity_id)
}

/// Builds `prefix:entity_type`.
fn make_type_namespace(prefix: &str, entity_type: &str) -> (r: String)
    ensures
        r@ == type_namespace(prefix@, entity_type@),
{
    concat3(prefix, ":", entity_type)
}

/// Builds `prefix:entity_type_version`.
fn make_version_key(prefix: &str, entity_type: &str) -> (r: String)
    ensures
        r@ == version_key(prefix@, entity_type@),
{
    let a = concat3(prefix, ":", entity_type);
    concat2(a.as_str(), "_version")
}

/// Cache invalidation strategy.
pub trait InvalidationStrategy {
    /// The strategy's key prefix.
    spec fn key_prefix(&self) -> Seq<char>;

    /// The cache key of an entity.
    fn generate_key(&self, entity_type: &str, entity_id: &str) -> (r: String)
        ensures
            r@ == entity_key(self.key_prefix(), entity_type@, entity_id@),
    ;

    /// Whether invalidation goes through a version counter per entity type.
    spec fn versioned(&self) -> bool;

    /// Invalidate a cached entity.
    fn invalidate<C: CacheService>(&self, cache: &mut C, entity_type: &str, entity_id: &str) -> (r:
        CacheResult<()>)
        requires
            old(cache).well_formed(),
            self.versioned() ==> old(cache).increment_allowed(version_key(self.key_prefix(), entity_type@), 1),
        ensures
            final(cache).well_formed(),
            !self.versioned() ==> exists|d: CacheResult<bool>|
                #[trigger] old(cache).delete_result(
                    *final(cache),
                    entity_key(self.key_prefix(), entity_type@, entity_id@),
                    d,
                ) && unit_result_of(d, r),
            self.versioned() ==> exists|v: CacheResult<i64>|
                #[trigger] old(cache).increment_result(
                    *final(cache),
                    version_key(self.key_prefix(), entity_type@),
                    1,
                    v,
                ) && unit_result_of(v, r),
    ;

    /// Invalidate all entities of a type.
    fn invalidate_type<C: CacheService>(&self, cache: &mut C, entity_type: &str) -> (r: CacheResult<()>)
        requires
            old(cache).well_formed(),
            self.versioned() ==> old(cache).increment_allowed(version_key(self.key_prefix(), entity_type@), 1),
        ensures
            final(cache).well_formed(),
            !self.versioned() ==> old(cache).clear_result(
                *final(cache),
                Some(type_namespace(self.key_prefix(), entity_type@)),
                r,
            ),
            self.versioned() ==> exists|v: CacheResult<i64>|
                #[trigger] old(cache).increment_result(
                    *final(cache),
                    version_key(self.key_prefix(), entity_type@),
                    1,
                    v,
                ) && unit_result_of(v, r),
    ;
}

/// Invalidation that relies on entries expiring after a TTL.
#[derive(Debug, Clone)]
pub struct TtlInvalidationStrategy {
    /// Key prefix to use
    pub prefix: String,
    /// Default TTL for cache entries
    pub default_ttl: Duration,
}

impl TtlInvalidationStrategy {
    /// A TTL strategy with the given prefix and TTL.
    pub fn new(prefix: &str, default_ttl: Duration) -> (r: Self)
        ensures
            r.prefix@ == prefix@,
            r.default_ttl == default_ttl,
    {
        TtlInvalidationStrategy { prefix: owned(prefix), default_ttl }
    }
}

impl InvalidationStrategy for TtlInvalidationStrategy {
    open spec fn key_prefix(&self) -> Seq<char> {
        self.prefix@
    }

    fn generate_key(&self, entity_type: &str, entity_id: &str) -> (r: String) {
        make_entity_key(self.prefix.as_str(), entity_type, entity_id)
    }

    open spec fn versioned(&self) -> bool {
        false
    }

    /// Deletes the entity's key.
    fn invalidate<C: CacheService>(&self, cache: &mut C, entity_type: &str, entity_id: &str) -> (r:
        CacheResult<()>) {
        let key = self.generate_key(entity_type, entity_id);
        match cache.delete(key.as_str()) {
            Ok(_) => Ok(()),
            Err(e) => Err(e),
        }
    }

    /// Clears the namespace `prefix:entity_type`: every entity of the type.
    fn invalidate_type<C: CacheService>(&self, cache: &mut C, entity_type: &str) -> (r: CacheResult<()>) {
        let namespace = make_type_namespace(self.prefix.as_str(), entity_type);
        cache.clear(Some(namespace.as_str()))
    }
}

/// Invalidation in response to events, optionally through versioned keys.
#[derive(Debug, Clone)]
pub struct EventInvalidationStrategy {
    /// Key prefix to use
    pub prefix: String,
    /// Default TTL for cache entries
    pub default_ttl: Duration,
    /// Whether to use versioned keys
    pub use_versioning: bool,
}

impl EventInvalidationStrategy {
    /// An event strategy with the given prefix, TTL and versioning.
    pub fn new(prefix: &str, default_ttl: Duration, use_versioning: bool) -> (r: Self)
        ensures
            r.prefix@ == prefix@,
            r.default_ttl == default_ttl,
            r.use_versioning == use_versioning,
    {
        EventInvalidationStrategy { prefix: owned(prefix), default_ttl, use_versioning }
    }

    /// Without versioning, the prefix; with versioning, `prefix:v<n>` where
    /// `n` is the entity type's version counter after incrementing it.
    pub fn versioned_key<C: CacheService>(&self, cache: &mut C, entity_type: &str) -> (r: CacheResult<String>)
        requires
            old(cache).well_formed(),
            self.use_versioning ==> old(cache).increment_allowed(version_key(self.prefix@, entity_type@), 1),
        ensures
            final(cache).well_formed(),
            !self.use_versioning ==> (r matches Ok(s) && s@ == self.prefix@) && *final(cache) == *old(cache),
            self.use_versioning ==> exists|v: CacheResult<i64>|
                #[trigger] old(cache).increment_result(*final(cache), version_key(self.prefix@, entity_type@), 1, v)
                    && versioned_answer(self.prefix@, v, r),
    {
        if !self.use_versioning {
            return Ok(self.prefix.clone());
        }
        let vk = make_version_key(self.prefix.as_str(), entity_type);
        let ghost before = *cache;
        let bumped = cache.increment(vk.as_str(), 1);
        assert(before.increment_result(*cache, vk@, 1, bumped));
        match bumped {
            Ok(version) => {
                let n = i64_to_string(version);
                let key = concat3(self.prefix.as_str(), ":v", n.as_str());
                assert(key@ == self.prefix@ + ":v"@ + signed_decimal(version as int));
                Ok(key)
            },
            Err(e) => Err(e),
        }
    }
}

impl InvalidationStrategy for EventInvalidationStrategy {
    open spec fn key_prefix(&self) -> Seq<char> {
        self.prefix@
    }

    fn generate_key(&self, entity_type: &str, entity_id: &str) -> (r: String) {
        make_entity_key(self.prefix.as_str(), entity_type, entity_id)
    }

    open spec fn versioned(&self) -> bool {
        self.use_versioning
    }

    /// With versioning, bumps the type's version; otherwise deletes the
    /// entity's key.
    fn invalidate<C: CacheService>(&self, cache: &mut C, entity_type: &str, entity_id: &str) -> (r:
        CacheResult<()>) {
        if self.use_versioning {
            let vk = make_version_key(self.prefix.as_str(), entity_type);
            let ghost before = *cache;
            let bumped = cache.increment(vk.as_str(), 1);
            assert(before.increment_result(*cache, vk@, 1, bumped));
            match bumped {
                Ok(_) => Ok(()),
                Err(e) => Err(e),
            }
        } else {
            let key = self.generate_key(entity_type, entity_id);
            match cache.delete(key.as_str()) {
                Ok(_) => Ok(()),
                Err(e) => Err(e),
            }
        }
    }

    /// With versioning, bumps the type's version; otherwise clears the
    /// namespace `prefix:entity_type`: every entity of the type.
    fn invalidate_type<C: CacheService>(&self, cache: &mut C, entity_type: &str) -> (r: CacheResult<()>) {
        if self.use_versioning {
            let vk = make_version_key(self.prefix.as_str(), entity_type);
            let ghost before = *cache;
            let bumped = cache.increment(vk.as_str(), 1);
            assert(before.increment_result(*cache, vk@, 1, bumped));
            match bumped {
                Ok(_) => Ok(()),
                Err(e) => Err(e),
            }
        } else {
            let namespace = make_type_namespace(self.prefix.as_str(), entity_type);
            cache.clear(Some(namespace.as_str()))
        }
    }
}

/// Invalidation helper for caches that evict least recently used entries
/// themselves.
#[derive(Debug, Clone)]
pub struct LruInvalidationStrategy {
    /// Key prefix to use
    pub prefix: String,
    /// Maximum entries to keep
    pub max_entries: usize,
}

impl LruInvalidationStrategy {
    /// An LRU strategy with the given prefix and size.
    pub fn new(prefix: &str, max_entries: usize) -> (r: Self)
        ensures
            r.prefix@ == prefix@,
            r.max_entries == max_entries,
    {
        LruInvalidationStrategy { prefix: owned(prefix), max_entries }
    }
}

impl InvalidationStrategy for LruInvalidationStrategy {
    open spec fn key_prefix(&self) -> Seq<char> {
        self.prefix@
    }

    fn generate_key(&self, entity_type: &str, entity_id: &str) -> (r: String) {
        make_entity_key(self.prefix.as_str(), entity_type, entity_id)
    }

    open spec fn versioned(&self) -> bool {
        false
    }

    /// Deletes the entity's key.
    fn invalidate<C: CacheService>(&self, cache: &mut C, entity_type: &str, entity_id: &str) -> (r:
        CacheResult<()>) {
        let key = self.generate_key(entity_type, entity_id);
        match cache.delete(key.as_str()) {
            Ok(_) => Ok(()),
            Err(e) => Err(e),
        }
    }

    /// Clears the namespace `prefix:entity_type`: every entity of the type.
    fn invalidate_type<C: CacheService>(&self, cache: &mut C, entity_type: &str) -> (r: CacheResult<()>) {
        let namespace = make_type_namespace(self.prefix.as_str(), entity_type);
        cache.clear(Some(namespace.as_str()))
    }
}

/// Retry configuration for distributed locks.
#[derive(Debug, Clone)]
pub struct RetryConfig {
    /// Maximum number of attempts
    pub max_attempts: u32,
    /// Delay between attempts
    pub retry_delay: Duration,
    /// Whether to double the delay after each wait
    pub use_backoff: bool,
}

impl Default for RetryConfig {
    /// Five attempts, 100 ms apart at first, with backoff.
    fn default() -> (r: Self)
        ensures
            r.max_attempts == 5,
            duration_secs(r.retry_delay) == 0,
            duration_nanos(r.retry_delay) == 100_000_000,
            r.use_backoff,
    {
        RetryConfig { max_attempts: 5, retry_delay: duration_from_millis(100), use_backoff: true }
    }
}

/// What to do after one attempt at acquiring a lock.
#[derive(Debug)]
pub enum AcquireStep {
    /// The lock is held.
    Acquired,
    /// Wait this long, then attempt again.
    RetryAfter(Duration),
    /// No attempt is left.
    GiveUp,
}

/// A lock held through a cache's `lock` and `unlock`, with retries.
pub struct DistributedLock<C> {
    cache: C,
    key: String,
    token: Option<String>,
    ttl: Duration,
    retry_config: RetryConfig,
}

/// The message of the error after the last failed attempt.
pub open spec fn acquire_failure_message(lock_key: Seq<char>, max_attempts: u32) -> Seq<char> {
    "Failed to acquire lock '"@ + lock_key + "' after "@ + decimal(max_attempts as nat) + " attempts"@
}

impl<C: CacheService> DistributedLock<C> {
    /// The key locked in the cache: `lock:<key>`.
    pub closed spec fn lock_key(&self) -> Seq<char> {
        self.key@
    }

    /// The token held, if any.
    pub closed spec fn held_token(&self) -> Option<Seq<char>> {
        match self.token {
            Some(t) => Some(t@),
            None => None,
        }
    }

    /// The lock's TTL.
    pub closed spec fn lock_ttl(&self) -> Duration {
        self.ttl
    }

    /// The retry configuration.
    pub closed spec fn retries(&self) -> RetryConfig {
        self.retry_config
    }

    /// The cache behind the lock.
    pub closed spec fn backing(&self) -> C {
        self.cache
    }

    /// A lock on `lock:<key>`, not held, with the given retry configuration or
    /// the default one.
    pub fn new(cache: C, key: &str, ttl: Duration, retry_config: Option<RetryConfig>) -> (r: Self)
        ensures
            r.lock_key() == "lock:"@ + key@,
            r.held_token() is None,
            r.lock_ttl() == ttl,
            r.backing() == cache,
            retry_config matches Some(rc) ==> r.retries() == rc,
            retry_config is None ==> r.retries().max_attempts == 5 && r.retries().use_backoff
                && duration_secs(r.retries().retry_delay) == 0 && duration_nanos(r.retries().retry_delay)
                == 100_000_000,
    {
        let rc = match retry_config {
            Some(rc) => rc,
            None => RetryConfig::default(),
        };
        DistributedLock { cache, key: concat2("lock:", key), token: None, ttl, retry_config: rc }
    }

    /// Whether the lock is held.
    pub fn is_acquired(&self) -> (r: bool)
        ensures
            r == self.held_token() is Some,
    {
        self.token.is_some()
    }

    /// How one attempt that got the answer `l` from the cache's `lock` ends:
    /// the cache's lock took the lock from `before` to `after`; a token is
    /// kept and answered `true`, no token is `false`, an error is passed on.
    pub open spec fn attempt_answered(before: Self, after: Self, l: CacheResult<Option<String>>, r: CacheResult<bool>) -> bool {
        &&& before.backing().lock_result(after.backing(), before.lock_key(), before.lock_ttl(), l)
        &&& match l {
            Ok(Some(t)) => r == Ok::<bool, CacheError>(true) && after.held_token() == Some(t@),
            Ok(None) => r == Ok::<bool, CacheError>(false),
            Err(e) => r == Err::<bool, CacheError>(e),
        }
    }

    /// One attempt: asks the cache for the lock on `lock_key` for the TTL;
    /// on success the token is kept.
    pub fn try_acquire(&mut self) -> (r: CacheResult<bool>)
        requires
            old(self).backing().well_formed(),
        ensures
            final(self).backing().well_formed(),
            final(self).lock_key() == old(self).lock_key(),
            final(self).lock_ttl() == old(self).lock_ttl(),
            final(self).retries() == old(self).retries(),
            r matches Ok(true) ==> final(self).held_token() is Some,
            !(r matches Ok(true)) ==> final(self).held_token() == old(self).held_token(),
            exists|l: CacheResult<Option<String>>| #[trigger] Self::attempt_answered(*old(self), *final(self), l, r),
    {
        let answer = self.cache.lock(self.key.as_str(), self.ttl);
        let ghost given = answer;
        match answer {
            Ok(Some(token)) => {
                self.token = Some(token);
                assert(Self::attempt_answered(*old(self), *self, given, Ok(true)));
                Ok(true)
            },
            Ok(None) => {
                assert(Self::attempt_answered(*old(self), *self, given, Ok(false)));
                Ok(false)
            },
            Err(e) => {
                assert(Self::attempt_answered(*old(self), *self, given, Err(e)));
                Err(e)
            },
        }
    }

    /// One step of `acquire`, given the attempts made so far and the current
    /// delay: no attempt when all are used up; otherwise an attempt, then
    /// `Acquired`, or `GiveUp` when that was the last attempt, or a wait of
    /// the current delay (doubled afterwards under backoff).
    pub fn acquire_step(&mut self, attempts: &mut u32, delay: &mut Duration) -> (r: CacheResult<AcquireStep>)
        requires
            old(self).backing().well_formed(),
        ensures
            final(self).backing().well_formed(),
            final(self).lock_key() == old(self).lock_key(),
            final(self).retries() == old(self).retries(),
            *old(attempts) >= old(self).retries().max_attempts ==> (r matches Ok(AcquireStep::GiveUp))
                && *final(attempts) == *old(attempts) && final(self).held_token() == old(self).held_token(),
            r matches Ok(AcquireStep::Acquired) ==> final(self).held_token() is Some,
            r matches Ok(AcquireStep::RetryAfter(d)) ==> d == *old(delay)
                && *final(attempts) == *old(attempts) + 1
                && *final(attempts) < old(self).retries().max_attempts,
            *old(attempts) < old(self).retries().max_attempts && (r matches Ok(AcquireStep::GiveUp))
                ==> *final(attempts) == old(self).retries().max_attempts,
            (r matches Ok(AcquireStep::RetryAfter(_))) && old(self).retries().use_backoff
                ==> doubled_duration(
                duration_secs(*old(delay)),
                duration_nanos(*old(delay)),
                duration_secs(*final(delay)),
                duration_nanos(*final(delay)),
            ),
            !((r matches Ok(AcquireStep::RetryAfter(_))) && old(self).retries().use_backoff)
                ==> *final(delay) == *old(delay),
    {
        if *attempts >= self.retry_config.max_attempts {
            return Ok(AcquireStep::GiveUp);
        }
        match self.try_acquire() {
            Ok(true) => return Ok(AcquireStep::Acquired),
            Ok(false) => {},
            Err(e) => return Err(e),
        }
        *attempts = *attempts + 1;
        if *attempts >= self.retry_config.max_attempts {
            return Ok(AcquireStep::GiveUp);
        }
        let wait = *delay;
        if self.retry_config.use_backoff {
            *delay = duration_doubled(*delay);
        }
        Ok(AcquireStep::RetryAfter(wait))
    }

    /// The error `acquire` ends with after its last failed attempt.
    pub fn acquire_failure(&self) -> (r: CacheError)
        ensures
            r matches CacheError::Internal(m) && m@ == acquire_failure_message(
                self.lock_key(),
                self.retries().max_attempts,
            ),
    {
        let n = u64_to_string(self.retry_config.max_attempts as u64);
        let a = concat3("Failed to acquire lock '", self.key.as_str(), "' after ");
        CacheError::Internal(concat3(a.as_str(), n.as_str(), " attempts"))
    }

    /// The first delay of `acquire`.
    pub fn initial_delay(&self) -> (r: Duration)
        ensures
            r == self.retries().retry_delay,
    {
        self.retry_config.retry_delay
    }

    /// Releases the lock when held: the cache's answer to `unlock` with the
    /// held token; the token is dropped. Without a token, `false`.
    pub fn release(&mut self) -> (r: CacheResult<bool>)
        requires
            old(self).backing().well_formed(),
        ensures
            final(self).backing().well_formed(),
            final(self).lock_key() == old(self).lock_key(),
            final(self).retries() == old(self).retries(),
            old(self).held_token() is None ==> r == Ok::<bool, CacheError>(false)
                && final(self).backing() == old(self).backing(),
            old(self).held_token() matches Some(t) ==> old(self).backing().unlock_result(
                final(self).backing(),
                old(self).lock_key(),
                t,
                r,
            ),
            r is Ok ==> final(self).held_token() is None,
            r is Err ==> final(self).held_token() == old(self).held_token(),
    {
        match &self.token {
            Some(token) => {
                let result = match self.cache.unlock(self.key.as_str(), token.as_str()) {
                    Ok(b) => b,
                    Err(e) => return Err(e),
                };
                self.token = None;
                Ok(result)
            },
            None => Ok(false),
        }
    }

    /// The cache behind the lock.
    pub fn cache_mut(&mut self) -> (r: &mut C)
        ensures
            *r == old(self).backing(),
            final(self).backing() == *final(r),
            final(self).lock_key() == old(self).lock_key(),
            final(self).held_token() == old(self).held_token(),
            final(self).retries() == old(self).retries(),
    {
        &mut self.cache
    }
}

/// Lock error type.
#[derive(Debug)]
pub enum LockError<E> {
    /// Failed to acquire the lock
    Acquisition(CacheError),
    /// Error in the operation executed while holding the lock
    Operation(E),
    /// Failed to release the lock
    Release(CacheError),
}

} // verus!
