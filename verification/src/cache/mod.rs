//! Cache configuration, errors, statistics and the cache service interface,
//! with the in-memory backend, the caching patterns and the remote backends'
//! key handling.

pub mod file;
pub mod in_memory;
pub mod laws;
pub mod patterns;
pub mod remote;
pub mod server_stats;

use crate::database::PoolConfig;
use crate::sys::{duration_from_secs, duration_nanos, duration_secs};
use crate::text::{concat2, owned, string_bytes, string_from_utf8};
use std::time::Duration;
use vstd::prelude::*;
use vstd::utf8::{decode_utf8, encode_utf8, valid_utf8};

verus! {

/// Cache policy for different caching strategies.
#[derive(Debug, Clone, Copy, PartialEq, Eq, Structural)]
pub enum CachePolicy {
    /// Least Recently Used policy
    LRU,
    /// First In First Out policy
    FIFO,
    /// Most Recently Used policy
    MRU,
    /// Least Frequently Used policy
    LFU,
    /// No eviction policy
    NoEviction,
}

impl Default for CachePolicy {
    fn default() -> (r: Self)
        ensures
            r == CachePolicy::LRU,
    {
        CachePolicy::LRU
    }
}

/// Cache service implementations.
#[derive(Debug, Clone, Copy, PartialEq, Eq, Structural)]
pub enum CacheType {
    /// In-memory cache
    InMemory,
    /// Redis cache
    Redis,
    /// Memcached cache
    Memcached,
    /// File-based cache
    File,
}

impl Default for CacheType {
    fn default() -> (r: Self)
        ensures
            r == CacheType::InMemory,
    {
        CacheType::InMemory
    }
}

/// Cache configuration.
///
/// `extra_params` holds additional backend parameters as key/value pairs.
#[derive(Debug, Clone)]
pub struct CacheConfig {
    /// Cache implementation type
    pub cache_type: CacheType,
    /// Cache eviction policy
    pub policy: CachePolicy,
    /// Maximum size in bytes (optional)
    pub max_size_bytes: Option<usize>,
    /// Default TTL for cache entries, in seconds
    pub default_ttl_seconds: u64,
    /// Default TTL as a `Duration`; takes precedence over `default_ttl_seconds`
    pub default_ttl: Option<Duration>,
    /// Hosts to connect to
    pub hosts: Vec<String>,
    /// Port to connect to
    pub port: Option<u16>,
    /// Network dial timeout
    pub connection_timeout_seconds: u64,
    /// Per-operation timeout
    pub operation_timeout_seconds: u64,
    /// User name
    pub username: Option<String>,
    /// Password
    pub password: Option<String>,
    /// Enable TLS/SSL if supported by the backend
    pub tls_enabled: bool,
    /// Backend database number
    pub database: Option<u8>,
    /// Directory of a file-based cache
    pub file_path: Option<String>,
    /// Optional key namespace/prefix
    pub namespace: Option<String>,
    /// Pool configuration
    pub pool: PoolConfig,
    /// Additional opaque parameters
    pub extra_params: Vec<(String, String)>,
}

impl CacheConfig {
    /// The default TTL in whole seconds: that of `default_ttl` when set, and
    /// `default_ttl_seconds` otherwise.
    pub open spec fn default_ttl_secs(&self) -> u64 {
        match self.default_ttl {
            Some(d) => duration_secs(d),
            None => self.default_ttl_seconds,
        }
    }

    /// The nanoseconds of the default TTL past its whole seconds: those of
    /// `default_ttl` when set, and none otherwise.
    pub open spec fn default_ttl_nanos(&self) -> u32 {
        match self.default_ttl {
            Some(d) => duration_nanos(d),
            None => 0,
        }
    }

    /// The default TTL: `default_ttl` when set, and `default_ttl_seconds`
    /// seconds otherwise.
    pub fn get_default_ttl(&self) -> (r: Duration)
        ensures
            self.default_ttl matches Some(d) ==> r == d,
            duration_secs(r) == self.default_ttl_secs(),
            duration_nanos(r) == self.default_ttl_nanos(),
    {
        match self.default_ttl {
            Some(d) => d,
            None => duration_from_secs(self.default_ttl_seconds),
        }
    }
}

impl Default for CacheConfig {
    /// An in-memory LRU cache of 10 MiB with a 300 second TTL on `localhost`.
    fn default() -> (r: Self)
        ensures
            r.cache_type == CacheType::InMemory,
            r.policy == CachePolicy::LRU,
            r.max_size_bytes == Some(10485760usize),
            r.default_ttl_seconds == 300,
            r.default_ttl is None,
            r.hosts@.len() == 1 && r.hosts@[0]@ == "localhost"@,
            r.port is None,
            r.connection_timeout_seconds == 5,
            r.operation_timeout_seconds == 2,
            r.username is None,
            r.password is None,
            !r.tls_enabled,
            r.database is None,
            r.file_path is None,
            r.namespace is None,
            r.pool.is_default(),
            r.extra_params@.len() == 0,
    {
        let mut hosts = Vec::new();
        hosts.push(owned("localhost"));
        CacheConfig {
            cache_type: CacheType::InMemory,
            policy: CachePolicy::default(),
            max_size_bytes: Some(1024 * 1024 * 10),
            default_ttl_seconds: 300,
            default_ttl: None,
            hosts,
            port: None,
            connection_timeout_seconds: 5,
            operation_timeout_seconds: 2,
            username: None,
            password: None,
            tls_enabled: false,
            database: None,
            file_path: None,
            namespace: None,
            pool: PoolConfig::default(),
            extra_params: Vec::new(),
        }
    }
}

/// Cache error type.
#[derive(Debug)]
pub enum CacheError {
    /// Connection error
    Connection(String),
    /// Set operation error
    Write(String),
    /// Get operation error
    Get(String),
    /// Delete operation error
    Delete(String),
    /// Flush operation error
    Flush(String),
    /// Cache configuration error
    Configuration(String),
    /// Cache serialization/deserialization error
    Serialization(String),
    /// Cache IPC error
    Ipc(String),
    /// Operation error
    Operation(String),
    /// Internal SDK implementation error
    Internal(String),
}

/// Cache result type.
pub type CacheResult<T> = Result<T, CacheError>;

/// The message of a cache error.
pub open spec fn cache_error_text(e: CacheError) -> Seq<char> {
    match e {
        CacheError::Connection(m) => "connection error: "@ + m@,
        CacheError::Write(m) => "set error: "@ + m@,
        CacheError::Get(m) => "get error: "@ + m@,
        CacheError::Delete(m) => "delete error: "@ + m@,
        CacheError::Flush(m) => "flush error: "@ + m@,
        CacheError::Configuration(m) => "configuration error: "@ + m@,
        CacheError::Serialization(m) => "serialization error: "@ + m@,
        CacheError::Ipc(m) => "IPC error: "@ + m@,
        CacheError::Operation(m) => "operation error: "@ + m@,
        CacheError::Internal(m) => "internal error: "@ + m@,
    }
}

impl CacheError {
    /// The message of this error.
    pub fn message(&self) -> (r: String)
        ensures
            r@ == cache_error_text(*self),
    {
        match self {
            CacheError::Connection(m) => concat2("connection error: ", m.as_str()),
            CacheError::Write(m) => concat2("set error: ", m.as_str()),
            CacheError::Get(m) => concat2("get error: ", m.as_str()),
            CacheError::Delete(m) => concat2("delete error: ", m.as_str()),
            CacheError::Flush(m) => concat2("flush error: ", m.as_str()),
            CacheError::Configuration(m) => concat2("configuration error: ", m.as_str()),
            CacheError::Serialization(m) => concat2("serialization error: ", m.as_str()),
            CacheError::Ipc(m) => concat2("IPC error: ", m.as_str()),
            CacheError::Operation(m) => concat2("operation error: ", m.as_str()),
            CacheError::Internal(m) => concat2("internal error: ", m.as_str()),
        }
    }
}

/// Cache statistics.
///
/// `additional_metrics` holds backend-specific metrics as key/value pairs.
#[derive(Debug, Clone)]
pub struct CacheStats {
    /// Number of cache hits
    pub hits: Option<u64>,
    /// Number of cache misses
    pub misses: Option<u64>,
    /// Number of set operations
    pub sets: Option<u64>,
    /// Number of delete operations
    pub deletes: Option<u64>,
    /// Total number of cached items
    pub item_count: Option<u64>,
    /// Memory usage in bytes (if provided by the backend)
    pub memory_used_bytes: Option<u64>,
    /// Additional backend-specific metrics
    pub additional_metrics: Vec<(String, String)>,
}

impl Default for CacheStats {
    fn default() -> (r: Self)
        ensures
            r.hits is None,
            r.misses is None,
            r.sets is None,
            r.deletes is None,
            r.item_count is None,
            r.memory_used_bytes is None,
            r.additional_metrics@.len() == 0,
    {
        CacheStats {
            hits: None,
            misses: None,
            sets: None,
            deletes: None,
            item_count: None,
            memory_used_bytes: None,
            additional_metrics: Vec::new(),
        }
    }
}

/// The text of an optional namespace argument.
pub open spec fn opt_str_view(o: Option<&str>) -> Option<Seq<char>> {
    match o {
        Some(s) => Some(s@),
        None => None,
    }
}

/// `r` answers with `()` what `d` answered with a value, or with the same
/// error.
pub open spec fn unit_result_of<T>(d: CacheResult<T>, r: CacheResult<()>) -> bool {
    match d {
        Ok(_) => r is Ok,
        Err(e) => r == Err::<(), CacheError>(e),
    }
}

/// Cache service interface.
///
/// Operations take the service mutably; a service shared between tasks is
/// held behind a lock by its owner. `well_formed` is the backend's own
/// invariant, which every operation keeps.
pub trait CacheService: Sized {
    /// The backend's invariant.
    spec fn well_formed(&self) -> bool;

    /// Whether incrementing the number under a key by `delta` stays within
    /// `i64` (an overflowing increment is a caller error).
    spec fn increment_allowed(&self, key: Seq<char>, delta: i64) -> bool;

    /// Whether `get` of `key` may take the cache from `self` to `after` and
    /// answer `r`: the backend's description of its `get`.
    spec fn get_result(&self, after: Self, key: Seq<char>, r: CacheResult<Option<Vec<u8>>>) -> bool;

    /// The backend's description of its `set`.
    spec fn set_result(&self, after: Self, key: Seq<char>, value: Seq<u8>, ttl: Option<Duration>, r: CacheResult<()>) -> bool;

    /// The backend's description of its `delete`.
    spec fn delete_result(&self, after: Self, key: Seq<char>, r: CacheResult<bool>) -> bool;

    /// The backend's description of its `increment`; a backend that has no such
    /// operation answers it with an error and leaves the cache as it was.
    spec fn increment_result(&self, after: Self, key: Seq<char>, delta: i64, r: CacheResult<i64>) -> bool;

    /// The backend's description of its `clear`; a backend that has no such
    /// operation answers it with an error and leaves the cache as it was.
    spec fn clear_result(&self, after: Self, namespace: Option<Seq<char>>, r: CacheResult<()>) -> bool;

    /// The backend's description of its `lock`; a backend that has no such
    /// operation answers it with an error and leaves the cache as it was.
    spec fn lock_result(&self, after: Self, key: Seq<char>, ttl: Duration, r: CacheResult<Option<String>>) -> bool;

    /// The backend's description of its `unlock`; a backend that has no such
    /// operation answers it with an error and leaves the cache as it was.
    spec fn unlock_result(&self, after: Self, key: Seq<char>, token: Seq<char>, r: CacheResult<bool>) -> bool;

    /// Get a value from the cache.
    fn get(&mut self, key: &str) -> (r: CacheResult<Option<Vec<u8>>>)
        requires
            old(self).well_formed(),
        ensures
            final(self).well_formed(),
            old(self).get_result(*final(self), key@, r),
    ;

    /// Set a value in the cache.
    fn set(&mut self, key: &str, value: &[u8], ttl: Option<Duration>) -> (r: CacheResult<()>)
        requires
            old(self).well_formed(),
        ensures
            final(self).well_formed(),
            old(self).set_result(*final(self), key@, value@, ttl, r),
    ;

    /// Delete a value from the cache.
    fn delete(&mut self, key: &str) -> (r: CacheResult<bool>)
        requires
            old(self).well_formed(),
        ensures
            final(self).well_formed(),
            old(self).delete_result(*final(self), key@, r),
    ;

    /// Delete all values from the cache.
    fn flush(&mut self) -> (r: CacheResult<()>)
        requires
            old(self).well_formed(),
        ensures
            final(self).well_formed(),
    ;

    /// Get cache statistics.
    fn stats(&mut self) -> (r: CacheResult<CacheStats>)
        requires
            old(self).well_formed(),
        ensures
            final(self).well_formed(),
    ;

    /// Ping the cache service.
    fn ping(&mut self) -> (r: CacheResult<()>)
        requires
            old(self).well_formed(),
        ensures
            final(self).well_formed(),
    ;

    /// Close the connection (if applicable).
    fn close(&mut self) -> (r: CacheResult<()>)
        requires
            old(self).well_formed(),
        ensures
            final(self).well_formed(),
    ;

    /// Whether a key exists; by default, whether `get` finds a value.
    fn key_exists(&mut self, key: &str) -> (r: CacheResult<bool>)
        requires
            old(self).well_formed(),
        ensures
            final(self).well_formed(),
        default_ensures
            exists|g: CacheResult<Option<Vec<u8>>>|
                #[trigger] old(self).get_result(*final(self), key@, g) && match g {
                    Ok(v) => r == Ok::<bool, CacheError>(v is Some),
                    Err(e) => r == Err::<bool, CacheError>(e),
                },
    {
        match self.get(key) {
            Ok(v) => Ok(v.is_some()),
            Err(e) => Err(e),
        }
    }

    /// Set a value only if the key does not already exist.
    fn set_nx(&mut self, key: &str, value: &[u8], ttl: Option<Duration>) -> (r: CacheResult<bool>)
        requires
            old(self).well_formed(),
        ensures
            final(self).well_formed(),
        default_ensures
            r matches Err(CacheError::Operation(m)) && m@ == "set_nx not implemented for this backend"@,
    {
        Err(CacheError::Operation(owned("set_nx not implemented for this backend")))
    }

    /// Atomically fetch the current value and replace it.
    fn get_set(&mut self, key: &str, value: &[u8]) -> (r: CacheResult<Option<Vec<u8>>>)
        requires
            old(self).well_formed(),
        ensures
            final(self).well_formed(),
        default_ensures
            r matches Err(CacheError::Operation(m)) && m@ == "get_set not implemented for this backend"@,
    {
        Err(CacheError::Operation(owned("get_set not implemented for this backend")))
    }

    /// Increment a numeric value.
    fn increment(&mut self, key: &str, delta: i64) -> (r: CacheResult<i64>)
        requires
            old(self).well_formed(),
            old(self).increment_allowed(key@, delta),
        ensures
            final(self).well_formed(),
            old(self).increment_result(*final(self), key@, delta, r),
    ;

    /// Set several key/value pairs in one operation.
    fn set_many(&mut self, items: &Vec<(String, Vec<u8>)>, ttl: Option<Duration>) -> (r: CacheResult<()>)
        requires
            old(self).well_formed(),
        ensures
            final(self).well_formed(),
        default_ensures
            r matches Err(CacheError::Operation(m)) && m@ == "set_many not implemented for this backend"@,
    {
        Err(CacheError::Operation(owned("set_many not implemented for this backend")))
    }

    /// Fetch several keys at once, skipping the missing ones.
    fn get_many(&mut self, keys: &[String]) -> (r: CacheResult<Vec<(String, Vec<u8>)>>)
        requires
            old(self).well_formed(),
        ensures
            final(self).well_formed(),
        default_ensures
            r matches Err(CacheError::Operation(m)) && m@ == "get_many not implemented for this backend"@,
    {
        Err(CacheError::Operation(owned("get_many not implemented for this backend")))
    }

    /// Delete several keys at once; the number of keys removed.
    fn delete_many(&mut self, keys: &[String]) -> (r: CacheResult<u64>)
        requires
            old(self).well_formed(),
        ensures
            final(self).well_formed(),
        default_ensures
            r matches Err(CacheError::Operation(m)) && m@ == "delete_many not implemented for this backend"@,
    {
        Err(CacheError::Operation(owned("delete_many not implemented for this backend")))
    }

    /// Clear the cache or a namespace.
    fn clear(&mut self, namespace: Option<&str>) -> (r: CacheResult<()>)
        requires
            old(self).well_formed(),
        ensures
            final(self).well_formed(),
            old(self).clear_result(*final(self), opt_str_view(namespace), r),
    ;

    /// Acquire a simple lock: the token when the lock was acquired.
    fn lock(&mut self, key: &str, ttl: Duration) -> (r: CacheResult<Option<String>>)
        requires
            old(self).well_formed(),
        ensures
            final(self).well_formed(),
            old(self).lock_result(*final(self), key@, ttl, r),
    ;

    /// Release a lock.
    fn unlock(&mut self, key: &str, token: &str) -> (r: CacheResult<bool>)
        requires
            old(self).well_formed(),
        ensures
            final(self).well_formed(),
            old(self).unlock_result(*final(self), key@, token@, r),
    ;

    /// Decrement a numeric value: `increment` by the negated delta.
    fn decrement(&mut self, key: &str, delta: i64) -> (r: CacheResult<i64>)
        requires
            old(self).well_formed(),
            delta != i64::MIN,
            old(self).increment_allowed(key@, (-delta) as i64),
        ensures
            final(self).well_formed(),
        default_ensures
            old(self).increment_result(*final(self), key@, (-delta) as i64, r),
    {
        self.increment(key, -delta)
    }

    /// Fetch a value as UTF-8 text: `None` when there is no value, the text
    /// when the bytes are valid UTF-8, and a `Get` error otherwise.
    fn get_string(&mut self, key: &str) -> (r: CacheResult<Option<String>>)
        requires
            old(self).well_formed(),
        ensures
            final(self).well_formed(),
        default_ensures
            exists|g: CacheResult<Option<Vec<u8>>>|
                #[trigger] old(self).get_result(*final(self), key@, g) && match g {
                    Ok(Some(b)) => if valid_utf8(b@) {
                        r matches Ok(Some(s)) && s@ == decode_utf8(b@)
                    } else {
                        r matches Err(CacheError::Get(m)) && "Invalid UTF-8: "@.is_prefix_of(m@)
                    },
                    Ok(None) => r matches Ok(None),
                    Err(e) => r == Err::<Option<String>, CacheError>(e),
                },
    {
        match self.get(key) {
            Ok(Some(bytes)) => decode_cached_text(bytes),
            Ok(None) => Ok(None),
            Err(e) => Err(e),
        }
    }

    /// Store text as its UTF-8 bytes.
    fn set_string(&mut self, key: &str, value: &str, ttl: Option<Duration>) -> (r: CacheResult<()>)
        requires
            old(self).well_formed(),
        ensures
            final(self).well_formed(),
        default_ensures
            old(self).set_result(*final(self), key@, encode_utf8(value@), ttl, r),
    {
        let bytes = string_bytes(value);
        self.set(key, bytes.as_slice(), ttl)
    }

    /// The backend type.
    fn get_cache_type(&self) -> (r: CacheType)
        default_ensures
            r == CacheType::InMemory,
    {
        CacheType::InMemory
    }

    /// The backend's default TTL.
    fn get_default_ttl(&self) -> (r: Duration)
        default_ensures
            duration_secs(r) == 0,
            duration_nanos(r) == 0,
    {
        duration_from_secs(0)
    }
}

/// The text of cached bytes: the decoded text when they are valid UTF-8, and
/// a `Get` error otherwise.
pub fn decode_cached_text(bytes: Vec<u8>) -> (r: CacheResult<Option<String>>)
    ensures
        valid_utf8(bytes@) ==> (r matches Ok(Some(s)) && s@ == decode_utf8(bytes@)),
        !valid_utf8(bytes@) ==> (r matches Err(CacheError::Get(m)) && "Invalid UTF-8: "@.is_prefix_of(m@)),
{
    match string_from_utf8(bytes) {
        Ok(s) => Ok(Some(s)),
        Err(e) => {
            let detail = crate::text::utf8_error_text(&e);
            let m = concat2("Invalid UTF-8: ", detail.as_str());
            proof {
                assert(m@.subrange(0, "Invalid UTF-8: "@.len() as int) =~= "Invalid UTF-8: "@);
            }
            Err(CacheError::Get(m))
        },
    }
}

/// Which cache backends this build can open.
#[derive(Debug, Clone, Copy)]
pub struct CacheBackendSupport {
    pub redis: bool,
    pub memcached: bool,
    pub file: bool,
}

/// The cache backend to open for a configuration, when this build has it:
/// a configuration error naming the missing feature otherwise.
pub fn choose_cache_backend(cache_type: CacheType, support: CacheBackendSupport) -> (r: CacheResult<CacheType>)
    ensures
        match cache_type {
            CacheType::InMemory => r matches Ok(CacheType::InMemory),
            CacheType::Redis => if support.redis {
                r matches Ok(CacheType::Redis)
            } else {
                r matches Err(CacheError::Configuration(m))
                    && m@ == "Redis cache support is not enabled. Enable the 'redis_cache' feature."@
            },
            CacheType::Memcached => if support.memcached {
                r matches Ok(CacheType::Memcached)
            } else {
                r matches Err(CacheError::Configuration(m))
                    && m@ == "Memcached support is not enabled. Enable the 'memcached' feature."@
            },
            CacheType::File => if support.file {
                r matches Ok(CacheType::File)
            } else {
                r matches Err(CacheError::Configuration(m))
                    && m@ == "File cache support is not enabled. Enable the 'file_cache' feature."@
            },
        },
{
    match cache_type {
        CacheType::InMemory => Ok(CacheType::InMemory),
        CacheType::Redis => if support.redis {
            Ok(CacheType::Redis)
        } else {
            Err(CacheError::Configuration(owned("Redis cache support is not enabled. Enable the 'redis_cache' feature.")))
        },
        CacheType::Memcached => if support.memcached {
            Ok(CacheType::Memcached)
        } else {
            Err(CacheError::Configuration(owned("Memcached support is not enabled. Enable the 'memcached' feature.")))
        },
        CacheType::File => if support.file {
            Ok(CacheType::File)
        } else {
            Err(CacheError::Configuration(owned("File cache support is not enabled. Enable the 'file_cache' feature.")))
        },
    }
}

} // verus!
