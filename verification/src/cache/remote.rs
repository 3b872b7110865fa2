//! The remote cache backends' shared key handling, the Redis backend as
//! built without Redis support, and the cache service reached through the
//! orchestrator.

use crate::cache::in_memory::namespaced;
use crate::cache::{CacheConfig, CacheError, CacheResult, CacheType};
use crate::ipc_types::ServiceResponse;
use crate::proxy::{connection_id_from_response, granted_connection};
use crate::sys::{duration_nanos, duration_secs};
use crate::json_value::{base64_decode, base64_encode, base64_standard_decoding, base64_standard_encoding, byte_items, bytes_from_items, JsonValue};
use crate::text::{chars_of, chars_starts_with, concat2, concat3, decimal, owned, string_from_chars, u64_to_string};
use std::time::Duration;
use vstd::prelude::*;

verus! {

/// The stored form of a key under an optional namespace: `namespace:key`.
pub fn prefix_key(namespace: Option<&str>, key: &str) -> (r: String)
    ensures
        r@ == namespaced(
            match namespace {
                Some(n) => Some(n@),
                None => None::<Seq<char>>,
            },
            key@,
        ),
{
    match namespace {
        Some(ns) => concat3(ns, ":", key),
        None => owned(key),
    }
}

/// The key that a stored key stands for: without the `namespace:` prefix
/// when it starts with it, unchanged otherwise.
pub open spec fn unprefixed(ns: Option<Seq<char>>, key: Seq<char>) -> Seq<char> {
    match ns {
        Some(n) => {
            let p = n + ":"@;
            if p.is_prefix_of(key) {
                key.subrange(p.len() as int, key.len() as int)
            } else {
                key
            }
        },
        None => key,
    }
}

/// Removes the `namespace:` prefix from a stored key.
pub fn strip_prefix(namespace: Option<&str>, key: &str) -> (r: String)
    ensures
        r@ == unprefixed(
            match namespace {
                Some(n) => Some(n@),
                None => None::<Seq<char>>,
            },
            key@,
        ),
{
    match namespace {
        Some(ns) => {
            let p = concat2(ns, ":");
            let pv = chars_of(p.as_str());
            let kv = chars_of(key);
            if chars_starts_with(kv.as_slice(), pv.as_slice()) {
                let mut rest: Vec<char> = Vec::new();
                let mut i = pv.len();
                while i < kv.len()
                    invariant
                        pv.len() <= i <= kv.len(),
                        rest@ == kv@.subrange(pv.len() as int, i as int),
                    decreases kv.len() - i,
                {
                    rest.push(kv[i]);
                    i = i + 1;
                    assert(rest@ =~= kv@.subrange(pv.len() as int, i as int));
                }
                string_from_chars(rest.as_slice())
            } else {
                owned(key)
            }
        },
        None => owned(key),
    }
}

/// Stripping a namespace undoes adding it.
pub proof fn law_strip_undoes_prefix(ns: Option<Seq<char>>, key: Seq<char>)
    ensures
        unprefixed(ns, namespaced(ns, key)) == key,
{
    if let Some(n) = ns {
        let p = n + ":"@;
        let k = namespaced(ns, key);
        assert(k =~= p + key);
        assert(k.subrange(0, p.len() as int) =~= p);
        assert(k.subrange(p.len() as int, k.len() as int) =~= key);
    }
}

/// The Redis backend as built without Redis support.
pub struct RedisCache;

impl RedisCache {
    /// Without Redis support there is nothing to connect to: a connection
    /// error that says so.
    pub fn connect(config: &CacheConfig) -> (r: CacheResult<RedisCache>)
        ensures
            r matches Err(CacheError::Connection(m))
                && m@ == "Redis support is not enabled. Recompile with the 'redis_cache' feature."@,
    {
        Err(CacheError::Connection(owned("Redis support is not enabled. Recompile with the 'redis_cache' feature.")))
    }
}

/// A cache service reached through the orchestrator.
pub struct ProxyCacheService {
    connection_id: String,
    cache_type: CacheType,
    default_ttl: Duration,
}

impl ProxyCacheService {
    /// The connection granted by the orchestrator.
    pub closed spec fn connection(&self) -> Seq<char> {
        self.connection_id@
    }

    /// The backend type asked for.
    pub closed spec fn backend(&self) -> CacheType {
        self.cache_type
    }

    /// The default TTL in whole seconds.
    pub closed spec fn ttl_secs(&self) -> u64 {
        duration_secs(self.default_ttl)
    }

    /// The nanoseconds of the default TTL past its whole seconds.
    pub closed spec fn ttl_nanos(&self) -> u32 {
        duration_nanos(self.default_ttl)
    }

    /// The service that a response to a cache service request grants: a
    /// connection error with the response's message when none is granted.
    pub fn from_response(config: &CacheConfig, response: ServiceResponse) -> (r: CacheResult<ProxyCacheService>)
        ensures
            match (r, granted_connection(response)) {
                (Ok(s), Ok(id)) => s.connection() == id && s.backend() == config.cache_type
                    && s.ttl_secs() == config.default_ttl_secs() && s.ttl_nanos() == config.default_ttl_nanos(),
                (Err(CacheError::Connection(m)), Err(e)) => m@ == e,
                _ => false,
            },
    {
        match connection_id_from_response(response) {
            Ok(connection_id) => Ok(
                ProxyCacheService {
                    connection_id,
                    cache_type: config.cache_type,
                    default_ttl: config.get_default_ttl(),
                },
            ),
            Err(e) => Err(CacheError::Connection(e)),
        }
    }

    /// The backend type.
    pub fn get_cache_type(&self) -> (r: CacheType)
        ensures
            r == self.backend(),
    {
        self.cache_type
    }

    /// The default TTL.
    pub fn get_default_ttl(&self) -> (r: Duration)
        ensures
            duration_secs(r) == self.ttl_secs(),
            duration_nanos(r) == self.ttl_nanos(),
    {
        self.default_ttl
    }

    /// The connection identifier that operations are sent with.
    pub fn connection_id(&self) -> (r: &str)
        ensures
            r@ == self.connection(),
    {
        self.connection_id.as_str()
    }
}

// ---------------------------------------------------------------------------
// Reading the cache service's answers
// ---------------------------------------------------------------------------

/// The outcome of any cache service operation: failure becomes an operation
/// error with the service's message, `Unknown error` when it gave none.
pub fn checked_cache_operation(success: bool, error: Option<String>) -> (r: CacheResult<()>)
    ensures
        success ==> r is Ok,
        !success ==> match error {
            Some(e) => r matches Err(CacheError::Operation(m)) && m@ == e@,
            None => r matches Err(CacheError::Operation(m)) && m@ == "Unknown error"@,
        },
{
    if success {
        Ok(())
    } else {
        Err(
            CacheError::Operation(
                match error {
                    Some(e) => e,
                    None => owned("Unknown error"),
                },
            ),
        )
    }
}

/// The message of a failed operation: the service's, or the given default.
pub open spec fn failure_text(error: Option<String>, default: Seq<char>) -> Seq<char> {
    match error {
        Some(e) => e@,
        None => default,
    }
}

/// The outcome of an operation that only reports success (set, set_many,
/// clear, flush): an operation error with the service's message, or the
/// given default message.
pub fn acknowledged(success: bool, error: Option<String>, default: &str) -> (r: CacheResult<()>)
    ensures
        success ==> r is Ok,
        !success ==> (r matches Err(CacheError::Operation(m)) && m@ == failure_text(error, default@)),
{
    if success {
        Ok(())
    } else {
        Err(
            CacheError::Operation(
                match error {
                    Some(e) => e,
                    None => owned(default),
                },
            ),
        )
    }
}

/// The outcome of ping and close: a connection error with the service's
/// message, or the given default message.
pub fn connection_acknowledged(success: bool, error: Option<String>, default: &str) -> (r: CacheResult<()>)
    ensures
        success ==> r is Ok,
        !success ==> (r matches Err(CacheError::Connection(m)) && m@ == failure_text(error, default@)),
{
    if success {
        Ok(())
    } else {
        Err(
            CacheError::Connection(
                match error {
                    Some(e) => e,
                    None => owned(default),
                },
            ),
        )
    }
}

/// The bytes of a base64 text, or a serialization error `Invalid base64: <reason>`.
fn decode_stored(s: &str) -> (r: CacheResult<Vec<u8>>)
    ensures
        match base64_standard_decoding(s@) {
            Ok(b) => r matches Ok(v) && v@ == b,
            Err(e) => r matches Err(CacheError::Serialization(m)) && m@ == "Invalid base64: "@ + e,
        },
{
    match base64_decode(s) {
        Ok(b) => Ok(b),
        Err(e) => Err(CacheError::Serialization(concat2("Invalid base64: ", e.as_str()))),
    }
}

/// A value read back from the cache service: none for no result or `null`;
/// the bytes of a base64 text or of an array of numbers; a serialization
/// error otherwise.
pub fn stored_value(result: Option<JsonValue>) -> (r: CacheResult<Option<Vec<u8>>>)
    ensures
        match result {
            None => r matches Ok(None),
            Some(JsonValue::Null) => r matches Ok(None),
            Some(JsonValue::Text(s)) => match base64_standard_decoding(s@) {
                Ok(b) => r matches Ok(Some(v)) && v@ == b,
                Err(e) => r matches Err(CacheError::Serialization(m)) && m@ == "Invalid base64: "@ + e,
            },
            Some(JsonValue::Array(items)) => match bytes_from_items(items@) {
                Ok(b) => r matches Ok(Some(v)) && v@ == b,
                Err(Some(n)) => r matches Err(CacheError::Serialization(m)) && m@ == "Invalid byte value: "@ + decimal(n as nat),
                Err(None) => r matches Err(CacheError::Serialization(m)) && m@ == "Invalid byte value"@,
            },
            Some(_) => r matches Err(CacheError::Serialization(m)) && m@ == "Invalid value format"@,
        },
{
    match result {
        None => Ok(None),
        Some(JsonValue::Null) => Ok(None),
        Some(JsonValue::Text(s)) => match decode_stored(s.as_str()) {
            Ok(b) => Ok(Some(b)),
            Err(e) => Err(e),
        },
        Some(JsonValue::Array(items)) => match byte_items(&items) {
            Ok(b) => Ok(Some(b)),
            Err(Some(n)) => {
                let t = u64_to_string(n);
                Err(CacheError::Serialization(concat2("Invalid byte value: ", t.as_str())))
            },
            Err(None) => Err(CacheError::Serialization(owned("Invalid byte value"))),
        },
        Some(_) => Err(CacheError::Serialization(owned("Invalid value format"))),
    }
}

/// The previous value handed back by get_set: none for no result or `null`,
/// the bytes of a base64 text, a serialization error otherwise.
pub fn previous_value(result: Option<JsonValue>) -> (r: CacheResult<Option<Vec<u8>>>)
    ensures
        match result {
            None => r matches Ok(None),
            Some(JsonValue::Null) => r matches Ok(None),
            Some(JsonValue::Text(s)) => match base64_standard_decoding(s@) {
                Ok(b) => r matches Ok(Some(v)) && v@ == b,
                Err(e) => r matches Err(CacheError::Serialization(m)) && m@ == "Invalid base64: "@ + e,
            },
            Some(_) => r matches Err(CacheError::Serialization(m)) && m@ == "Invalid value format"@,
        },
{
    match result {
        None => Ok(None),
        Some(JsonValue::Null) => Ok(None),
        Some(JsonValue::Text(s)) => match decode_stored(s.as_str()) {
            Ok(b) => Ok(Some(b)),
            Err(e) => Err(e),
        },
        Some(_) => Err(CacheError::Serialization(owned("Invalid value format"))),
    }
}

/// A yes/no answer (delete, exists, set_nx, unlock): the boolean; `false`
/// without a result; an operation error `Invalid <operation> result` for
/// anything else.
pub fn flag_result(result: Option<JsonValue>, operation: &str) -> (r: CacheResult<bool>)
    ensures
        match result {
            None => r matches Ok(false),
            Some(JsonValue::Bool(b)) => r matches Ok(x) && x == b,
            Some(_) => r matches Err(CacheError::Operation(m)) && m@ == "Invalid "@ + operation@ + " result"@,
        },
{
    match result {
        None => Ok(false),
        Some(JsonValue::Bool(b)) => Ok(b),
        Some(_) => Err(CacheError::Operation(concat3("Invalid ", operation, " result"))),
    }
}

/// The new counter value of an increment: an integer that fits in `i64`,
/// or an operation error.
pub fn counter_result(result: Option<JsonValue>) -> (r: CacheResult<i64>)
    ensures
        match result {
            Some(JsonValue::Integer(n)) => r matches Ok(x) && x == n,
            _ => r matches Err(CacheError::Operation(m)) && m@ == "Invalid increment result"@,
        },
{
    match result {
        Some(JsonValue::Integer(n)) => Ok(n),
        _ => Err(CacheError::Operation(owned("Invalid increment result"))),
    }
}

/// The number of keys delete_many removed: a non-negative integer; 0 without
/// a result; an operation error otherwise.
pub fn deleted_count(result: Option<JsonValue>) -> (r: CacheResult<u64>)
    ensures
        match result {
            None => r matches Ok(0),
            Some(v) => match crate::json_value::json_as_u64(v) {
                Some(n) => r matches Ok(x) && x == n,
                None => r matches Err(CacheError::Operation(m)) && m@ == "Invalid delete_many result"@,
            },
        },
{
    match result {
        None => Ok(0),
        Some(v) => match v.as_u64() {
            Some(n) => Ok(n),
            None => Err(CacheError::Operation(owned("Invalid delete_many result"))),
        },
    }
}

/// The token of a lock: none without a result or for `null`, the text of a
/// string, an operation error otherwise.
pub fn lock_token(result: Option<JsonValue>) -> (r: CacheResult<Option<String>>)
    ensures
        match result {
            None => r matches Ok(None),
            Some(JsonValue::Null) => r matches Ok(None),
            Some(JsonValue::Text(t)) => r matches Ok(Some(x)) && x@ == t@,
            Some(_) => r matches Err(CacheError::Operation(m)) && m@ == "Invalid lock token format"@,
        },
{
    match result {
        None => Ok(None),
        Some(JsonValue::Null) => Ok(None),
        Some(JsonValue::Text(t)) => Ok(Some(t)),
        Some(_) => Err(CacheError::Operation(owned("Invalid lock token format"))),
    }
}

/// The values get_many returned (key, base64 text), decoded in order; the
/// first text that is not base64 makes the whole a serialization error.
pub fn decoded_values(entries: Vec<(String, String)>) -> (r: CacheResult<Vec<(String, Vec<u8>)>>)
    ensures
        (forall|i: int| 0 <= i < entries@.len() ==> #[trigger] base64_standard_decoding(entries@[i].1@) is Ok) ==> (r matches Ok(v)
            && v@.len() == entries@.len() && forall|i: int| 0 <= i < entries@.len() ==> #[trigger] v@[i].0@ == entries@[i].0@
            && base64_standard_decoding(entries@[i].1@) == Ok::<Seq<u8>, Seq<char>>(v@[i].1@)),
        r is Err ==> exists|i: int| 0 <= i < entries@.len() && #[trigger] base64_standard_decoding(entries@[i].1@) is Err
            && (r matches Err(CacheError::Serialization(m)) && m@ == "Invalid base64: "@ + base64_standard_decoding(entries@[i].1@)->Err_0)
            && forall|j: int| 0 <= j < i ==> #[trigger] base64_standard_decoding(entries@[j].1@) is Ok,
{
    let mut out: Vec<(String, Vec<u8>)> = Vec::new();
    let mut i: usize = 0;
    while i < entries.len()
        invariant
            0 <= i <= entries.len(),
            out@.len() == i,
            forall|j: int| 0 <= j < i ==> #[trigger] base64_standard_decoding(entries@[j].1@) is Ok,
            forall|j: int| 0 <= j < i ==> #[trigger] out@[j].0@ == entries@[j].0@
                && base64_standard_decoding(entries@[j].1@) == Ok::<Seq<u8>, Seq<char>>(out@[j].1@),
        decreases entries.len() - i,
    {
        match decode_stored(entries[i].1.as_str()) {
            Ok(b) => {
                out.push((entries[i].0.clone(), b));
            },
            Err(e) => {
                return Err(e);
            },
        }
        i = i + 1;
    }
    Ok(out)
}

/// The base64 text in which a value travels to the cache service.
pub fn encode_stored(value: &[u8]) -> (r: String)
    requires
        (value@.len() / 3) * 4 + (if value@.len() % 3 > 0 { 4int } else { 0int }) <= usize::MAX,
    ensures
        r@ == base64_standard_encoding(value@),
{
    base64_encode(value)
}

} // verus!
