//! Properties of the in-memory cache that span several operations.

use crate::cache::in_memory::{
    fresh_entry, live, lock_key, lossy_text, InMemoryCache,
};
use crate::cache::patterns::{entity_key, type_namespace};
use crate::cache::{CacheError, CacheResult, CacheService};
use crate::sys::duration_secs;
use crate::text::{lemma_parse_signed_decimal, signed_decimal};
use std::time::Duration;
use vstd::prelude::*;
use vstd::utf8::{encode_utf8, encode_utf8_decode_utf8, encode_utf8_valid_utf8};

verus! {

/// A value written with `set` at `t1` is what `get` reads back at any time
/// `t2` before it expires.
pub proof fn law_get_reads_back_set(
    c0: InMemoryCache,
    c1: InMemoryCache,
    c2: InMemoryCache,
    key: Seq<char>,
    value: Seq<u8>,
    ttl: Option<Duration>,
    t1: u64,
    t2: u64,
    r1: CacheResult<()>,
    r2: CacheResult<Option<Vec<u8>>>,
)
    requires
        InMemoryCache::set_outcome(c0, c1, key, value, ttl, t1, r1),
        InMemoryCache::get_outcome(c1, c2, key, t2, r2),
        t2 < t1 + c0.effective_ttl(ttl),
        t2 < u64::MAX,
    ensures
        r2 matches Ok(Some(v)) && v@ == value,
        c2.entries() == c1.entries(),
{
    let fk = c0.full_key(key);
    assert(c1.full_key(key) == fk);
    assert(c1.entries()[fk] == fresh_entry(value, Some(c0.effective_ttl(ttl)), t1));
    assert(live(c1.entries(), fk, t2));
}

/// Once its TTL has run out, a value written with `set` is gone: `get`
/// reads nothing and drops the entry.
pub proof fn law_get_after_expiry(
    c0: InMemoryCache,
    c1: InMemoryCache,
    c2: InMemoryCache,
    key: Seq<char>,
    value: Seq<u8>,
    ttl: Option<Duration>,
    t1: u64,
    t2: u64,
    r1: CacheResult<()>,
    r2: CacheResult<Option<Vec<u8>>>,
)
    requires
        InMemoryCache::set_outcome(c0, c1, key, value, ttl, t1, r1),
        InMemoryCache::get_outcome(c1, c2, key, t2, r2),
        t2 >= t1 + c0.effective_ttl(ttl),
    ensures
        r2 matches Ok(None),
        !c2.entries().contains_key(c0.full_key(key)),
{
    let fk = c0.full_key(key);
    assert(c1.full_key(key) == fk);
    assert(!live(c1.entries(), fk, t2));
}

/// After `delete`, `get` finds nothing; `delete` reports whether there was
/// an entry.
pub proof fn law_get_after_delete(
    c0: InMemoryCache,
    c1: InMemoryCache,
    c2: InMemoryCache,
    key: Seq<char>,
    t: u64,
    r1: CacheResult<bool>,
    r2: CacheResult<Option<Vec<u8>>>,
)
    requires
        c1.wf(),
        c1.same_books(&c0),
        c1.entries() == c0.entries().remove(c0.full_key(key)),
        r1 == Ok::<bool, CacheError>(c0.entries().contains_key(c0.full_key(key))),
        InMemoryCache::get_outcome(c1, c2, key, t, r2),
    ensures
        r2 matches Ok(None),
{
    assert(c1.full_key(key) == c0.full_key(key));
}

/// `set_nx` never replaces a live entry: while one is stored it fails and
/// the stored value stays.
pub proof fn law_set_nx_keeps_live_value(
    c0: InMemoryCache,
    c1: InMemoryCache,
    key: Seq<char>,
    value: Seq<u8>,
    ttl: Option<Duration>,
    t: u64,
    r: CacheResult<bool>,
)
    requires
        InMemoryCache::set_nx_outcome(c0, c1, key, value, ttl, t, r),
        live(c0.entries(), c0.full_key(key), t),
    ensures
        r == Ok::<bool, CacheError>(false),
        c1.entries() == c0.entries(),
{
}

/// A second `set_nx` on the same key before the first one's value expires
/// fails, and the first value stays.
pub proof fn law_second_set_nx_fails(
    c0: InMemoryCache,
    c1: InMemoryCache,
    c2: InMemoryCache,
    key: Seq<char>,
    v1: Seq<u8>,
    v2: Seq<u8>,
    ttl1: Option<Duration>,
    ttl2: Option<Duration>,
    t1: u64,
    t2: u64,
    r1: CacheResult<bool>,
    r2: CacheResult<bool>,
)
    requires
        InMemoryCache::set_nx_outcome(c0, c1, key, v1, ttl1, t1, r1),
        InMemoryCache::set_nx_outcome(c1, c2, key, v2, ttl2, t2, r2),
        r1 == Ok::<bool, CacheError>(true),
        t2 < t1 + c0.effective_ttl(ttl1),
        t2 < u64::MAX,
    ensures
        r2 == Ok::<bool, CacheError>(false),
        c2.entries()[c0.full_key(key)].value == v1,
{
    let fk = c0.full_key(key);
    assert(c1.full_key(key) == fk);
    assert(live(c1.entries(), fk, t2));
}

/// Incrementing a key that holds no live entry starts from zero.
pub proof fn law_increment_starts_at_zero(
    c0: InMemoryCache,
    c1: InMemoryCache,
    key: Seq<char>,
    delta: i64,
    t: u64,
    r: CacheResult<i64>,
)
    requires
        InMemoryCache::increment_outcome(c0, c1, key, delta, t, r),
        !live(c0.entries(), c0.full_key(key), t),
    ensures
        r == Ok::<i64, CacheError>(delta),
{
}

/// Two increments before the counter expires add up: the second returns the
/// first result plus its own delta.
pub proof fn law_increments_accumulate(
    c0: InMemoryCache,
    c1: InMemoryCache,
    c2: InMemoryCache,
    key: Seq<char>,
    d1: i64,
    d2: i64,
    t1: u64,
    t2: u64,
    r1: CacheResult<i64>,
    r2: CacheResult<i64>,
)
    requires
        InMemoryCache::increment_outcome(c0, c1, key, d1, t1, r1),
        InMemoryCache::increment_outcome(c1, c2, key, d2, t2, r2),
        t2 < t1 + c0.ttl_secs(),
        t2 < u64::MAX,
    ensures
        r1 matches Ok(n1) && r2 matches Ok(n2) && n2 as int == n1 as int + d2 as int,
{
    let fk = c0.full_key(key);
    assert(c1.full_key(key) == fk);
    let n1 = r1->Ok_0;
    let text = signed_decimal(n1 as int);
    let e = c1.entries()[fk];
    assert(e.value == encode_utf8(text));
    assert(live(c1.entries(), fk, t2));
    encode_utf8_valid_utf8(text);
    encode_utf8_decode_utf8(text);
    assert(lossy_text(e.value) == text);
    lemma_parse_signed_decimal(n1);
}

/// A lock taken at `t1` blocks a second `lock` until it expires, refuses an
/// `unlock` with any other token, and is released by its own token.
pub proof fn law_lock_exclusive(
    c0: InMemoryCache,
    c1: InMemoryCache,
    c2: InMemoryCache,
    key: Seq<char>,
    ttl: Duration,
    t1: u64,
    t2: u64,
    r1: CacheResult<Option<String>>,
    r2: CacheResult<Option<String>>,
)
    requires
        InMemoryCache::lock_outcome(c0, c1, key, ttl, t1, r1),
        r1 matches Ok(Some(_)),
        InMemoryCache::lock_outcome(c1, c2, key, ttl, t2, r2),
        t2 < t1 + duration_secs(ttl),
        t2 < u64::MAX,
    ensures
        r2 matches Ok(None),
        c2.entries() == c1.entries(),
{
    let lk = lock_key(c0.ns(), key);
    assert(lock_key(c1.ns(), key) == lk);
    assert(live(c1.entries(), lk, t2));
}

/// Releasing a lock with the token that `lock` returned succeeds before the
/// lock expires, and leaves no lock behind; any other token is refused.
pub proof fn law_unlock_needs_token(
    c0: InMemoryCache,
    c1: InMemoryCache,
    c2: InMemoryCache,
    key: Seq<char>,
    ttl: Duration,
    token: Seq<char>,
    t1: u64,
    t2: u64,
    r1: CacheResult<Option<String>>,
    r2: CacheResult<bool>,
)
    requires
        InMemoryCache::lock_outcome(c0, c1, key, ttl, t1, r1),
        r1 matches Ok(Some(_)),
        InMemoryCache::unlock_outcome(c1, c2, key, token, t2, r2),
        t2 < t1 + duration_secs(ttl),
        t2 < u64::MAX,
    ensures
        r2 == Ok::<bool, CacheError>(token == r1->Ok_0->Some_0@),
        token == r1->Ok_0->Some_0@ ==> !c2.entries().contains_key(lock_key(c0.ns(), key)),
        token != r1->Ok_0->Some_0@ ==> c2.entries() == c1.entries(),
{
    let lk = lock_key(c0.ns(), key);
    assert(lock_key(c1.ns(), key) == lk);
    let t = r1->Ok_0->Some_0@;
    encode_utf8_valid_utf8(t);
    encode_utf8_decode_utf8(t);
    assert(lossy_text(c1.entries()[lk].value) == t);
    assert(live(c1.entries(), lk, t2));
}

/// Once its holder has released a lock, the key can be locked again at any
/// time: the next `lock` hands out a fresh token.
pub proof fn law_lock_again_after_unlock(
    c0: InMemoryCache,
    c1: InMemoryCache,
    c2: InMemoryCache,
    c3: InMemoryCache,
    key: Seq<char>,
    ttl: Duration,
    t1: u64,
    t2: u64,
    t3: u64,
    r1: CacheResult<Option<String>>,
    r2: CacheResult<bool>,
    r3: CacheResult<Option<String>>,
)
    requires
        InMemoryCache::lock_outcome(c0, c1, key, ttl, t1, r1),
        r1 matches Ok(Some(_)),
        InMemoryCache::unlock_outcome(c1, c2, key, r1->Ok_0->Some_0@, t2, r2),
        r2 == Ok::<bool, CacheError>(true),
        InMemoryCache::lock_outcome(c2, c3, key, ttl, t3, r3),
    ensures
        r3 matches Ok(Some(_)),
{
    let lk = lock_key(c0.ns(), key);
    assert(lock_key(c1.ns(), key) == lk);
    assert(lock_key(c2.ns(), key) == lk);
    assert(!c2.entries().contains_key(lk));
    assert(!live(c2.entries(), lk, t3));
}

/// Clearing a namespaced cache without naming a namespace leaves no value
/// readable under any key.
pub proof fn law_clear_empties_namespace(
    c0: InMemoryCache,
    c1: InMemoryCache,
    c2: InMemoryCache,
    key: Seq<char>,
    t: u64,
    r2: CacheResult<Option<Vec<u8>>>,
)
    requires
        c0.ns() is Some,
        c1.same_books(&c0),
        c1.entries() == crate::cache::in_memory::without_prefix(c0.entries(), c0.ns()->Some_0 + ":"@),
        InMemoryCache::get_outcome(c1, c2, key, t, r2),
    ensures
        r2 matches Ok(None),
{
    let p = c0.ns()->Some_0 + ":"@;
    let fk = c1.full_key(key);
    assert(fk == p + key);
    assert(p.is_prefix_of(fk)) by {
        assert(fk.subrange(0, p.len() as int) =~= p);
    }
    assert(!c1.entries().contains_key(fk));
}

/// Invalidating a type through a strategy (clearing the namespace
/// `prefix:type` of a cache without a namespace of its own) succeeds, and
/// afterwards no entity of that type is read.
pub proof fn law_type_invalidation_reads_nothing(
    c0: InMemoryCache,
    c1: InMemoryCache,
    c2: InMemoryCache,
    prefix: Seq<char>,
    entity_type: Seq<char>,
    entity_id: Seq<char>,
    r: CacheResult<()>,
    t: u64,
    r2: CacheResult<Option<Vec<u8>>>,
)
    requires
        c0.ns() is None,
        c0.clear_result(c1, Some(type_namespace(prefix, entity_type)), r),
        InMemoryCache::get_outcome(c1, c2, entity_key(prefix, entity_type, entity_id), t, r2),
    ensures
        r is Ok,
        r2 matches Ok(None),
{
    let p = type_namespace(prefix, entity_type) + ":"@;
    let fk = c1.full_key(entity_key(prefix, entity_type, entity_id));
    assert(fk =~= p + entity_id);
    assert(p.is_prefix_of(fk)) by {
        assert(fk.subrange(0, p.len() as int) =~= p);
    }
    assert(!c1.entries().contains_key(fk));
}

} // verus!
