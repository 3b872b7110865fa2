//! In-memory cache backed by a concurrent hash map.
//!
//! Every operation that depends on the time has a variant ending in `_at`
//! that takes the current Unix time in seconds and whose contract states the
//! outcome exactly; the variant without the suffix reads the clock once and
//! then behaves as the `_at` variant at that time.

use crate::cache::{CacheConfig, CacheError, CacheResult, CacheService, CacheStats, CacheType};
use crate::sys::{
    duration_as_secs, duration_nanos, duration_secs, hyphenated_uuid_text, new_uuid_string, random_permutation,
    unix_now_secs,
};
use crate::text::{
    chars_of, chars_starts_with, concat2, concat3, i64_to_string, parse_i64, parse_i64_spec,
    signed_decimal, str_eq, string_bytes, string_from_utf8_lossy, utf8_lossy,
};
use dashmap::DashMap;
use std::time::Duration;
use vstd::prelude::*;
use vstd::utf8::{decode_utf8, encode_utf8, valid_utf8};

verus! {

#[verifier::external_type_specification]
#[verifier::external_body]
#[verifier::reject_recursive_types(K)]
#[verifier::reject_recursive_types(V)]
#[verifier::reject_recursive_types(S)]
pub struct ExDashMap<K, V, S>(DashMap<K, V, S>);

/// A stored value with its creation time and optional expiry time (Unix
/// seconds).
#[derive(Debug, Clone)]
pub struct CacheEntry {
    /// The stored value
    pub value: Vec<u8>,
    /// When the entry was created
    pub created_at_unix_secs: u64,
    /// When the entry expires, if ever
    pub expires_at_unix_secs: Option<u64>,
    /// Access frequency (kept for frequency-based policies)
    pub frequency: u64,
}

/// The mathematical content of a cache entry.
pub ghost struct CacheEntryView {
    pub value: Seq<u8>,
    pub created_at: u64,
    pub expires_at: Option<u64>,
    pub frequency: u64,
}

impl View for CacheEntry {
    type V = CacheEntryView;

    open spec fn view(&self) -> CacheEntryView {
        CacheEntryView {
            value: self.value@,
            created_at: self.created_at_unix_secs,
            expires_at: self.expires_at_unix_secs,
            frequency: self.frequency,
        }
    }
}

impl CacheEntryView {
    /// An entry is expired from its expiry time on.
    pub open spec fn expired_at(self, now: u64) -> bool {
        match self.expires_at {
            Some(e) => now >= e,
            None => false,
        }
    }
}

/// `now + ttl`, saturating at the largest time.
pub open spec fn expiry_after(now: u64, ttl: Option<u64>) -> Option<u64> {
    match ttl {
        Some(t) => Some(if now + t > u64::MAX { u64::MAX } else { (now + t) as u64 }),
        None => None,
    }
}

/// A new entry for `value` created at `now` that lives for `ttl` seconds.
pub open spec fn fresh_entry(value: Seq<u8>, ttl: Option<u64>, now: u64) -> CacheEntryView {
    CacheEntryView { value, created_at: now, expires_at: expiry_after(now, ttl), frequency: 0 }
}

/// The whole seconds of an optional duration.
pub open spec fn ttl_secs_opt(ttl: Option<Duration>) -> Option<u64> {
    match ttl {
        Some(d) => Some(duration_secs(d)),
        None => None,
    }
}

impl CacheEntry {
    /// A new entry created at `now`; with a TTL it expires `ttl` seconds
    /// later (at the largest time if that overflows).
    pub fn new_at(value: Vec<u8>, ttl: Option<Duration>, now: u64) -> (e: Self)
        ensures
            e@ == fresh_entry(value@, ttl_secs_opt(ttl), now),
    {
        let expires_at_unix_secs = match ttl {
            Some(d) => {
                let secs = duration_as_secs(&d);
                Some(
                    match now.checked_add(secs) {
                        Some(t) => t,
                        None => u64::MAX,
                    },
                )
            },
            None => None,
        };
        CacheEntry { value, created_at_unix_secs: now, expires_at_unix_secs, frequency: 0 }
    }

    /// A new entry created now.
    pub fn new(value: Vec<u8>, ttl: Option<Duration>) -> (e: Self)
        ensures
            exists|now: u64| e@ == #[trigger] fresh_entry(value@, ttl_secs_opt(ttl), now),
    {
        let now = unix_now_secs();
        CacheEntry::new_at(value, ttl, now)
    }

    /// Whether the entry is expired at `now`.
    pub fn is_expired_at(&self, now: u64) -> (r: bool)
        ensures
            r == self@.expired_at(now),
    {
        match self.expires_at_unix_secs {
            Some(exp) => now >= exp,
            None => false,
        }
    }

    /// Whether the entry is expired now; an entry without expiry never is.
    pub fn is_expired(&self) -> (r: bool)
        ensures
            exists|now: u64| r == #[trigger] self@.expired_at(now),
            self@.expires_at is None ==> !r,
    {
        let now = unix_now_secs();
        self.is_expired_at(now)
    }
}

// ---------------------------------------------------------------------------
// The concurrent map behind trusted items
// ---------------------------------------------------------------------------

/// The empty set of entries.
pub open spec fn no_entries() -> Map<Seq<char>, CacheEntryView> {
    Map::empty()
}

/// Name for the contents of a map of cache entries: each key's text and the
/// entry stored under it.
pub uninterp spec fn dashmap_entries(m: DashMap<String, CacheEntry>) -> Map<Seq<char>, CacheEntryView>;

/// `DashMap::new`: an empty map.
#[verifier::external_body]
fn dm_new() -> (m: DashMap<String, CacheEntry>)
    ensures
        dashmap_entries(m) == no_entries(),
{
    DashMap::new()
}

/// `DashMap::get`, cloning the entry found: the entry stored under the key,
/// if any.
#[verifier::external_body]
fn dm_get(m: &DashMap<String, CacheEntry>, key: &str) -> (r: Option<CacheEntry>)
    ensures
        r is Some <==> dashmap_entries(*m).contains_key(key@),
        r is Some ==> r->Some_0@ == dashmap_entries(*m)[key@],
{
    m.get(key).map(|entry| entry.value().clone())
}

/// `DashMap::insert`: the key now maps to the value; other keys unchanged.
#[verifier::external_body]
fn dm_insert(m: &mut DashMap<String, CacheEntry>, key: String, value: CacheEntry)
    ensures
        dashmap_entries(*final(m)) == dashmap_entries(*old(m)).insert(key@, value@),
{
    m.insert(key, value);
}

/// `DashMap::remove`: the key is gone; the removed pair is returned when
/// there was one.
#[verifier::external_body]
fn dm_remove(m: &mut DashMap<String, CacheEntry>, key: &str) -> (r: Option<(String, CacheEntry)>)
    ensures
        dashmap_entries(*final(m)) == dashmap_entries(*old(m)).remove(key@),
        r is Some <==> dashmap_entries(*old(m)).contains_key(key@),
        r is Some ==> r->Some_0.0@ == key@ && r->Some_0.1@ == dashmap_entries(*old(m))[key@],
{
    m.remove(key)
}

/// `DashMap::len`: the number of keys.
#[verifier::external_body]
fn dm_len(m: &DashMap<String, CacheEntry>) -> (r: usize)
    ensures
        r == dashmap_entries(*m).len(),
{
    m.len()
}

/// `DashMap::clear`: no keys left.
#[verifier::external_body]
fn dm_clear(m: &mut DashMap<String, CacheEntry>)
    ensures
        dashmap_entries(*final(m)) == no_entries(),
{
    m.clear();
}

/// `DashMap::iter`, keeping each key: every key exactly once, in the map's
/// own order.
#[verifier::external_body]
fn dm_keys(m: &DashMap<String, CacheEntry>) -> (r: Vec<String>)
    ensures
        r@.len() == dashmap_entries(*m).len(),
        forall|i: int| 0 <= i < r@.len() ==> dashmap_entries(*m).contains_key(#[trigger] r@[i]@),
        forall|k: Seq<char>| #[trigger] dashmap_entries(*m).contains_key(k) ==> exists|i: int|
            0 <= i < r@.len() && #[trigger] r@[i]@ == k,
        forall|i: int, j: int| 0 <= i < j < r@.len() ==> r@[i]@ != r@[j]@,
{
    m.iter().map(|entry| entry.key().clone()).collect()
}

// ---------------------------------------------------------------------------
// States and outcomes
// ---------------------------------------------------------------------------

/// The text of stored bytes as `String::from_utf8_lossy` reads it: the
/// decoded text of valid UTF-8.
pub open spec fn lossy_text(v: Seq<u8>) -> Seq<char> {
    if valid_utf8(v) {
        decode_utf8(v)
    } else {
        utf8_lossy(v)
    }
}

/// A key holds an entry that is not expired at `now`.
pub open spec fn live(m: Map<Seq<char>, CacheEntryView>, k: Seq<char>, now: u64) -> bool {
    m.contains_key(k) && !m[k].expired_at(now)
}

/// The stored form of a key: `namespace:key`, or the key itself.
pub open spec fn namespaced(ns: Option<Seq<char>>, key: Seq<char>) -> Seq<char> {
    match ns {
        Some(n) => n + ":"@ + key,
        None => key,
    }
}

/// The stored form of the lock on a key.
pub open spec fn lock_key(ns: Option<Seq<char>>, key: Seq<char>) -> Seq<char> {
    namespaced(ns, "lock:"@ + key)
}

/// Every entry of `new` is an unchanged entry of `old`.
pub open spec fn kept_within(new: Map<Seq<char>, CacheEntryView>, old: Map<Seq<char>, CacheEntryView>) -> bool {
    forall|k: Seq<char>| #[trigger] new.contains_key(k) ==> old.contains_key(k) && new[k] == old[k]
}

/// Whether a write makes room first: with a capacity `c`, when the map holds
/// at least `c` entries and a tenth of `c` is at least one.
pub open spec fn evicts(cap: Option<usize>, m: Map<Seq<char>, CacheEntryView>) -> bool {
    match cap {
        Some(c) => m.len() >= c && c / 10 > 0,
        None => false,
    }
}

/// `new` is `old` with `e` stored under `fk`, after eviction made room when
/// the capacity `cap` asks for it: then a tenth of the capacity of `old`'s
/// entries, whichever they are, were dropped first.
pub open spec fn stored_after_eviction(
    old: Map<Seq<char>, CacheEntryView>,
    new: Map<Seq<char>, CacheEntryView>,
    fk: Seq<char>,
    e: CacheEntryView,
    cap: Option<usize>,
) -> bool {
    &&& new.contains_key(fk)
    &&& new[fk] == e
    &&& kept_within(new.remove(fk), old)
    &&& (!evicts(cap, old) ==> new == old.insert(fk, e))
    &&& (evicts(cap, old) ==> exists|mid: Map<Seq<char>, CacheEntryView>|
        #![trigger mid.insert(fk, e)]
        kept_within(mid, old) && mid.len() == old.len() - cap->0 / 10 && new == mid.insert(fk, e))
}

/// A counter that counts one more event, wrapping at the largest value.
pub open spec fn bump(c: u64) -> u64 {
    if c == u64::MAX { 0 } else { (c + 1) as u64 }
}

/// The number that `increment` starts from: that of a live entry whose text
/// parses as an `i64`, and 0 otherwise.
pub open spec fn counter_value(m: Map<Seq<char>, CacheEntryView>, fk: Seq<char>, now: u64) -> int {
    if live(m, fk, now) {
        match parse_i64_spec(lossy_text(m[fk].value)) {
            Some(v) => v as int,
            None => 0,
        }
    } else {
        0
    }
}

/// The number stored under a key whatever the time: that of an entry whose
/// text parses as an `i64`, and 0 otherwise.
pub open spec fn stored_number(m: Map<Seq<char>, CacheEntryView>, fk: Seq<char>) -> int {
    if m.contains_key(fk) {
        match parse_i64_spec(lossy_text(m[fk].value)) {
            Some(v) => v as int,
            None => 0,
        }
    } else {
        0
    }
}

/// Stores each pair in order, under its namespaced key.
pub open spec fn apply_items(
    m: Map<Seq<char>, CacheEntryView>,
    items: Seq<(Seq<char>, Seq<u8>)>,
    ns: Option<Seq<char>>,
    ttl: u64,
    now: u64,
) -> Map<Seq<char>, CacheEntryView>
    decreases items.len(),
{
    if items.len() == 0 {
        m
    } else {
        apply_items(m, items.drop_last(), ns, ttl, now).insert(
            namespaced(ns, items.last().0),
            fresh_entry(items.last().1, Some(ttl), now),
        )
    }
}

/// The view of a list of key/value pairs.
pub open spec fn items_view(v: Seq<(String, Vec<u8>)>) -> Seq<(Seq<char>, Seq<u8>)> {
    v.map_values(|p: (String, Vec<u8>)| (p.0@, p.1@))
}

/// The view of a list of keys.
pub open spec fn keys_view(v: Seq<String>) -> Seq<Seq<char>> {
    v.map_values(|s: String| s@)
}

/// The state `get_many` works on: entries, pairs found, hits and misses.
pub type FetchState = (Map<Seq<char>, CacheEntryView>, Seq<(Seq<char>, Seq<u8>)>, u64, u64);

/// One key of `get_many`: a live entry is a hit and is reported; an expired
/// one is removed and is a miss; a missing key is a miss.
pub open spec fn fetch_step(st: FetchState, key: Seq<char>, ns: Option<Seq<char>>, now: u64) -> FetchState {
    let fk = namespaced(ns, key);
    if live(st.0, fk, now) {
        (st.0, st.1.push((key, st.0[fk].value)), bump(st.2), st.3)
    } else {
        (st.0.remove(fk), st.1, st.2, bump(st.3))
    }
}

/// `get_many` over a list of keys, in order.
pub open spec fn fetch_all(st: FetchState, keys: Seq<Seq<char>>, ns: Option<Seq<char>>, now: u64) -> FetchState
    decreases keys.len(),
{
    if keys.len() == 0 {
        st
    } else {
        fetch_step(fetch_all(st, keys.drop_last(), ns, now), keys.last(), ns, now)
    }
}

/// `delete_many` over a list of keys, in order: the entries left and the
/// number of keys removed.
pub open spec fn delete_all(m: Map<Seq<char>, CacheEntryView>, keys: Seq<Seq<char>>, ns: Option<Seq<char>>) -> (
    Map<Seq<char>, CacheEntryView>,
    nat,
)
    decreases keys.len(),
{
    if keys.len() == 0 {
        (m, 0)
    } else {
        let prev = delete_all(m, keys.drop_last(), ns);
        let fk = namespaced(ns, keys.last());
        if prev.0.contains_key(fk) {
            (prev.0.remove(fk), prev.1 + 1)
        } else {
            prev
        }
    }
}

/// The entries whose key does not start with `prefix`.
pub open spec fn without_prefix(m: Map<Seq<char>, CacheEntryView>, prefix: Seq<char>) -> Map<Seq<char>, CacheEntryView> {
    m.restrict(m.dom().filter(|k: Seq<char>| !prefix.is_prefix_of(k)))
}

/// The entries that are not expired at `now`.
pub open spec fn unexpired(m: Map<Seq<char>, CacheEntryView>, now: u64) -> Map<Seq<char>, CacheEntryView> {
    m.restrict(m.dom().filter(|k: Seq<char>| !m[k].expired_at(now)))
}

/// The bytes an entry is estimated to take: the key's UTF-8 bytes (counted
/// in a `usize`, as `str::len` gives them), the value's bytes and 32 bytes of
/// overhead.
pub open spec fn entry_footprint(k: Seq<char>, e: CacheEntryView) -> int {
    (encode_utf8(k).len() as usize) as int + e.value.len() + 32
}

/// The estimated bytes of the entries stored under the keys `ks`.
pub open spec fn footprint_total(ks: Seq<Seq<char>>, m: Map<Seq<char>, CacheEntryView>) -> int
    decreases ks.len(),
{
    if ks.len() == 0 {
        0
    } else {
        footprint_total(ks.drop_last(), m) + entry_footprint(ks.last(), m[ks.last()])
    }
}

/// `x`, or `u64::MAX` where `x` is larger.
pub open spec fn capped(x: int) -> int {
    if x > u64::MAX {
        u64::MAX as int
    } else {
        x
    }
}

/// In-memory cache.
pub struct InMemoryCache {
    cache: DashMap<String, CacheEntry>,
    default_ttl: Duration,
    namespace: Option<String>,
    max_items: Option<usize>,
    hits: u64,
    misses: u64,
}

impl InMemoryCache {
    /// The stored entries, by stored key.
    pub closed spec fn entries(&self) -> Map<Seq<char>, CacheEntryView> {
        dashmap_entries(self.cache)
    }

    /// The namespace, if any.
    pub closed spec fn ns(&self) -> Option<Seq<char>> {
        match self.namespace {
            Some(n) => Some(n@),
            None => None,
        }
    }

    /// The default TTL in whole seconds.
    pub closed spec fn ttl_secs(&self) -> u64 {
        duration_secs(self.default_ttl)
    }

    /// The nanoseconds of the default TTL past its whole seconds.
    pub closed spec fn ttl_nanos(&self) -> u32 {
        duration_nanos(self.default_ttl)
    }

    /// The maximum number of items, if any.
    pub closed spec fn capacity(&self) -> Option<usize> {
        self.max_items
    }

    /// Number of hits counted.
    pub closed spec fn hit_count(&self) -> u64 {
        self.hits
    }

    /// Number of misses counted.
    pub closed spec fn miss_count(&self) -> u64 {
        self.misses
    }

    /// The cache's invariant: finitely many entries.
    pub closed spec fn wf(&self) -> bool {
        self.entries().dom().finite()
    }

    /// The stored form of a key in this cache.
    pub open spec fn full_key(&self, key: Seq<char>) -> Seq<char> {
        namespaced(self.ns(), key)
    }

    /// Same namespace, TTL and capacity.
    pub open spec fn same_settings(&self, other: &Self) -> bool {
        &&& self.ns() == other.ns()
        &&& self.ttl_secs() == other.ttl_secs()
        &&& self.capacity() == other.capacity()
    }

    /// Same settings and counters.
    pub open spec fn same_books(&self, other: &Self) -> bool {
        &&& self.same_settings(other)
        &&& self.hit_count() == other.hit_count()
        &&& self.miss_count() == other.miss_count()
    }

    /// The effective TTL of a write: the one given, or the default.
    pub open spec fn effective_ttl(&self, ttl: Option<Duration>) -> u64 {
        match ttl {
            Some(d) => duration_secs(d),
            None => self.ttl_secs(),
        }
    }

    // ----- outcomes -----

    /// What `get` does at `now`.
    pub open spec fn get_outcome(old: Self, new: Self, key: Seq<char>, now: u64, r: CacheResult<Option<Vec<u8>>>) -> bool {
        let fk = old.full_key(key);
        let m = old.entries();
        &&& new.wf()
        &&& new.same_settings(&old)
        &&& if live(m, fk, now) {
            &&& (r matches Ok(Some(v)) && v@ == m[fk].value)
            &&& new.entries() == m
            &&& new.hit_count() == bump(old.hit_count())
            &&& new.miss_count() == old.miss_count()
        } else {
            &&& r matches Ok(None)
            &&& new.entries() == m.remove(fk)
            &&& new.hit_count() == old.hit_count()
            &&& new.miss_count() == bump(old.miss_count())
        }
    }

    /// What `get_string` does at `now`: `get`, with the bytes read as UTF-8
    /// text (a `Get` error when they are not UTF-8).
    pub open spec fn get_string_outcome(old: Self, new: Self, key: Seq<char>, now: u64, r: CacheResult<Option<String>>) -> bool {
        let fk = old.full_key(key);
        let m = old.entries();
        &&& new.wf()
        &&& new.same_settings(&old)
        &&& if live(m, fk, now) {
            &&& (valid_utf8(m[fk].value) ==> (r matches Ok(Some(s)) && s@ == decode_utf8(m[fk].value)))
            &&& (!valid_utf8(m[fk].value) ==> r matches Err(CacheError::Get(_)))
            &&& new.entries() == m
            &&& new.hit_count() == bump(old.hit_count())
            &&& new.miss_count() == old.miss_count()
        } else {
            &&& r matches Ok(None)
            &&& new.entries() == m.remove(fk)
            &&& new.hit_count() == old.hit_count()
            &&& new.miss_count() == bump(old.miss_count())
        }
    }

    /// What `set` does at `now`.
    pub open spec fn set_outcome(old: Self, new: Self, key: Seq<char>, value: Seq<u8>, ttl: Option<Duration>, now: u64, r: CacheResult<()>) -> bool {
        &&& r is Ok
        &&& new.wf()
        &&& new.same_books(&old)
        &&& stored_after_eviction(
            old.entries(),
            new.entries(),
            old.full_key(key),
            fresh_entry(value, Some(old.effective_ttl(ttl)), now),
            old.capacity(),
        )
    }

    /// What `exists` does at `now`.
    pub open spec fn exists_outcome(old: Self, new: Self, key: Seq<char>, now: u64, r: CacheResult<bool>) -> bool {
        let fk = old.full_key(key);
        let m = old.entries();
        &&& new.wf()
        &&& new.same_settings(&old)
        &&& new.entries() == m
        &&& r == Ok::<bool, CacheError>(live(m, fk, now))
        &&& if live(m, fk, now) {
            new.hit_count() == bump(old.hit_count()) && new.miss_count() == old.miss_count()
        } else {
            new.hit_count() == old.hit_count() && new.miss_count() == bump(old.miss_count())
        }
    }

    /// What `set_nx` does at `now`.
    pub open spec fn set_nx_outcome(old: Self, new: Self, key: Seq<char>, value: Seq<u8>, ttl: Option<Duration>, now: u64, r: CacheResult<bool>) -> bool {
        let fk = old.full_key(key);
        let m = old.entries();
        &&& new.wf()
        &&& new.same_books(&old)
        &&& if live(m, fk, now) {
            r == Ok::<bool, CacheError>(false) && new.entries() == m
        } else {
            &&& r == Ok::<bool, CacheError>(true)
            &&& stored_after_eviction(
                m.remove(fk),
                new.entries(),
                fk,
                fresh_entry(value, Some(old.effective_ttl(ttl)), now),
                old.capacity(),
            )
        }
    }

    /// What `get_set` does at `now`.
    pub open spec fn get_set_outcome(old: Self, new: Self, key: Seq<char>, value: Seq<u8>, now: u64, r: CacheResult<Option<Vec<u8>>>) -> bool {
        let fk = old.full_key(key);
        let m = old.entries();
        &&& new.wf()
        &&& new.same_settings(&old)
        &&& stored_after_eviction(
            m,
            new.entries(),
            fk,
            fresh_entry(value, Some(old.ttl_secs()), now),
            old.capacity(),
        )
        &&& if live(m, fk, now) {
            &&& (r matches Ok(Some(v)) && v@ == m[fk].value)
            &&& new.hit_count() == bump(old.hit_count())
            &&& new.miss_count() == old.miss_count()
        } else {
            &&& r matches Ok(None)
            &&& new.hit_count() == old.hit_count()
            &&& new.miss_count() == bump(old.miss_count())
        }
    }

    /// What `increment` does at `now`.
    pub open spec fn increment_outcome(old: Self, new: Self, key: Seq<char>, delta: i64, now: u64, r: CacheResult<i64>) -> bool {
        let fk = old.full_key(key);
        let m = old.entries();
        let n = counter_value(m, fk, now) + delta;
        &&& new.wf()
        &&& new.same_settings(&old)
        &&& (r matches Ok(v) && v as int == n)
        &&& stored_after_eviction(
            m,
            new.entries(),
            fk,
            fresh_entry(encode_utf8(signed_decimal(n)), Some(old.ttl_secs()), now),
            old.capacity(),
        )
        &&& if live(m, fk, now) {
            new.hit_count() == bump(old.hit_count()) && new.miss_count() == old.miss_count()
        } else {
            new.hit_count() == old.hit_count() && new.miss_count() == bump(old.miss_count())
        }
    }

    /// Whether `increment` by `delta` stays within `i64` whatever the time.
    pub open spec fn increment_fits(&self, key: Seq<char>, delta: i64) -> bool {
        let s = stored_number(self.entries(), self.full_key(key));
        i64::MIN <= s + delta <= i64::MAX
    }

    /// What `lock` does at `now`; `token` is the fresh token it drew.
    pub open spec fn lock_outcome(old: Self, new: Self, key: Seq<char>, ttl: Duration, now: u64, r: CacheResult<Option<String>>) -> bool {
        let lk = lock_key(old.ns(), key);
        let m = old.entries();
        &&& new.wf()
        &&& new.same_books(&old)
        &&& if live(m, lk, now) {
            r matches Ok(None) && new.entries() == m
        } else {
            &&& r matches Ok(Some(_))
            &&& hyphenated_uuid_text(r->Ok_0->Some_0@)
            &&& stored_after_eviction(
                m,
                new.entries(),
                lk,
                fresh_entry(encode_utf8(r->Ok_0->Some_0@), Some(duration_secs(ttl)), now),
                old.capacity(),
            )
        }
    }

    /// What `unlock` does at `now`: the lock is released only when it is held
    /// (live) with the given token.
    pub open spec fn unlock_outcome(old: Self, new: Self, key: Seq<char>, token: Seq<char>, now: u64, r: CacheResult<bool>) -> bool {
        let lk = lock_key(old.ns(), key);
        let m = old.entries();
        let held = live(m, lk, now) && lossy_text(m[lk].value) == token;
        &&& new.wf()
        &&& new.same_books(&old)
        &&& r == Ok::<bool, CacheError>(held)
        &&& new.entries() == if held { m.remove(lk) } else { m }
    }

    /// What `get_many` does at `now`.
    pub open spec fn get_many_outcome(old: Self, new: Self, keys: Seq<Seq<char>>, now: u64, r: CacheResult<Vec<(String, Vec<u8>)>>) -> bool {
        let st = fetch_all((old.entries(), Seq::empty(), old.hit_count(), old.miss_count()), keys, old.ns(), now);
        &&& new.wf()
        &&& new.same_settings(&old)
        &&& (r matches Ok(v) && items_view(v@) == st.1)
        &&& new.entries() == st.0
        &&& new.hit_count() == st.2
        &&& new.miss_count() == st.3
    }

    /// What `set_many` does at `now`: when the pairs would overflow the
    /// capacity some entries may be evicted first; then each pair is stored in
    /// order.
    pub open spec fn set_many_outcome(old: Self, new: Self, items: Seq<(Seq<char>, Seq<u8>)>, ttl: Option<Duration>, now: u64, r: CacheResult<()>) -> bool {
        let m = old.entries();
        let may_evict = items.len() > 0 && match old.capacity() {
            Some(c) => m.len() + items.len() > c,
            None => false,
        };
        let wanted = m.len() + items.len() - old.capacity()->0 + 1;
        &&& r is Ok
        &&& new.wf()
        &&& new.same_books(&old)
        &&& exists|kept: Map<Seq<char>, CacheEntryView>| {
            &&& kept_within(kept, m)
            &&& (!may_evict ==> kept == m)
            &&& (may_evict ==> kept.len() == m.len() - if wanted < m.len() { wanted } else { m.len() as int })
            &&& new.entries() == #[trigger] apply_items(kept, items, old.ns(), old.effective_ttl(ttl), now)
        }
    }

    // ----- construction and keys -----

    /// A new, empty cache with the configuration's namespace and default
    /// TTL, and room for about one item per 100 bytes of the configured size.
    pub fn new(config: &CacheConfig) -> (c: Self)
        ensures
            c.wf(),
            c.entries() == Map::<Seq<char>, CacheEntryView>::empty(),
            c.ns() == match config.namespace {
                Some(n) => Some(n@),
                None => None::<Seq<char>>,
            },
            c.ttl_secs() == config.default_ttl_secs(),
            c.ttl_nanos() == config.default_ttl_nanos(),
            c.capacity() == match config.max_size_bytes {
                Some(b) => Some((b / 100) as usize),
                None => None::<usize>,
            },
            c.hit_count() == 0,
            c.miss_count() == 0,
    {
        let default_ttl = config.get_default_ttl();
        let max_items = match config.max_size_bytes {
            Some(bytes) => Some(bytes / 100),
            None => None,
        };
        let namespace = match &config.namespace {
            Some(n) => Some(n.clone()),
            None => None,
        };
        InMemoryCache { cache: dm_new(), default_ttl, namespace, max_items, hits: 0, misses: 0 }
    }

    /// The stored form of a key: `namespace:key` when a namespace is set.
    pub fn prefix_key(&self, key: &str) -> (r: String)
        ensures
            r@ == self.full_key(key@),
    {
        match &self.namespace {
            Some(ns) => concat3(ns.as_str(), ":", key),
            None => crate::text::owned(key),
        }
    }

    fn count_hit(&mut self)
        ensures
            final(self).hits == bump(old(self).hits),
            final(self).misses == old(self).misses,
            final(self).cache == old(self).cache,
            final(self).default_ttl == old(self).default_ttl,
            final(self).namespace == old(self).namespace,
            final(self).max_items == old(self).max_items,
    {
        self.hits = if self.hits == u64::MAX { 0 } else { self.hits + 1 };
    }

    fn count_miss(&mut self)
        ensures
            final(self).misses == bump(old(self).misses),
            final(self).hits == old(self).hits,
            final(self).cache == old(self).cache,
            final(self).default_ttl == old(self).default_ttl,
            final(self).namespace == old(self).namespace,
            final(self).max_items == old(self).max_items,
    {
        self.misses = if self.misses == u64::MAX { 0 } else { self.misses + 1 };
    }

    /// Removes up to `count` entries chosen at random.
    fn evict_random(&mut self, count: usize)
        requires
            old(self).wf(),
        ensures
            final(self).wf(),
            final(self).same_books(&*old(self)),
            kept_within(final(self).entries(), old(self).entries()),
            final(self).entries().len() == old(self).entries().len() - if count < old(self).entries().len() {
                count as int
            } else {
                old(self).entries().len() as int
            },
    {
        let keys = dm_keys(&self.cache);
        let order = random_permutation(keys.len());
        let ghost start = self.entries();
        let mut i: usize = 0;
        while i < count && i < order.len()
            invariant
                self.wf(),
                self.same_books(&*old(self)),
                start == old(self).entries(),
                kept_within(self.entries(), start),
                order@.len() == keys@.len(),
                keys@.len() == start.len(),
                0 <= i <= order@.len(),
                i <= count,
                forall|j: int| 0 <= j < order@.len() ==> #[trigger] order@[j] < order@.len(),
                forall|a: int, b: int| 0 <= a < b < order@.len() ==> order@[a] != order@[b],
                forall|a: int, b: int| 0 <= a < b < keys@.len() ==> keys@[a]@ != keys@[b]@,
                forall|j: int| i <= j < order@.len() ==> self.entries().contains_key(
                    #[trigger] keys@[order@[j] as int]@,
                ),
                self.entries().len() == start.len() - i,
            decreases order.len() - i,
        {
            let idx = order[i];
            if idx < keys.len() {
                let ghost before = self.entries();
                assert(before.contains_key(keys@[order@[i as int] as int]@));
                dm_remove(&mut self.cache, keys[idx].as_str());
                proof {
                    vstd::set::axiom_set_remove_len(before.dom(), keys@[idx as int]@);
                    assert(self.entries().dom() =~= before.dom().remove(keys@[idx as int]@));
                    assert forall|j: int| i + 1 <= j < order@.len() implies self.entries().contains_key(
                        #[trigger] keys@[order@[j] as int]@,
                    ) by {
                        assert(before.contains_key(keys@[order@[j] as int]@));
                        let a = order@[j] as int;
                        let b = idx as int;
                        assert(a != b);
                        if a < b {
                            assert(keys@[a]@ != keys@[b]@);
                        } else {
                            assert(keys@[b]@ != keys@[a]@);
                        }
                    }
                }
            }
            i = i + 1;
        }
    }

    /// Makes room when the cache is full: with a capacity, when it holds at
    /// least that many entries, a tenth of the capacity is evicted at random.
    fn maybe_evict(&mut self)
        requires
            old(self).wf(),
        ensures
            final(self).wf(),
            final(self).same_books(&*old(self)),
            kept_within(final(self).entries(), old(self).entries()),
            !evicts(old(self).capacity(), old(self).entries()) ==> final(self).entries() == old(self).entries(),
            evicts(old(self).capacity(), old(self).entries()) ==> final(self).entries().len()
                == old(self).entries().len() - old(self).capacity()->0 / 10,
    {
        if let Some(max_items) = self.max_items {
            if dm_len(&self.cache) >= max_items {
                let evict_count = max_items / 10;
                if evict_count > 0 {
                    self.evict_random(evict_count);
                }
            }
        }
    }

    /// Stores an entry after making room for it.
    fn store(&mut self, fk: String, entry: CacheEntry)
        requires
            old(self).wf(),
        ensures
            final(self).wf(),
            final(self).same_books(&*old(self)),
            stored_after_eviction(
                old(self).entries(),
                final(self).entries(),
                fk@,
                entry@,
                old(self).capacity(),
            ),
    {
        self.maybe_evict();
        let ghost mid = self.entries();
        dm_insert(&mut self.cache, fk, entry);
        proof {
            assert(self.entries().remove(fk@) =~= mid.remove(fk@));
            assert(self.entries() == mid.insert(fk@, entry@));
        }
    }

    // ----- operations at a given time -----

    /// `get` at time `now`: the value of a live entry (a hit); otherwise
    /// nothing, an expired entry being removed (a miss).
    pub fn get_at(&mut self, key: &str, now: u64) -> (r: CacheResult<Option<Vec<u8>>>)
        requires
            old(self).wf(),
        ensures
            Self::get_outcome(*old(self), *final(self), key@, now, r),
    {
        let fk = self.prefix_key(key);
        match dm_get(&self.cache, fk.as_str()) {
            Some(entry) => {
                if entry.is_expired_at(now) {
                    self.count_miss();
                    dm_remove(&mut self.cache, fk.as_str());
                    Ok(None)
                } else {
                    self.count_hit();
                    Ok(Some(entry.value))
                }
            },
            None => {
                self.count_miss();
                proof {
                    assert(self.entries().remove(fk@) =~= self.entries());
                }
                Ok(None)
            },
        }
    }

    /// `set` at time `now`: stores the value with the given TTL or the
    /// default one, after making room.
    pub fn set_at(&mut self, key: &str, value: &[u8], ttl: Option<Duration>, now: u64) -> (r: CacheResult<()>)
        requires
            old(self).wf(),
        ensures
            Self::set_outcome(*old(self), *final(self), key@, value@, ttl, now, r),
    {
        let fk = self.prefix_key(key);
        let ttl = match ttl {
            Some(d) => Some(d),
            None => Some(self.default_ttl),
        };
        let entry = CacheEntry::new_at(vstd::slice::slice_to_vec(value), ttl, now);
        self.store(fk, entry);
        Ok(())
    }

    /// `exists` at time `now`: whether a live entry is stored (a hit or a miss
    /// is counted); nothing is removed.
    pub fn exists_at(&mut self, key: &str, now: u64) -> (r: CacheResult<bool>)
        requires
            old(self).wf(),
        ensures
            Self::exists_outcome(*old(self), *final(self), key@, now, r),
    {
        let fk = self.prefix_key(key);
        match dm_get(&self.cache, fk.as_str()) {
            Some(entry) => {
                if entry.is_expired_at(now) {
                    self.count_miss();
                    Ok(false)
                } else {
                    self.count_hit();
                    Ok(true)
                }
            },
            None => {
                self.count_miss();
                Ok(false)
            },
        }
    }

    /// `set_nx` at time `now`: stores the value only when no live entry is
    /// stored under the key (an expired one is replaced).
    pub fn set_nx_at(&mut self, key: &str, value: &[u8], ttl: Option<Duration>, now: u64) -> (r: CacheResult<bool>)
        requires
            old(self).wf(),
        ensures
            Self::set_nx_outcome(*old(self), *final(self), key@, value@, ttl, now, r),
    {
        let fk = self.prefix_key(key);
        match dm_get(&self.cache, fk.as_str()) {
            Some(entry) => {
                if !entry.is_expired_at(now) {
                    return Ok(false);
                }
                dm_remove(&mut self.cache, fk.as_str());
            },
            None => {
                proof {
                    assert(self.entries().remove(fk@) =~= self.entries());
                }
            },
        }
        let ttl = match ttl {
            Some(d) => Some(d),
            None => Some(self.default_ttl),
        };
        let entry = CacheEntry::new_at(vstd::slice::slice_to_vec(value), ttl, now);
        self.store(fk, entry);
        Ok(true)
    }

    /// `get_set` at time `now`: the previous live value (a hit) or nothing (a
    /// miss); the new value is stored with the default TTL.
    pub fn get_set_at(&mut self, key: &str, value: &[u8], now: u64) -> (r: CacheResult<Option<Vec<u8>>>)
        requires
            old(self).wf(),
        ensures
            Self::get_set_outcome(*old(self), *final(self), key@, value@, now, r),
    {
        let fk = self.prefix_key(key);
        let old_value = match dm_get(&self.cache, fk.as_str()) {
            Some(entry) => {
                if entry.is_expired_at(now) {
                    self.count_miss();
                    None
                } else {
                    self.count_hit();
                    Some(entry.value)
                }
            },
            None => {
                self.count_miss();
                None
            },
        };
        let entry = CacheEntry::new_at(vstd::slice::slice_to_vec(value), Some(self.default_ttl), now);
        self.store(fk, entry);
        Ok(old_value)
    }

    /// `increment` at time `now`: the number stored in a live entry (0 when
    /// there is none or its text is not a number) plus `delta`, stored back as
    /// decimal text with the default TTL.
    pub fn increment_at(&mut self, key: &str, delta: i64, now: u64) -> (r: CacheResult<i64>)
        requires
            old(self).wf(),
            i64::MIN <= counter_value(old(self).entries(), old(self).full_key(key@), now) + delta <= i64::MAX,
        ensures
            Self::increment_outcome(*old(self), *final(self), key@, delta, now, r),
    {
        let fk = self.prefix_key(key);
        let current_value: i64 = match dm_get(&self.cache, fk.as_str()) {
            Some(entry) => {
                if entry.is_expired_at(now) {
                    self.count_miss();
                    0
                } else {
                    self.count_hit();
                    let text = string_from_utf8_lossy(entry.value.as_slice());
                    match parse_i64(text.as_str()) {
                        Some(v) => v,
                        None => 0,
                    }
                }
            },
            None => {
                self.count_miss();
                0
            },
        };
        let new_value = current_value + delta;
        let text = i64_to_string(new_value);
        let bytes = string_bytes(text.as_str());
        let entry = CacheEntry::new_at(bytes, Some(self.default_ttl), now);
        self.store(fk, entry);
        Ok(new_value)
    }

    /// `lock` at time `now`: fails (`None`) while a live lock is stored;
    /// otherwise stores a fresh token for `ttl` and returns it.
    pub fn lock_at(&mut self, key: &str, ttl: Duration, now: u64) -> (r: CacheResult<Option<String>>)
        requires
            old(self).wf(),
        ensures
            Self::lock_outcome(*old(self), *final(self), key@, ttl, now, r),
    {
        let inner = concat2("lock:", key);
        let lk = self.prefix_key(inner.as_str());
        let token = new_uuid_string();
        let existing_lock = match dm_get(&self.cache, lk.as_str()) {
            Some(entry) => !entry.is_expired_at(now),
            None => false,
        };
        if existing_lock {
            return Ok(None);
        }
        let bytes = string_bytes(token.as_str());
        let entry = CacheEntry::new_at(bytes, Some(ttl), now);
        self.store(lk, entry);
        Ok(Some(token))
    }

    /// `unlock` at time `now`: removes the lock only when it is live and
    /// holds the given token.
    pub fn unlock_at(&mut self, key: &str, lock_token: &str, now: u64) -> (r: CacheResult<bool>)
        requires
            old(self).wf(),
        ensures
            Self::unlock_outcome(*old(self), *final(self), key@, lock_token@, now, r),
    {
        let inner = concat2("lock:", key);
        let lk = self.prefix_key(inner.as_str());
        match dm_get(&self.cache, lk.as_str()) {
            Some(entry) => {
                if !entry.is_expired_at(now) {
                    let current_token = string_from_utf8_lossy(entry.value.as_slice());
                    if str_eq(current_token.as_str(), lock_token) {
                        dm_remove(&mut self.cache, lk.as_str());
                        return Ok(true);
                    }
                }
            },
            None => {},
        }
        Ok(false)
    }

    /// `get_many` at time `now`: the pairs found, one per requested key that
    /// holds a live entry, in the order of the keys.
    pub fn get_many_at(&mut self, keys: &[String], now: u64) -> (r: CacheResult<Vec<(String, Vec<u8>)>>)
        requires
            old(self).wf(),
        ensures
            Self::get_many_outcome(*old(self), *final(self), keys_view(keys@), now, r),
    {
        let mut result: Vec<(String, Vec<u8>)> = Vec::new();
        let ghost ks = keys_view(keys@);
        let ghost st0: FetchState = (self.entries(), Seq::empty(), self.hits, self.misses);
        let mut i: usize = 0;
        while i < keys.len()
            invariant
                0 <= i <= keys.len(),
                ks == keys_view(keys@),
                st0 == (old(self).entries(), Seq::<(Seq<char>, Seq<u8>)>::empty(), old(self).hits, old(self).misses),
                self.wf(),
                self.same_settings(&*old(self)),
                ({
                    let st = fetch_all(st0, ks.take(i as int), self.ns(), now);
                    &&& self.entries() == st.0
                    &&& items_view(result@) == st.1
                    &&& self.hits == st.2
                    &&& self.misses == st.3
                }),
            decreases keys.len() - i,
        {
            let ghost prev = fetch_all(st0, ks.take(i as int), self.ns(), now);
            let fk = self.prefix_key(keys[i].as_str());
            match dm_get(&self.cache, fk.as_str()) {
                Some(entry) => {
                    if !entry.is_expired_at(now) {
                        self.count_hit();
                        result.push((keys[i].clone(), entry.value));
                    } else {
                        self.count_miss();
                        dm_remove(&mut self.cache, fk.as_str());
                    }
                },
                None => {
                    self.count_miss();
                    proof {
                        assert(self.entries().remove(fk@) =~= self.entries());
                    }
                },
            }
            proof {
                assert(ks.take(i + 1).drop_last() =~= ks.take(i as int));
                assert(ks.take(i + 1).last() == keys@[i as int]@);
                assert(items_view(result@) =~= fetch_step(prev, keys@[i as int]@, self.ns(), now).1);
            }
            i = i + 1;
        }
        proof {
            assert(ks.take(keys.len() as int) =~= ks);
        }
        Ok(result)
    }

    /// `set_many` at time `now`: when the pairs would overflow the capacity,
    /// at least enough random entries are evicted to make room; then each pair
    /// is stored in order with the given TTL or the default one.
    pub fn set_many_at(&mut self, items: &Vec<(String, Vec<u8>)>, ttl: Option<Duration>, now: u64) -> (r: CacheResult<()>)
        requires
            old(self).wf(),
        ensures
            Self::set_many_outcome(*old(self), *final(self), items_view(items@), ttl, now, r),
    {
        let ghost its = items_view(items@);
        if items.len() == 0 {
            proof {
                assert(apply_items(self.entries(), its, self.ns(), self.effective_ttl(ttl), now) == self.entries());
                assert(kept_within(self.entries(), self.entries()));
            }
            return Ok(());
        }
        let entry_ttl = match ttl {
            Some(d) => Some(d),
            None => Some(self.default_ttl),
        };
        if let Some(max_items) = self.max_items {
            let len = dm_len(&self.cache);
            if (len as u128) + (items.len() as u128) > (max_items as u128) {
                let wanted: u128 = ((len as u128) + (items.len() as u128) - (max_items as u128)) + 1;
                let min_evict: usize = if wanted > (usize::MAX as u128) {
                    usize::MAX
                } else {
                    wanted as usize
                };
                assert(len == self.entries().len());
                self.evict_random(min_evict);
            }
        }
        let ghost kept = self.entries();
        proof {
            assert(kept_within(kept, old(self).entries()));
        }
        let mut i: usize = 0;
        while i < items.len()
            invariant
                0 <= i <= items.len(),
                its == items_view(items@),
                entry_ttl is Some,
                duration_secs(entry_ttl->Some_0) == old(self).effective_ttl(ttl),
                self.wf(),
                self.same_books(&*old(self)),
                self.entries() == apply_items(kept, its.take(i as int), self.ns(), duration_secs(entry_ttl->Some_0), now),
            decreases items.len() - i,
        {
            let fk = self.prefix_key(items[i].0.as_str());
            let entry = CacheEntry::new_at(items[i].1.clone(), entry_ttl, now);
            dm_insert(&mut self.cache, fk, entry);
            proof {
                assert(its.take(i + 1).drop_last() =~= its.take(i as int));
            }
            i = i + 1;
        }
        proof {
            assert(its.take(items.len() as int) =~= its);
            assert(apply_items(kept, its, old(self).ns(), old(self).effective_ttl(ttl), now) == self.entries());
        }
        Ok(())
    }

    /// `delete_many`: removes each key in order; the number of keys removed.
    pub fn delete_many_keys(&mut self, keys: &[String]) -> (r: CacheResult<u64>)
        requires
            old(self).wf(),
        ensures
            final(self).wf(),
            final(self).same_books(&*old(self)),
            ({
                let d = delete_all(old(self).entries(), keys_view(keys@), old(self).ns());
                &&& final(self).entries() == d.0
                &&& (r matches Ok(n) && n as nat == d.1)
            }),
    {
        let ghost ks = keys_view(keys@);
        let mut count: u64 = 0;
        let mut i: usize = 0;
        while i < keys.len()
            invariant
                0 <= i <= keys.len(),
                ks == keys_view(keys@),
                self.wf(),
                self.same_books(&*old(self)),
                ({
                    let d = delete_all(old(self).entries(), ks.take(i as int), self.ns());
                    self.entries() == d.0 && count as nat == d.1 && d.1 <= i
                }),
            decreases keys.len() - i,
        {
            let fk = self.prefix_key(keys[i].as_str());
            let removed = dm_remove(&mut self.cache, fk.as_str());
            proof {
                assert(ks.take(i + 1).drop_last() =~= ks.take(i as int));
            }
            if removed.is_some() {
                count = count + 1;
            } else {
                proof {
                    assert(self.entries() =~= delete_all(old(self).entries(), ks.take(i as int), self.ns()).0);
                }
            }
            i = i + 1;
        }
        proof {
            assert(ks.take(keys.len() as int) =~= ks);
        }
        Ok(count)
    }

    /// Removes every entry whose stored key starts with `prefix`.
    fn remove_with_prefix(&mut self, prefix: &str)
        requires
            old(self).wf(),
        ensures
            final(self).wf(),
            final(self).same_books(&*old(self)),
            final(self).entries() == without_prefix(old(self).entries(), prefix@),
    {
        let keys = dm_keys(&self.cache);
        let pv = chars_of(prefix);
        let ghost start = self.entries();
        let mut i: usize = 0;
        while i < keys.len()
            invariant
                0 <= i <= keys.len(),
                pv@ == prefix@,
                start == old(self).entries(),
                self.wf(),
                self.same_books(&*old(self)),
                keys@.len() == start.len(),
                forall|j: int| 0 <= j < keys@.len() ==> start.contains_key(#[trigger] keys@[j]@),
                forall|k: Seq<char>| #[trigger] start.contains_key(k) ==> exists|j: int|
                    0 <= j < keys@.len() && #[trigger] keys@[j]@ == k,
                forall|j: int, l: int| 0 <= j < l < keys@.len() ==> keys@[j]@ != keys@[l]@,
                forall|k: Seq<char>| #[trigger] self.entries().contains_key(k) <==> (start.contains_key(k)
                    && !(prefix@.is_prefix_of(k) && exists|j: int| 0 <= j < i && #[trigger] keys@[j]@ == k)),
                forall|k: Seq<char>| #[trigger] self.entries().contains_key(k) ==> self.entries()[k] == start[k],
            decreases keys.len() - i,
        {
            let kv = chars_of(keys[i].as_str());
            if chars_starts_with(kv.as_slice(), pv.as_slice()) {
                dm_remove(&mut self.cache, keys[i].as_str());
            }
            proof {
                assert(prefix@.is_prefix_of(keys@[i as int]@) == (prefix@.len() <= keys@[i as int]@.len()
                    && keys@[i as int]@.subrange(0, prefix@.len() as int) == prefix@));
                assert forall|k: Seq<char>| #[trigger] self.entries().contains_key(k) <==> (start.contains_key(k)
                    && !(prefix@.is_prefix_of(k) && exists|j: int| 0 <= j < i + 1 && #[trigger] keys@[j]@ == k)) by {
                    if exists|j: int| 0 <= j < i + 1 && #[trigger] keys@[j]@ == k {
                        let j = choose|j: int| 0 <= j < i + 1 && #[trigger] keys@[j]@ == k;
                        if j < i {
                            assert(exists|j2: int| 0 <= j2 < i && #[trigger] keys@[j2]@ == k);
                        }
                    }
                    if exists|j: int| 0 <= j < i && #[trigger] keys@[j]@ == k {
                        let j = choose|j: int| 0 <= j < i && #[trigger] keys@[j]@ == k;
                        assert(0 <= j < i + 1 && keys@[j]@ == k);
                    }
                }
            }
            i = i + 1;
        }
        proof {
            let target = without_prefix(start, prefix@);
            assert forall|k: Seq<char>| #[trigger] self.entries().contains_key(k) <==> target.contains_key(k) by {
                if start.contains_key(k) {
                    let j = choose|j: int| 0 <= j < keys@.len() && #[trigger] keys@[j]@ == k;
                    assert(0 <= j < i && keys@[j]@ == k);
                }
            }
            assert(self.entries() =~= target);
        }
    }

    /// `clear`: with neither a namespace argument nor a namespace of its own,
    /// everything; otherwise every entry whose stored key starts with
    /// `namespace:` (the argument first, the cache's own namespace second).
    pub fn clear_namespace(&mut self, namespace: Option<&str>) -> (r: CacheResult<()>)
        requires
            old(self).wf(),
        ensures
            r is Ok,
            final(self).wf(),
            final(self).same_books(&*old(self)),
            final(self).entries() == match namespace {
                Some(ns) => without_prefix(old(self).entries(), ns@ + ":"@),
                None => match old(self).ns() {
                    Some(own) => without_prefix(old(self).entries(), own + ":"@),
                    None => Map::<Seq<char>, CacheEntryView>::empty(),
                },
            },
    {
        match namespace {
            Some(ns) => {
                let prefix = concat2(ns, ":");
                self.remove_with_prefix(prefix.as_str());
            },
            None => {
                match &self.namespace {
                    Some(own) => {
                        let prefix = concat2(own.as_str(), ":");
                        self.remove_with_prefix(prefix.as_str());
                    },
                    None => {
                        dm_clear(&mut self.cache);
                    },
                }
            },
        }
        Ok(())
    }

    /// Removes the entries expired at `now` (the periodic cleanup).
    pub fn remove_expired_at(&mut self, now: u64)
        requires
            old(self).wf(),
        ensures
            final(self).wf(),
            final(self).same_books(&*old(self)),
            final(self).entries() == unexpired(old(self).entries(), now),
    {
        let keys = dm_keys(&self.cache);
        let ghost start = self.entries();
        let mut i: usize = 0;
        while i < keys.len()
            invariant
                0 <= i <= keys.len(),
                start == old(self).entries(),
                self.wf(),
                self.same_books(&*old(self)),
                keys@.len() == start.len(),
                forall|j: int| 0 <= j < keys@.len() ==> start.contains_key(#[trigger] keys@[j]@),
                forall|k: Seq<char>| #[trigger] start.contains_key(k) ==> exists|j: int|
                    0 <= j < keys@.len() && #[trigger] keys@[j]@ == k,
                forall|j: int, l: int| 0 <= j < l < keys@.len() ==> keys@[j]@ != keys@[l]@,
                forall|k: Seq<char>| #[trigger] self.entries().contains_key(k) <==> (start.contains_key(k)
                    && !(start[k].expired_at(now) && exists|j: int| 0 <= j < i && #[trigger] keys@[j]@ == k)),
                forall|k: Seq<char>| #[trigger] self.entries().contains_key(k) ==> self.entries()[k] == start[k],
            decreases keys.len() - i,
        {
            match dm_get(&self.cache, keys[i].as_str()) {
                Some(entry) => {
                    if entry.is_expired_at(now) {
                        dm_remove(&mut self.cache, keys[i].as_str());
                    }
                },
                None => {},
            }
            proof {
                assert forall|k: Seq<char>| #[trigger] self.entries().contains_key(k) <==> (start.contains_key(k)
                    && !(start[k].expired_at(now) && exists|j: int| 0 <= j < i + 1 && #[trigger] keys@[j]@ == k)) by {
                    if exists|j: int| 0 <= j < i + 1 && #[trigger] keys@[j]@ == k {
                        let j = choose|j: int| 0 <= j < i + 1 && #[trigger] keys@[j]@ == k;
                        if j < i {
                            assert(exists|j2: int| 0 <= j2 < i && #[trigger] keys@[j2]@ == k);
                        }
                    }
                    if exists|j: int| 0 <= j < i && #[trigger] keys@[j]@ == k {
                        let j = choose|j: int| 0 <= j < i && #[trigger] keys@[j]@ == k;
                        assert(0 <= j < i + 1 && keys@[j]@ == k);
                    }
                }
            }
            i = i + 1;
        }
        proof {
            let target = unexpired(start, now);
            assert forall|k: Seq<char>| #[trigger] self.entries().contains_key(k) <==> target.contains_key(k) by {
                if start.contains_key(k) {
                    let j = choose|j: int| 0 <= j < keys@.len() && #[trigger] keys@[j]@ == k;
                    assert(0 <= j < i && keys@[j]@ == k);
                }
            }
            assert(self.entries() =~= target);
        }
    }

    /// The statistics: the number of items, an estimate of the memory used
    /// (key and value bytes plus 32 per entry), and the hit and miss counts.
    pub fn current_stats(&self) -> (r: CacheStats)
        requires
            self.wf(),
        ensures
            r.item_count == Some(self.entries().len() as u64),
            exists|ks: Seq<Seq<char>>|
                #![trigger footprint_total(ks, self.entries())]
                ks.no_duplicates() && ks.to_set() == self.entries().dom()
                    && r.memory_used_bytes == Some(capped(footprint_total(ks, self.entries())) as u64),
            r.hits == Some(self.hit_count()),
            r.misses == Some(self.miss_count()),
            r.sets is None,
            r.deletes is None,
            r.additional_metrics@.len() == 0,
    {
        let keys = dm_keys(&self.cache);
        let ghost m = self.entries();
        let ghost kv = keys@.map_values(|s: String| s@);
        let mut memory_usage: u64 = 0;
        let mut i: usize = 0;
        while i < keys.len()
            invariant
                0 <= i <= keys.len(),
                m == self.entries(),
                kv == keys@.map_values(|s: String| s@),
                forall|j: int| 0 <= j < keys@.len() ==> m.contains_key(#[trigger] keys@[j]@),
                memory_usage == capped(footprint_total(kv.take(i as int), m)),
            decreases keys.len() - i,
        {
            assert(m.contains_key(keys@[i as int]@));
            let size: u64 = match dm_get(&self.cache, keys[i].as_str()) {
                Some(entry) => {
                    let key_len = keys[i].as_str().len() as u64;
                    let value_len = entry.value.len() as u64;
                    key_len.saturating_add(value_len).saturating_add(32)
                },
                None => 0,
            };
            proof {
                assert(kv.take(i + 1).drop_last() =~= kv.take(i as int));
                assert(kv.take(i + 1).last() == keys@[i as int]@);
                assert(size == capped(entry_footprint(kv[i as int], m[kv[i as int]])));
            }
            memory_usage = memory_usage.saturating_add(size);
            i = i + 1;
        }
        proof {
            assert(kv.take(keys@.len() as int) =~= kv);
            assert forall|a: int, b: int| 0 <= a < kv.len() && 0 <= b < kv.len() && a != b implies
                kv[a] != kv[b] by {
                if a < b {
                    assert(keys@[a]@ != keys@[b]@);
                } else {
                    assert(keys@[b]@ != keys@[a]@);
                }
            }
            assert forall|k: Seq<char>| #[trigger] kv.to_set().contains(k) <==> m.dom().contains(k) by {
                if m.dom().contains(k) {
                    let j = choose|j: int| 0 <= j < keys@.len() && #[trigger] keys@[j]@ == k;
                    assert(kv[j] == k);
                }
                if kv.to_set().contains(k) {
                    let j = choose|j: int| 0 <= j < kv.len() && kv[j] == k;
                    assert(keys@[j]@ == k);
                }
            }
            assert(kv.to_set() =~= m.dom());
            assert(footprint_total(kv, self.entries()) == footprint_total(kv, m));
        }
        CacheStats {
            item_count: Some(keys.len() as u64),
            memory_used_bytes: Some(memory_usage),
            hits: Some(self.hits),
            misses: Some(self.misses),
            sets: None,
            deletes: None,
            additional_metrics: Vec::new(),
        }
    }
}

impl CacheService for InMemoryCache {
    open spec fn well_formed(&self) -> bool {
        self.wf()
    }

    open spec fn increment_allowed(&self, key: Seq<char>, delta: i64) -> bool {
        self.increment_fits(key, delta)
    }

    /// `get` at some reading of the clock.
    open spec fn get_result(&self, after: Self, key: Seq<char>, r: CacheResult<Option<Vec<u8>>>) -> bool {
        exists|now: u64| #[trigger] Self::get_outcome(*self, after, key, now, r)
    }

    /// `set` at some reading of the clock.
    open spec fn set_result(&self, after: Self, key: Seq<char>, value: Seq<u8>, ttl: Option<Duration>, r: CacheResult<()>) -> bool {
        exists|now: u64| #[trigger] Self::set_outcome(*self, after, key, value, ttl, now, r)
    }

    /// `delete` removes the stored key and says whether it was there.
    open spec fn delete_result(&self, after: Self, key: Seq<char>, r: CacheResult<bool>) -> bool {
        &&& after.wf()
        &&& after.same_books(self)
        &&& after.entries() == self.entries().remove(self.full_key(key))
        &&& r == Ok::<bool, CacheError>(self.entries().contains_key(self.full_key(key)))
    }

    /// `increment` at some reading of the clock.
    open spec fn increment_result(&self, after: Self, key: Seq<char>, delta: i64, r: CacheResult<i64>) -> bool {
        exists|now: u64| #[trigger] Self::increment_outcome(*self, after, key, delta, now, r)
    }

    /// `clear` drops the namespace given, else the cache's own, else all.
    open spec fn clear_result(&self, after: Self, namespace: Option<Seq<char>>, r: CacheResult<()>) -> bool {
        &&& r is Ok
        &&& after.same_books(self)
        &&& after.entries() == match namespace {
            Some(ns) => without_prefix(self.entries(), ns + ":"@),
            None => match self.ns() {
                Some(own) => without_prefix(self.entries(), own + ":"@),
                None => Map::<Seq<char>, CacheEntryView>::empty(),
            },
        }
    }

    /// `unlock` at some reading of the clock.
    open spec fn unlock_result(&self, after: Self, key: Seq<char>, token: Seq<char>, r: CacheResult<bool>) -> bool {
        exists|now: u64| #[trigger] Self::unlock_outcome(*self, after, key, token, now, r)
    }

    /// `lock` at some reading of the clock.
    open spec fn lock_result(&self, after: Self, key: Seq<char>, ttl: Duration, r: CacheResult<Option<String>>) -> bool {
        exists|now: u64| #[trigger] Self::lock_outcome(*self, after, key, ttl, now, r)
    }

    /// The value of a live entry, if any, read at the current time.
    fn get(&mut self, key: &str) -> (r: CacheResult<Option<Vec<u8>>>)
        ensures
            exists|now: u64| #[trigger] Self::get_outcome(*old(self), *final(self), key@, now, r),
    {
        let now = unix_now_secs();
        self.get_at(key, now)
    }

    /// The value of a live entry as UTF-8 text, read at the current time.
    fn get_string(&mut self, key: &str) -> (r: CacheResult<Option<String>>)
        ensures
            exists|now: u64| #[trigger] Self::get_string_outcome(*old(self), *final(self), key@, now, r),
    {
        let now = unix_now_secs();
        let r = match self.get_at(key, now) {
            Ok(Some(bytes)) => crate::cache::decode_cached_text(bytes),
            Ok(None) => Ok(None),
            Err(e) => Err(e),
        };
        assert(Self::get_string_outcome(*old(self), *self, key@, now, r));
        r
    }

    /// Stores text as its UTF-8 bytes at the current time.
    fn set_string(&mut self, key: &str, value: &str, ttl: Option<Duration>) -> (r: CacheResult<()>)
        ensures
            exists|now: u64| #[trigger] Self::set_outcome(*old(self), *final(self), key@, encode_utf8(value@), ttl, now, r),
    {
        let now = unix_now_secs();
        let bytes = string_bytes(value);
        self.set_at(key, bytes.as_slice(), ttl, now)
    }

    /// Stores a value at the current time.
    fn set(&mut self, key: &str, value: &[u8], ttl: Option<Duration>) -> (r: CacheResult<()>)
        ensures
            exists|now: u64| #[trigger] Self::set_outcome(*old(self), *final(self), key@, value@, ttl, now, r),
    {
        let now = unix_now_secs();
        self.set_at(key, value, ttl, now)
    }

    /// Removes a key; whether there was an entry.
    fn delete(&mut self, key: &str) -> (r: CacheResult<bool>)
        ensures
            final(self).wf(),
            final(self).same_books(&*old(self)),
            final(self).entries() == old(self).entries().remove(old(self).full_key(key@)),
            r == Ok::<bool, CacheError>(old(self).entries().contains_key(old(self).full_key(key@))),
    {
        let fk = self.prefix_key(key);
        let removed = dm_remove(&mut self.cache, fk.as_str());
        Ok(removed.is_some())
    }

    /// Removes everything.
    fn flush(&mut self) -> (r: CacheResult<()>)
        ensures
            r is Ok,
            final(self).wf(),
            final(self).same_books(&*old(self)),
            final(self).entries() == Map::<Seq<char>, CacheEntryView>::empty(),
    {
        dm_clear(&mut self.cache);
        Ok(())
    }

    /// The statistics.
    fn stats(&mut self) -> (r: CacheResult<CacheStats>)
        ensures
            *final(self) == *old(self),
            r matches Ok(s) && s.item_count == Some(old(self).entries().len() as u64)
                && s.hits == Some(old(self).hit_count()) && s.misses == Some(old(self).miss_count())
                && s.sets is None && s.deletes is None && exists|ks: Seq<Seq<char>>|
                #![trigger footprint_total(ks, old(self).entries())]
                ks.no_duplicates() && ks.to_set() == old(self).entries().dom()
                    && s.memory_used_bytes == Some(capped(footprint_total(ks, old(self).entries())) as u64),
    {
        Ok(self.current_stats())
    }

    /// Always available.
    fn ping(&mut self) -> (r: CacheResult<()>)
        ensures
            r is Ok,
            *final(self) == *old(self),
    {
        Ok(())
    }

    /// Nothing to close.
    fn close(&mut self) -> (r: CacheResult<()>)
        ensures
            r is Ok,
            *final(self) == *old(self),
    {
        Ok(())
    }

    /// Whether a live entry is stored, at the current time.
    fn key_exists(&mut self, key: &str) -> (r: CacheResult<bool>)
        ensures
            exists|now: u64| #[trigger] Self::exists_outcome(*old(self), *final(self), key@, now, r),
    {
        let now = unix_now_secs();
        self.exists_at(key, now)
    }

    /// Stores a value only when no live entry is stored, at the current time.
    fn set_nx(&mut self, key: &str, value: &[u8], ttl: Option<Duration>) -> (r: CacheResult<bool>)
        ensures
            exists|now: u64| #[trigger] Self::set_nx_outcome(*old(self), *final(self), key@, value@, ttl, now, r),
    {
        let now = unix_now_secs();
        self.set_nx_at(key, value, ttl, now)
    }

    /// Replaces a value and returns the previous live one, at the current time.
    fn get_set(&mut self, key: &str, value: &[u8]) -> (r: CacheResult<Option<Vec<u8>>>)
        ensures
            exists|now: u64| #[trigger] Self::get_set_outcome(*old(self), *final(self), key@, value@, now, r),
    {
        let now = unix_now_secs();
        self.get_set_at(key, value, now)
    }

    /// Adds to the stored number, at the current time.
    fn increment(&mut self, key: &str, delta: i64) -> (r: CacheResult<i64>)
        ensures
            exists|now: u64| #[trigger] Self::increment_outcome(*old(self), *final(self), key@, delta, now, r),
    {
        let now = unix_now_secs();
        self.increment_at(key, delta, now)
    }

    /// Stores several pairs at the current time.
    fn set_many(&mut self, items: &Vec<(String, Vec<u8>)>, ttl: Option<Duration>) -> (r: CacheResult<()>)
        ensures
            exists|now: u64| #[trigger] Self::set_many_outcome(*old(self), *final(self), items_view(items@), ttl, now, r),
    {
        let now = unix_now_secs();
        self.set_many_at(items, ttl, now)
    }

    /// Fetches several keys at the current time.
    fn get_many(&mut self, keys: &[String]) -> (r: CacheResult<Vec<(String, Vec<u8>)>>)
        ensures
            exists|now: u64| #[trigger] Self::get_many_outcome(*old(self), *final(self), keys_view(keys@), now, r),
    {
        let now = unix_now_secs();
        self.get_many_at(keys, now)
    }

    /// Removes several keys; the number removed.
    fn delete_many(&mut self, keys: &[String]) -> (r: CacheResult<u64>)
        ensures
            final(self).same_books(&*old(self)),
            ({
                let d = delete_all(old(self).entries(), keys_view(keys@), old(self).ns());
                &&& final(self).entries() == d.0
                &&& (r matches Ok(n) && n as nat == d.1)
            }),
    {
        self.delete_many_keys(keys)
    }

    /// Clears everything or a namespace.
    fn clear(&mut self, namespace: Option<&str>) -> (r: CacheResult<()>)
        ensures
            r is Ok,
            final(self).same_books(&*old(self)),
            final(self).entries() == match namespace {
                Some(ns) => without_prefix(old(self).entries(), ns@ + ":"@),
                None => match old(self).ns() {
                    Some(own) => without_prefix(old(self).entries(), own + ":"@),
                    None => Map::<Seq<char>, CacheEntryView>::empty(),
                },
            },
    {
        self.clear_namespace(namespace)
    }

    /// Takes the lock on a key at the current time.
    fn lock(&mut self, key: &str, ttl: Duration) -> (r: CacheResult<Option<String>>)
        ensures
            exists|now: u64| #[trigger] Self::lock_outcome(*old(self), *final(self), key@, ttl, now, r),
    {
        let now = unix_now_secs();
        self.lock_at(key, ttl, now)
    }

    /// Releases the lock on a key at the current time.
    fn unlock(&mut self, key: &str, token: &str) -> (r: CacheResult<bool>)
        ensures
            exists|now: u64| #[trigger] Self::unlock_outcome(*old(self), *final(self), key@, token@, now, r),
    {
        let now = unix_now_secs();
        self.unlock_at(key, token, now)
    }

    fn get_cache_type(&self) -> (r: CacheType)
        ensures
            r == CacheType::InMemory,
    {
        CacheType::InMemory
    }

    fn get_default_ttl(&self) -> (r: Duration)
        ensures
            duration_secs(r) == self.ttl_secs(),
            duration_nanos(r) == self.ttl_nanos(),
    {
        self.default_ttl
    }
}

} // verus!
