//! Statistics reported by cache servers: the per-server statistics of a
//! Memcached cluster, and the `INFO` text of a Redis server.

use crate::cache::CacheStats;
use crate::headers::{distinct_names, header_map, pairs_map, put_pair};
use crate::text::{chars_eq, chars_of, concat3, parse_u64, parse_u64_spec, string_from_chars};
use crate::uri::{pieces_view, split, split_chars, split_once, split_once_chars};
use vstd::prelude::*;

verus! {

// ---------------------------------------------------------------------------
// Memcached
// ---------------------------------------------------------------------------

/// A statistic reported by one server: (server, name, value).
pub type ServerStat = (Seq<char>, Seq<char>, Seq<char>);

/// The statistics of a cluster, server by server, in order.
pub open spec fn flat_stats(servers: Seq<(String, Vec<(String, String)>)>) -> Seq<ServerStat>
    decreases servers.len(),
{
    if servers.len() == 0 {
        Seq::empty()
    } else {
        flat_stats(servers.drop_last()) + server_stats(servers.last().0@, servers.last().1@)
    }
}

/// The statistics of one server.
pub open spec fn server_stats(server: Seq<char>, stats: Seq<(String, String)>) -> Seq<ServerStat> {
    stats.map_values(|kv: (String, String)| (server, kv.0@, kv.1@))
}

/// Adds a parsed counter to a running total.
pub open spec fn add_count(total: Option<nat>, n: Option<u64>) -> Option<nat> {
    match n {
        Some(v) => Some(
            (match total {
                Some(t) => t,
                None => 0nat,
            } + v) as nat,
        ),
        None => total,
    }
}

/// The total of `curr_items` over the servers (only values that parse as
/// `u64` count; none when no value does).
pub open spec fn mc_items(s: Seq<ServerStat>) -> Option<nat>
    decreases s.len(),
{
    if s.len() == 0 {
        None
    } else {
        let t = mc_items(s.drop_last());
        if s.last().1 == "curr_items"@ {
            add_count(t, parse_u64_spec(s.last().2))
        } else {
            t
        }
    }
}

/// The total of `bytes` over the servers, in the same way.
pub open spec fn mc_bytes(s: Seq<ServerStat>) -> Option<nat>
    decreases s.len(),
{
    if s.len() == 0 {
        None
    } else {
        let t = mc_bytes(s.drop_last());
        if s.last().1 == "bytes"@ {
            add_count(t, parse_u64_spec(s.last().2))
        } else {
            t
        }
    }
}

/// The other statistics, named `server.name`, in order.
pub open spec fn mc_metrics(s: Seq<ServerStat>) -> Seq<(Seq<char>, Seq<char>)>
    decreases s.len(),
{
    if s.len() == 0 {
        Seq::empty()
    } else {
        let m = mc_metrics(s.drop_last());
        let x = s.last();
        if x.1 == "curr_items"@ || x.1 == "bytes"@ {
            m
        } else {
            m.push((x.0 + "."@ + x.1, x.2))
        }
    }
}

/// Whether an optional total fits in `u64`.
pub open spec fn fits(t: Option<nat>) -> bool {
    match t {
        Some(v) => v <= u64::MAX,
        None => true,
    }
}

/// A total as a `u64` option.
pub open spec fn as_count(t: Option<nat>) -> Option<u64> {
    match t {
        Some(v) => Some(v as u64),
        None => None,
    }
}

proof fn lemma_totals_grow(s: Seq<ServerStat>, i: int)
    requires
        0 <= i <= s.len(),
    ensures
        fits(mc_items(s)) ==> fits(mc_items(s.take(i))),
        fits(mc_bytes(s)) ==> fits(mc_bytes(s.take(i))),
        mc_items(s.take(i)) is Some ==> mc_items(s) is Some && mc_items(s.take(i))->Some_0 <= mc_items(s)->Some_0,
        mc_bytes(s.take(i)) is Some ==> mc_bytes(s) is Some && mc_bytes(s.take(i))->Some_0 <= mc_bytes(s)->Some_0,
    decreases s.len() - i,
{
    if i < s.len() {
        lemma_totals_grow(s.drop_last(), i);
        assert(s.drop_last().take(i) =~= s.take(i));
    } else {
        assert(s.take(i) =~= s);
    }
}

/// The statistics of a Memcached cluster: the hit and miss counts, the total
/// of `curr_items` as the item count, the total of `bytes` as the memory
/// used, and every other statistic as `server.name`; none when a total does
/// not fit in `u64`.
pub fn memcached_stats(hits: u64, misses: u64, servers: &Vec<(String, Vec<(String, String)>)>) -> (r: Option<CacheStats>)
    ensures
        ({
            let s = flat_stats(servers@);
            if fits(mc_items(s)) && fits(mc_bytes(s)) {
                r matches Some(st) && st.hits == Some(hits) && st.misses == Some(misses)
                    && st.item_count == as_count(mc_items(s)) && st.memory_used_bytes == as_count(mc_bytes(s))
                    && st.sets is None && st.deletes is None
                    && header_map(st.additional_metrics@) == pairs_map(mc_metrics(s))
                    && distinct_names(st.additional_metrics@)
            } else {
                r is None
            }
        }),
{
    let mut items: Option<u64> = None;
    let mut bytes: Option<u64> = None;
    let mut metrics: Vec<(String, String)> = Vec::new();
    let ghost all = flat_stats(servers@);
    let mut i: usize = 0;
    proof {
        assert(flat_stats(servers@.take(0)) =~= Seq::<ServerStat>::empty());
        assert(header_map(metrics@) =~= Map::empty());
    }
    while i < servers.len()
        invariant
            0 <= i <= servers.len(),
            all == flat_stats(servers@),
            ({
                let p = flat_stats(servers@.take(i as int));
                &&& items == as_count(mc_items(p)) && fits(mc_items(p))
                &&& bytes == as_count(mc_bytes(p)) && fits(mc_bytes(p))
                &&& header_map(metrics@) == pairs_map(mc_metrics(p))
                &&& distinct_names(metrics@)
                &&& p.len() <= all.len() && all.take(p.len() as int) == p
            }),
        decreases servers.len() - i,
    {
        let server = &servers[i].0;
        let stats = &servers[i].1;
        let ghost before = flat_stats(servers@.take(i as int));
        proof {
            assert(servers@.take(i + 1).drop_last() =~= servers@.take(i as int));
            lemma_flat_prefix(servers@, i as int + 1);
        }
        let mut j: usize = 0;
        while j < stats.len()
            invariant
                0 <= j <= stats.len(),
                0 <= i < servers.len(),
                all == flat_stats(servers@),
                *server == servers@[i as int].0,
                *stats == servers@[i as int].1,
                before == flat_stats(servers@.take(i as int)),
                flat_stats(servers@.take(i + 1)) == before + server_stats(server@, stats@),
                all.take(flat_stats(servers@.take(i + 1)).len() as int) == flat_stats(servers@.take(i + 1)),
                flat_stats(servers@.take(i + 1)).len() <= all.len(),
                items == as_count(mc_items(before + server_stats(server@, stats@).take(j as int))),
                fits(mc_items(before + server_stats(server@, stats@).take(j as int))),
                bytes == as_count(mc_bytes(before + server_stats(server@, stats@).take(j as int))),
                fits(mc_bytes(before + server_stats(server@, stats@).take(j as int))),
                header_map(metrics@) == pairs_map(mc_metrics(before + server_stats(server@, stats@).take(j as int))),
                distinct_names(metrics@),
            decreases stats.len() - j,
        {
            let ghost p = before + server_stats(server@, stats@).take(j as int);
            let ghost x: ServerStat = (server@, stats@[j as int].0@, stats@[j as int].1@);
            let ghost q = before + server_stats(server@, stats@).take(j + 1);
            proof {
                reveal_strlit("curr_items");
                reveal_strlit("bytes");
                assert(q =~= p.push(x));
                assert(q.drop_last() =~= p);
                assert(all.take(q.len() as int) == q) by {
                    let whole = flat_stats(servers@.take(i + 1));
                    assert(q =~= whole.take(q.len() as int));
                }
                lemma_totals_grow(all, q.len() as int);
                assert(q.last() == x);
                assert(mc_items(q) == (if x.1 == "curr_items"@ {
                    add_count(mc_items(p), parse_u64_spec(x.2))
                } else {
                    mc_items(p)
                }));
                assert(mc_bytes(q) == (if x.1 == "bytes"@ {
                    add_count(mc_bytes(p), parse_u64_spec(x.2))
                } else {
                    mc_bytes(p)
                }));
                assert(mc_metrics(q) == (if x.1 == "curr_items"@ || x.1 == "bytes"@ {
                    mc_metrics(p)
                } else {
                    mc_metrics(p).push((x.0 + "."@ + x.1, x.2))
                }));
            }
            let name = &stats[j].0;
            let value = &stats[j].1;
            if crate::text::str_eq(name.as_str(), "curr_items") {
                match parse_u64(value.as_str()) {
                    Some(n) => {
                        let base: u64 = match items {
                            Some(t) => t,
                            None => 0,
                        };
                        match base.checked_add(n) {
                            Some(t) => {
                                items = Some(t);
                            },
                            None => {
                                proof {
                                    assert(q.last() == x);
                                    assert(x.1 == "curr_items"@);
                                    assert(mc_items(q) == add_count(mc_items(p), parse_u64_spec(x.2)));
                                    assert(!fits(mc_items(q)));
                                }
                                return None;
                            },
                        }
                    },
                    None => {},
                }
            } else if crate::text::str_eq(name.as_str(), "bytes") {
                match parse_u64(value.as_str()) {
                    Some(n) => {
                        let base: u64 = match bytes {
                            Some(t) => t,
                            None => 0,
                        };
                        match base.checked_add(n) {
                            Some(t) => {
                                bytes = Some(t);
                            },
                            None => {
                                proof {
                                    assert(q.last() == x);
                                    assert(x.1 == "bytes"@);
                                    assert(mc_bytes(q) == add_count(mc_bytes(p), parse_u64_spec(x.2)));
                                    assert(!fits(mc_bytes(q)));
                                }
                                return None;
                            },
                        }
                    },
                    None => {},
                }
            } else {
                let full = concat3(server.as_str(), ".", name.as_str());
                proof {
                    lemma_metrics_push(mc_metrics(p), (full@, value@));
                }
                put_pair(&mut metrics, full, value.clone());
            }
            j = j + 1;
        }
        proof {
            assert(server_stats(server@, stats@).take(stats@.len() as int) =~= server_stats(server@, stats@));
        }
        i = i + 1;
    }
    proof {
        assert(servers@.take(servers@.len() as int) =~= servers@);
    }
    Some(
        CacheStats {
            hits: Some(hits),
            misses: Some(misses),
            sets: None,
            deletes: None,
            item_count: items,
            memory_used_bytes: bytes,
            additional_metrics: metrics,
        },
    )
}

proof fn lemma_metrics_push(m: Seq<(Seq<char>, Seq<char>)>, e: (Seq<char>, Seq<char>))
    ensures
        pairs_map(m.push(e)) == pairs_map(m).insert(e.0, e.1),
{
    assert(m.push(e).drop_last() =~= m);
}

/// The statistics of a prefix of the servers are a prefix of all of them.
proof fn lemma_flat_prefix(servers: Seq<(String, Vec<(String, String)>)>, i: int)
    requires
        0 <= i <= servers.len(),
    ensures
        flat_stats(servers.take(i)).len() <= flat_stats(servers).len(),
        flat_stats(servers).take(flat_stats(servers.take(i)).len() as int) == flat_stats(servers.take(i)),
    decreases servers.len() - i,
{
    if i < servers.len() {
        lemma_flat_prefix(servers.drop_last(), i);
        assert(servers.drop_last().take(i) =~= servers.take(i));
        let a = flat_stats(servers.drop_last());
        let b = server_stats(servers.last().0@, servers.last().1@);
        let p = flat_stats(servers.take(i));
        assert((a + b).take(p.len() as int) =~= a.take(p.len() as int));
    } else {
        assert(servers.take(i) =~= servers);
        assert(flat_stats(servers).take(flat_stats(servers).len() as int) =~= flat_stats(servers));
    }
}

// ---------------------------------------------------------------------------
// Redis
// ---------------------------------------------------------------------------

/// Whether a character is white space (Unicode `White_Space`, as
/// `char::is_whitespace` decides).
pub open spec fn is_whitespace(c: char) -> bool {
    let n = c as u32;
    (9 <= n <= 13) || n == 32 || n == 0x85 || n == 0xA0 || n == 0x1680 || (0x2000 <= n <= 0x200A) || n == 0x2028
        || n == 0x2029 || n == 0x202F || n == 0x205F || n == 0x3000
}

/// The text without leading white space.
pub open spec fn trim_start(s: Seq<char>) -> Seq<char>
    decreases s.len(),
{
    if s.len() > 0 && is_whitespace(s[0]) {
        trim_start(s.drop_first())
    } else {
        s
    }
}

/// The text without trailing white space.
pub open spec fn trim_end(s: Seq<char>) -> Seq<char>
    decreases s.len(),
{
    if s.len() > 0 && is_whitespace(s.last()) {
        trim_end(s.drop_last())
    } else {
        s
    }
}

/// The text without white space at either end (as `str::trim` gives it).
pub open spec fn trimmed(s: Seq<char>) -> Seq<char> {
    trim_end(trim_start(s))
}

/// Whether a character is white space.
fn whitespace_char(c: char) -> (r: bool)
    ensures
        r == is_whitespace(c),
{
    let n = c as u32;
    (9 <= n && n <= 13) || n == 32 || n == 0x85 || n == 0xA0 || n == 0x1680 || (0x2000 <= n && n <= 0x200A)
        || n == 0x2028 || n == 0x2029 || n == 0x202F || n == 0x205F || n == 0x3000
}

proof fn lemma_trim_start(s: Seq<char>, a: int)
    requires
        0 <= a <= s.len(),
        forall|j: int| 0 <= j < a ==> is_whitespace(#[trigger] s[j]),
        a == s.len() || !is_whitespace(s[a]),
    ensures
        trim_start(s) == s.subrange(a, s.len() as int),
    decreases a,
{
    if a == 0 {
        assert(s.subrange(0, s.len() as int) =~= s);
    } else {
        let t = s.drop_first();
        assert forall|j: int| 0 <= j < a - 1 implies is_whitespace(#[trigger] t[j]) by {
            assert(t[j] == s[j + 1]);
        }
        if a - 1 < t.len() {
            assert(t[a - 1] == s[a]);
        }
        lemma_trim_start(t, a - 1);
        assert(t.subrange(a - 1, t.len() as int) =~= s.subrange(a, s.len() as int));
    }
}

proof fn lemma_trim_end(s: Seq<char>, b: int)
    requires
        0 <= b <= s.len(),
        forall|j: int| b <= j < s.len() ==> is_whitespace(#[trigger] s[j]),
        b == 0 || !is_whitespace(s[b - 1]),
    ensures
        trim_end(s) == s.subrange(0, b),
    decreases s.len() - b,
{
    if b == s.len() {
        assert(s.subrange(0, b) =~= s);
    } else {
        let t = s.drop_last();
        assert forall|j: int| b <= j < t.len() implies is_whitespace(#[trigger] t[j]) by {
            assert(t[j] == s[j]);
        }
        if b > 0 {
            assert(t[b - 1] == s[b - 1]);
        }
        lemma_trim_end(t, b);
        assert(t.subrange(0, b) =~= s.subrange(0, b));
    }
}

/// The text without white space at either end.
pub fn trim_chars(s: &[char]) -> (r: Vec<char>)
    ensures
        r@ == trimmed(s@),
{
    let n = s.len();
    let mut a: usize = 0;
    while a < n && whitespace_char(s[a])
        invariant
            0 <= a <= n,
            n == s@.len(),
            forall|j: int| 0 <= j < a ==> is_whitespace(#[trigger] s@[j]),
        decreases n - a,
    {
        a = a + 1;
    }
    proof {
        lemma_trim_start(s@, a as int);
    }
    let mut b: usize = n;
    while b > a && whitespace_char(s[b - 1])
        invariant
            a <= b <= n,
            n == s@.len(),
            forall|j: int| b <= j < n ==> is_whitespace(#[trigger] s@[j]),
        decreases b,
    {
        b = b - 1;
    }
    proof {
        let t = s@.subrange(a as int, n as int);
        assert forall|j: int| b - a <= j < t.len() implies is_whitespace(#[trigger] t[j]) by {
            assert(t[j] == s@[j + a]);
        }
        if b > a {
            assert(t[b - a - 1] == s@[b - 1]);
        }
        lemma_trim_end(t, b - a);
        assert(t.subrange(0, b - a) =~= s@.subrange(a as int, b as int));
    }
    vstd::slice::slice_to_vec(vstd::slice::slice_subrange(s, a, b))
}

/// The statistic a line of `INFO` output carries: its trimmed text split at
/// the first `:`, unless it is empty or a `#` section header.
pub open spec fn info_entry(line: Seq<char>) -> Option<(Seq<char>, Seq<char>)> {
    let t = trimmed(line);
    if t.len() == 0 || t[0] == '#' {
        None
    } else {
        split_once(t, ':')
    }
}

/// The number of keys a `db0` value reports: the last `keys=<n>` among its
/// comma-separated parts whose number parses.
pub open spec fn db_keys(parts: Seq<Seq<char>>) -> Option<u64>
    decreases parts.len(),
{
    if parts.len() == 0 {
        None
    } else {
        let prev = db_keys(parts.drop_last());
        match split_once(parts.last(), '=') {
            Some((k, v)) => if k == "keys"@ {
                match parse_u64_spec(v) {
                    Some(n) => Some(n),
                    None => prev,
                }
            } else {
                prev
            },
            None => prev,
        }
    }
}

/// The memory used, as the last parsable `used_memory` line reports it.
pub open spec fn info_memory(lines: Seq<Seq<char>>) -> Option<u64>
    decreases lines.len(),
{
    if lines.len() == 0 {
        None
    } else {
        let prev = info_memory(lines.drop_last());
        match info_entry(lines.last()) {
            Some((k, v)) => if k == "used_memory"@ {
                match parse_u64_spec(v) {
                    Some(n) => Some(n),
                    None => prev,
                }
            } else {
                prev
            },
            None => prev,
        }
    }
}

/// The item count, as the last `db0` line that reports keys gives it.
pub open spec fn info_items(lines: Seq<Seq<char>>) -> Option<u64>
    decreases lines.len(),
{
    if lines.len() == 0 {
        None
    } else {
        let prev = info_items(lines.drop_last());
        match info_entry(lines.last()) {
            Some((k, v)) => if k == "db0"@ {
                match db_keys(split(v, ',')) {
                    Some(n) => Some(n),
                    None => prev,
                }
            } else {
                prev
            },
            None => prev,
        }
    }
}

/// Every other statistic, in order.
pub open spec fn info_metrics(lines: Seq<Seq<char>>) -> Seq<(Seq<char>, Seq<char>)>
    decreases lines.len(),
{
    if lines.len() == 0 {
        Seq::empty()
    } else {
        let prev = info_metrics(lines.drop_last());
        match info_entry(lines.last()) {
            Some((k, v)) => if k == "used_memory"@ || k == "db0"@ {
                prev
            } else {
                prev.push((k, v))
            },
            None => prev,
        }
    }
}

/// The statistic a line carries (see `info_entry`).
fn line_entry(line: &[char]) -> (r: Option<(Vec<char>, Vec<char>)>)
    ensures
        match info_entry(line@) {
            Some((k, v)) => r matches Some((x, y)) && x@ == k && y@ == v,
            None => r is None,
        },
{
    let t = trim_chars(line);
    if t.len() == 0 || t[0] == '#' {
        return None;
    }
    split_once_chars(t.as_slice(), ':')
}

/// The number of keys a `db0` value reports (see `db_keys`).
fn db0_keys(value: &[char]) -> (r: Option<u64>)
    ensures
        r == db_keys(split(value@, ',')),
{
    let parts = split_chars(value, ',');
    let ghost ps = split(value@, ',');
    let keys = chars_of("keys");
    let mut found: Option<u64> = None;
    let mut i: usize = 0;
    while i < parts.len()
        invariant
            0 <= i <= parts.len(),
            pieces_view(parts@) == ps,
            keys@ == "keys"@,
            found == db_keys(ps.take(i as int)),
        decreases parts.len() - i,
    {
        proof {
            assert(ps.take(i + 1).drop_last() =~= ps.take(i as int));
            assert(ps.take(i + 1).last() == parts@[i as int]@);
        }
        match split_once_chars(parts[i].as_slice(), '=') {
            Some((k, v)) => {
                if chars_eq(k.as_slice(), keys.as_slice()) {
                    let text = string_from_chars(v.as_slice());
                    match parse_u64(text.as_str()) {
                        Some(n) => {
                            found = Some(n);
                        },
                        None => {},
                    }
                }
            },
            None => {},
        }
        i = i + 1;
    }
    assert(ps.take(ps.len() as int) =~= ps);
    found
}

/// The statistics a Redis server reports in its `INFO` text: the hit and
/// miss counts, the memory used (`used_memory`), the item count (the
/// `keys` of `db0`), and every other `name:value` line as a metric.
pub fn redis_stats(hits: u64, misses: u64, info: &str) -> (r: CacheStats)
    ensures
        ({
            let lines = split(info@, '\n');
            &&& r.hits == Some(hits)
            &&& r.misses == Some(misses)
            &&& r.memory_used_bytes == info_memory(lines)
            &&& r.item_count == info_items(lines)
            &&& r.sets is None
            &&& r.deletes is None
            &&& header_map(r.additional_metrics@) == pairs_map(info_metrics(lines))
            &&& distinct_names(r.additional_metrics@)
        }),
{
    let cs = chars_of(info);
    let lines = split_chars(cs.as_slice(), '\n');
    let ghost ls = split(info@, '\n');
    let used = chars_of("used_memory");
    let db0 = chars_of("db0");
    let mut memory: Option<u64> = None;
    let mut items: Option<u64> = None;
    let mut metrics: Vec<(String, String)> = Vec::new();
    proof {
        assert(header_map(metrics@) =~= Map::empty());
    }
    let mut i: usize = 0;
    while i < lines.len()
        invariant
            0 <= i <= lines.len(),
            pieces_view(lines@) == ls,
            used@ == "used_memory"@,
            db0@ == "db0"@,
            memory == info_memory(ls.take(i as int)),
            items == info_items(ls.take(i as int)),
            header_map(metrics@) == pairs_map(info_metrics(ls.take(i as int))),
            distinct_names(metrics@),
        decreases lines.len() - i,
    {
        let ghost p = ls.take(i as int);
        proof {
            reveal_strlit("used_memory");
            reveal_strlit("db0");
            assert(ls.take(i + 1).drop_last() =~= p);
            assert(ls.take(i + 1).last() == lines@[i as int]@);
        }
        match line_entry(lines[i].as_slice()) {
            Some((k, v)) => {
                if chars_eq(k.as_slice(), used.as_slice()) {
                    let text = string_from_chars(v.as_slice());
                    match parse_u64(text.as_str()) {
                        Some(n) => {
                            memory = Some(n);
                        },
                        None => {},
                    }
                } else if chars_eq(k.as_slice(), db0.as_slice()) {
                    match db0_keys(v.as_slice()) {
                        Some(n) => {
                            items = Some(n);
                        },
                        None => {},
                    }
                } else {
                    let name = string_from_chars(k.as_slice());
                    let value = string_from_chars(v.as_slice());
                    proof {
                        lemma_metrics_push(info_metrics(p), (k@, v@));
                    }
                    put_pair(&mut metrics, name, value);
                }
            },
            None => {},
        }
        i = i + 1;
    }
    assert(ls.take(ls.len() as int) =~= ls);
    CacheStats {
        hits: Some(hits),
        misses: Some(misses),
        sets: None,
        deletes: None,
        item_count: items,
        memory_used_bytes: memory,
        additional_metrics: metrics,
    }
}

} // verus!
