//! The file cache's own logic: where an entry's file lies, the counter kept
//! in a file, and the statistics of the files found. Reading and writing the
//! files is the application's part.

use crate::cache::in_memory::{lossy_text, namespaced};
use crate::cache::remote::prefix_key;
use crate::cache::CacheStats;
use crate::sys::{duration_le, duration_not_longer};
use crate::text::{
    chars_of, hex, hex_string, i64_to_string, parse_i64, parse_i64_spec, signed_decimal,
    string_bytes, string_from_chars, string_from_utf8_lossy,
};
use std::time::Duration;
use vstd::prelude::*;
use vstd::utf8::*;

verus! {

/// The sum of the bytes, wrapping at 2^64.
pub open spec fn byte_sum(b: Seq<u8>) -> u64
    decreases b.len(),
{
    if b.len() == 0 {
        0
    } else {
        vstd::wrapping::u64_specs::wrapping_add(byte_sum(b.drop_last()), b.last() as u64)
    }
}

/// The name of the file for a key: the byte sum of its stored form in
/// lowercase hexadecimal.
pub open spec fn file_hash(namespace: Option<Seq<char>>, key: Seq<char>) -> Seq<char> {
    hex(byte_sum(encode_utf8(namespaced(namespace, key))) as nat)
}

/// The byte sum of a text's UTF-8 bytes.
pub fn text_byte_sum(text: &str) -> (r: u64)
    ensures
        r == byte_sum(encode_utf8(text@)),
{
    let bytes = string_bytes(text);
    let mut sum: u64 = 0;
    let mut i: usize = 0;
    while i < bytes.len()
        invariant
            0 <= i <= bytes.len(),
            sum == byte_sum(bytes@.take(i as int)),
        decreases bytes.len() - i,
    {
        proof {
            assert(bytes@.take(i + 1).drop_last() =~= bytes@.take(i as int));
        }
        sum = sum.wrapping_add(bytes[i] as u64);
        i = i + 1;
    }
    assert(bytes@.take(bytes@.len() as int) =~= bytes@);
    sum
}

/// Where an entry's file lies below the cache directory: two directory
/// levels named by the first two pairs of characters of the file name.
#[derive(Debug, Clone)]
pub struct CacheFileLocation {
    pub dir1: String,
    pub dir2: String,
    pub file_name: String,
}

/// The hash with zeros in front up to four characters, so that it always
/// names two directory levels.
pub open spec fn padded_hash(h: Seq<char>) -> Seq<char> {
    if h.len() < 4 {
        Seq::new((4 - h.len()) as nat, |i: int| '0') + h
    } else {
        h
    }
}

/// The file of a key: `dir1/dir2/name` with `name` its hash, and the two
/// directories named by the first two pairs of characters of the hash,
/// padded in front with zeros where it is shorter than four.
pub fn cache_file_location(namespace: Option<&str>, key: &str) -> (r: CacheFileLocation)
    ensures
        ({
            let h = file_hash(
                match namespace {
                    Some(n) => Some(n@),
                    None => None,
                },
                key@,
            );
            &&& r.file_name@ == h
            &&& r.dir1@ == padded_hash(h).subrange(0, 2)
            &&& r.dir2@ == padded_hash(h).subrange(2, 4)
        }),
{
    let stored = prefix_key(namespace, key);
    let sum = text_byte_sum(stored.as_str());
    let name = hex_string(sum);
    let cs = chars_of(name.as_str());
    let mut padded: Vec<char> = Vec::new();
    let mut k: usize = cs.len();
    while k < 4
        invariant
            cs.len() <= k,
            k <= 4 || k == cs.len(),
            padded@ == Seq::new((k - cs.len()) as nat, |i: int| '0'),
        decreases 4 - k,
    {
        padded.push('0');
        k = k + 1;
        assert(padded@ =~= Seq::new((k - cs.len()) as nat, |i: int| '0'));
    }
    let ghost zeros = padded@;
    let mut j: usize = 0;
    while j < cs.len()
        invariant
            0 <= j <= cs.len(),
            padded@ == zeros + cs@.take(j as int),
        decreases cs.len() - j,
    {
        padded.push(cs[j]);
        j = j + 1;
        assert(padded@ =~= zeros + cs@.take(j as int));
    }
    proof {
        assert(cs@.take(cs@.len() as int) =~= cs@);
        if cs@.len() >= 4 {
            assert(zeros =~= Seq::<char>::empty());
            assert(padded@ =~= cs@);
        }
        assert(padded@ == padded_hash(cs@));
    }
    let d1 = string_from_chars(vstd::slice::slice_subrange(padded.as_slice(), 0, 2));
    let d2 = string_from_chars(vstd::slice::slice_subrange(padded.as_slice(), 2, 4));
    CacheFileLocation { dir1: d1, dir2: d2, file_name: name }
}

/// The number a counter file holds: its text (decoded leniently) as an
/// `i64`; 0 when there is no live file, it is empty, or it holds no number.
pub open spec fn file_counter(content: Option<Seq<u8>>) -> int {
    match content {
        Some(b) => if b.len() > 0 {
            match parse_i64_spec(lossy_text(b)) {
                Some(v) => v as int,
                None => 0,
            }
        } else {
            0
        },
        None => 0,
    }
}

/// The view of optional file content.
pub open spec fn content_view(content: Option<&[u8]>) -> Option<Seq<u8>> {
    match content {
        Some(b) => Some(b@),
        None => None,
    }
}

/// Incrementing a counter file by `delta`: the new number and the bytes to
/// write back (its decimal text); none when the sum leaves `i64`.
pub fn increment_file_content(content: Option<&[u8]>, delta: i64) -> (r: Option<(i64, Vec<u8>)>)
    ensures
        ({
            let n = file_counter(content_view(content)) + delta;
            if i64::MIN <= n <= i64::MAX {
                r matches Some((v, bytes)) && v == n && bytes@ == encode_utf8(signed_decimal(n))
            } else {
                r is None
            }
        }),
{
    let current: i64 = match content {
        Some(b) => {
            if b.len() > 0 {
                let text = string_from_utf8_lossy(b);
                match parse_i64(text.as_str()) {
                    Some(v) => v,
                    None => 0,
                }
            } else {
                0
            }
        },
        None => 0,
    };
    match current.checked_add(delta) {
        Some(v) => {
            let text = i64_to_string(v);
            Some((v, string_bytes(text.as_str())))
        },
        None => None,
    }
}

/// Whether a file of this age is still within the time to live; a file
/// whose age is unknown is not.
pub open spec fn is_fresh(age: Option<Duration>, ttl: Duration) -> bool {
    match age {
        Some(a) => duration_not_longer(a, ttl),
        None => false,
    }
}

/// The number of fresh files.
pub open spec fn fresh_count(files: Seq<(u64, Option<Duration>)>, ttl: Duration) -> nat
    decreases files.len(),
{
    if files.len() == 0 {
        0
    } else {
        fresh_count(files.drop_last(), ttl) + if is_fresh(files.last().1, ttl) { 1nat } else { 0nat }
    }
}

/// The total size of the fresh files.
pub open spec fn fresh_size(files: Seq<(u64, Option<Duration>)>, ttl: Duration) -> nat
    decreases files.len(),
{
    if files.len() == 0 {
        0
    } else {
        fresh_size(files.drop_last(), ttl) + if is_fresh(files.last().1, ttl) { files.last().0 as nat } else { 0nat }
    }
}

proof fn lemma_fresh_count_bound(files: Seq<(u64, Option<Duration>)>, ttl: Duration)
    ensures
        fresh_count(files, ttl) <= files.len(),
    decreases files.len(),
{
    if files.len() > 0 {
        lemma_fresh_count_bound(files.drop_last(), ttl);
    }
}

proof fn lemma_fresh_size_prefix(files: Seq<(u64, Option<Duration>)>, ttl: Duration, i: int)
    requires
        0 <= i <= files.len(),
    ensures
        fresh_size(files.take(i), ttl) <= fresh_size(files, ttl),
    decreases files.len(),
{
    if i < files.len() {
        lemma_fresh_size_prefix(files.drop_last(), ttl, i);
        assert(files.drop_last().take(i) =~= files.take(i));
    } else {
        assert(files.take(i) =~= files);
    }
}

/// The statistics of a file cache: the hit and miss counts, and the number
/// and total size of the files (size, age) still within the time to live;
/// none when that size does not fit in `u64`.
pub fn file_cache_stats(hits: u64, misses: u64, files: &Vec<(u64, Option<Duration>)>, ttl: &Duration) -> (r: Option<CacheStats>)
    ensures
        fresh_size(files@, *ttl) <= u64::MAX ==> (r matches Some(s) && s.hits == Some(hits) && s.misses == Some(misses)
            && s.item_count == Some(fresh_count(files@, *ttl) as u64)
            && s.memory_used_bytes == Some(fresh_size(files@, *ttl) as u64) && s.sets is None && s.deletes is None
            && s.additional_metrics@.len() == 0),
        fresh_size(files@, *ttl) > u64::MAX ==> r is None,
{
    let mut count: u64 = 0;
    let mut size: u64 = 0;
    let mut i: usize = 0;
    while i < files.len()
        invariant
            0 <= i <= files.len(),
            count == fresh_count(files@.take(i as int), *ttl),
            size == fresh_size(files@.take(i as int), *ttl),
            files@.len() <= usize::MAX,
        decreases files.len() - i,
    {
        proof {
            assert(files@.take(i + 1).drop_last() =~= files@.take(i as int));
            lemma_fresh_count_bound(files@.take(i as int), *ttl);
        }
        let fresh = match &files[i].1 {
            Some(age) => duration_le(age, ttl),
            None => false,
        };
        if fresh {
            match size.checked_add(files[i].0) {
                Some(s) => {
                    size = s;
                },
                None => {
                    proof {
                        lemma_fresh_size_prefix(files@, *ttl, i + 1);
                    }
                    return None;
                },
            }
            count = count + 1;
        }
        i = i + 1;
    }
    assert(files@.take(files@.len() as int) =~= files@);
    Some(
        CacheStats {
            hits: Some(hits),
            misses: Some(misses),
            sets: None,
            deletes: None,
            item_count: Some(count),
            memory_used_bytes: Some(size),
            additional_metrics: Vec::new(),
        },
    )
}

} // verus!
