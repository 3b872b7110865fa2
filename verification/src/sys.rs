//! The few values the library takes from its surroundings: durations, the
//! wall clock, fresh identifiers and random orderings.

use rand::seq::SliceRandom;
use std::time::Duration;
use vstd::prelude::*;

verus! {

/// Name for what `Duration::as_secs` gives back for a duration.
pub uninterp spec fn duration_secs(d: Duration) -> u64;

/// Name for what `Duration::subsec_nanos` gives back for a duration: the
/// nanoseconds past its whole seconds.
pub uninterp spec fn duration_nanos(d: Duration) -> u32;

/// `Duration`'s `Clone`: a copy of the duration.
pub assume_specification[ <Duration as Clone>::clone ](d: &Duration) -> (r: Duration)
    ensures
        r == *d,
;

/// `Duration::from_secs`: a duration of exactly `secs` whole seconds and no
/// nanoseconds.
#[verifier::external_body]
pub(crate) fn duration_from_secs(secs: u64) -> (d: Duration)
    ensures
        duration_secs(d) == secs,
        duration_nanos(d) == 0,
{
    Duration::from_secs(secs)
}

/// `Duration::from_millis`: a duration of `ms` milliseconds: `ms / 1000`
/// whole seconds and the remaining milliseconds as nanoseconds.
#[verifier::external_body]
pub(crate) fn duration_from_millis(ms: u64) -> (d: Duration)
    ensures
        duration_secs(d) == ms / 1000,
        duration_nanos(d) == (ms % 1000) * 1_000_000,
{
    Duration::from_millis(ms)
}

/// Whether a duration of `after_secs` seconds and `after_nanos` nanoseconds
/// is twice one of `before_secs` and `before_nanos`, saturating at
/// `Duration::MAX` (`u64::MAX` seconds and 999 999 999 nanoseconds): the
/// doubled nanoseconds carry into the seconds past a whole second.
pub open spec fn doubled_duration(before_secs: u64, before_nanos: u32, after_secs: u64, after_nanos: u32) -> bool {
    let total_nanos = 2 * before_nanos;
    let secs = 2 * before_secs + total_nanos / 1_000_000_000;
    if secs <= u64::MAX {
        after_secs == secs && after_nanos == total_nanos % 1_000_000_000
    } else {
        after_secs == u64::MAX && after_nanos == 999_999_999
    }
}

/// `Duration::saturating_mul` by two: twice the duration, or `Duration::MAX`
/// when that overflows.
#[verifier::external_body]
pub(crate) fn duration_doubled(d: Duration) -> (r: Duration)
    ensures
        doubled_duration(duration_secs(d), duration_nanos(d), duration_secs(r), duration_nanos(r)),
{
    d.saturating_mul(2)
}

/// Name for the `Debug` rendering of a duration (such as `30s` or `1.5s`).
pub uninterp spec fn duration_debug_text(d: Duration) -> Seq<char>;

/// `Duration`'s `Debug` rendering, a function of the duration alone.
#[verifier::external_body]
pub(crate) fn duration_debug(d: &Duration) -> (r: String)
    ensures
        r@ == duration_debug_text(*d),
{
    format!("{:?}", d)
}

/// Whether one duration is at most another: fewer whole seconds, or as many
/// and no more nanoseconds.
pub open spec fn duration_not_longer(a: Duration, b: Duration) -> bool {
    duration_secs(a) < duration_secs(b) || (duration_secs(a) == duration_secs(b) && duration_nanos(a)
        <= duration_nanos(b))
}

/// `Duration`'s `<=`, which compares the seconds and then the nanoseconds.
#[verifier::external_body]
pub(crate) fn duration_le(a: &Duration, b: &Duration) -> (r: bool)
    ensures
        r == duration_not_longer(*a, *b),
{
    *a <= *b
}

/// `Duration::as_secs`: the whole seconds of a duration.
#[verifier::external_body]
pub(crate) fn duration_as_secs(d: &Duration) -> (s: u64)
    ensures
        s == duration_secs(*d),
{
    d.as_secs()
}

/// The current Unix time in whole seconds (`SystemTime::now` measured from
/// the epoch, zero if the clock reads earlier). Nothing is promised about the
/// value: it depends on the machine's clock.
#[verifier::external_body]
pub(crate) fn unix_now_secs() -> (now: u64) {
    std::time::SystemTime::now()
        .duration_since(std::time::UNIX_EPOCH)
        .unwrap_or_default()
        .as_secs()
}

/// Whether `c` is a lowercase hexadecimal digit.
pub open spec fn is_lower_hex_digit(c: char) -> bool {
    ('0' <= c && c <= '9') || ('a' <= c && c <= 'f')
}

/// Whether `s` has the hyphenated form of a UUID: 36 characters, hyphens at
/// 8, 13, 18 and 23, lowercase hexadecimal digits elsewhere.
pub open spec fn hyphenated_uuid_text(s: Seq<char>) -> bool {
    &&& s.len() == 36
    &&& forall|i: int|
        0 <= i < 36 ==> if i == 8 || i == 13 || i == 18 || i == 23 {
            #[trigger] s[i] == '-'
        } else {
            is_lower_hex_digit(s[i])
        }
}

/// A fresh random identifier: `uuid::Uuid::new_v4` rendered by `Display`,
/// which is the lowercase hyphenated form. Which identifier comes out is not
/// stated: it is random.
#[verifier::external_body]
pub(crate) fn new_uuid_string() -> (s: String)
    ensures
        hyphenated_uuid_text(s@),
{
    uuid::Uuid::new_v4().to_string()
}

/// `rand`'s `SliceRandom::shuffle` with the thread-local generator: the same
/// items in a random order. Which order comes out is not stated.
#[verifier::external_body]
fn shuffle_in_place(v: &mut Vec<usize>)
    ensures
        final(v)@.to_multiset() == old(v)@.to_multiset(),
{
    v.shuffle(&mut rand::rng());
}

/// The indices `0..n` in a random order: every outcome is a permutation of
/// `0..n`.
pub(crate) fn random_permutation(n: usize) -> (p: Vec<usize>)
    ensures
        p@.len() == n,
        forall|i: int| 0 <= i < n ==> #[trigger] p@[i] < n,
        forall|i: int, j: int| 0 <= i < j < n ==> p@[i] != p@[j],
{
    let mut v: Vec<usize> = Vec::new();
    let mut k: usize = 0;
    while k < n
        invariant
            0 <= k <= n,
            v@.len() == k,
            forall|j: int| 0 <= j < k ==> #[trigger] v@[j] == j,
        decreases n - k,
    {
        v.push(k);
        k = k + 1;
    }
    let ghost before = v@;
    assert(before.no_duplicates());
    shuffle_in_place(&mut v);
    proof {
        broadcast use vstd::seq_lib::group_to_multiset_ensures;

        assert(v@.len() == v@.to_multiset().len());
        assert(before.len() == before.to_multiset().len());
        before.lemma_multiset_has_no_duplicates();
        v@.lemma_multiset_has_no_duplicates_conv();
        assert forall|i: int| 0 <= i < n implies #[trigger] v@[i] < n by {
            let x = v@[i];
            assert(v@.contains(x));
            assert(v@.to_multiset().count(x) > 0);
            assert(before.to_multiset().count(x) > 0);
            assert(before.contains(x));
        }
    }
    v
}

} // verus!
