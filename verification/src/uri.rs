//! Request URIs: the path before the first `?`, and the query parameters
//! after it, read as `key=value` pairs joined by `&`.

use crate::headers::{distinct_names, header_map, pairs_map, put_pair};
use crate::text::{chars_of, string_from_chars};
use vstd::prelude::*;

verus! {

/// The pieces of `s` between occurrences of `c`, as `str::split` yields
/// them: always at least one piece, empty pieces included.
pub open spec fn split(s: Seq<char>, c: char) -> Seq<Seq<char>>
    decreases s.len(),
{
    if s.len() == 0 {
        seq![Seq::<char>::empty()]
    } else {
        let p = split(s.drop_last(), c);
        if s.last() == c {
            p.push(Seq::<char>::empty())
        } else {
            p.update(p.len() - 1, p.last().push(s.last()))
        }
    }
}

pub proof fn lemma_split_nonempty(s: Seq<char>, c: char)
    ensures
        split(s, c).len() >= 1,
    decreases s.len(),
{
    if s.len() > 0 {
        lemma_split_nonempty(s.drop_last(), c);
    }
}

/// The path of a URI: what comes before the first `?`.
pub open spec fn uri_path(uri: Seq<char>) -> Seq<char> {
    split(uri, '?')[0]
}

/// The query of a URI: the piece after the first `?` and before any second
/// one, if there is a `?`.
pub open spec fn query_part(uri: Seq<char>) -> Option<Seq<char>> {
    let p = split(uri, '?');
    if p.len() > 1 {
        Some(p[1])
    } else {
        None
    }
}

/// A `key=value` pair: the key is the text before the first `=`, the value
/// the text after it up to any second `=`; without `=` there is no pair.
pub open spec fn query_pair(piece: Seq<char>) -> Option<(Seq<char>, Seq<char>)> {
    let parts = split(piece, '=');
    if parts.len() >= 2 {
        Some((parts[0], parts[1]))
    } else {
        None
    }
}

/// The pairs of a list of `&`-separated pieces, in order.
pub open spec fn query_entries(pieces: Seq<Seq<char>>) -> Seq<(Seq<char>, Seq<char>)>
    decreases pieces.len(),
{
    if pieces.len() == 0 {
        Seq::empty()
    } else {
        let rest = query_entries(pieces.drop_last());
        match query_pair(pieces.last()) {
            Some(e) => rest.push(e),
            None => rest,
        }
    }
}

/// The query parameters of a URI: a later pair for a key wins.
pub open spec fn query_map(uri: Seq<char>) -> Map<Seq<char>, Seq<char>> {
    match query_part(uri) {
        Some(q) => pairs_map(query_entries(split(q, '&'))),
        None => Map::empty(),
    }
}

/// The views of a list of character vectors.
pub open spec fn pieces_view(v: Seq<Vec<char>>) -> Seq<Seq<char>> {
    v.map_values(|x: Vec<char>| x@)
}

/// Splits `s` at every `c`, as `str::split` does.
pub fn split_chars(s: &[char], c: char) -> (r: Vec<Vec<char>>)
    ensures
        pieces_view(r@) == split(s@, c),
{
    let mut done: Vec<Vec<char>> = Vec::new();
    let mut cur: Vec<char> = Vec::new();
    let mut i: usize = 0;
    while i < s.len()
        invariant
            0 <= i <= s.len(),
            pieces_view(done@).push(cur@) == split(s@.take(i as int), c),
        decreases s.len() - i,
    {
        let ghost prev = s@.take(i as int);
        proof {
            assert(s@.take(i + 1).drop_last() =~= prev);
            assert(s@.take(i + 1).last() == s@[i as int]);
            lemma_split_nonempty(prev, c);
        }
        if s[i] == c {
            let ghost before = pieces_view(done@);
            done.push(cur);
            cur = Vec::new();
            proof {
                assert(pieces_view(done@) =~= before.push(split(prev, c).last()));
                assert(pieces_view(done@).push(cur@) =~= split(s@.take(i + 1), c));
            }
        } else {
            cur.push(s[i]);
            proof {
                assert(pieces_view(done@).push(cur@) =~= split(s@.take(i + 1), c));
            }
        }
        i = i + 1;
    }
    assert(s@.take(s@.len() as int) =~= s@);
    done.push(cur);
    done
}

/// The index of the first `c` in `s`, if any.
pub fn find_char(s: &[char], c: char) -> (r: Option<usize>)
    ensures
        match r {
            Some(i) => i < s@.len() && s@[i as int] == c && forall|j: int| 0 <= j < i ==> s@[j] != c,
            None => forall|j: int| 0 <= j < s@.len() ==> s@[j] != c,
        },
{
    let mut i: usize = 0;
    while i < s.len()
        invariant
            0 <= i <= s.len(),
            forall|j: int| 0 <= j < i ==> s@[j] != c,
        decreases s.len() - i,
    {
        if s[i] == c {
            return Some(i);
        }
        i = i + 1;
    }
    None
}

/// Without `c`, the text is a single piece.
pub proof fn lemma_split_without(s: Seq<char>, c: char)
    requires
        forall|j: int| 0 <= j < s.len() ==> s[j] != c,
    ensures
        split(s, c) == seq![s],
    decreases s.len(),
{
    if s.len() > 0 {
        let t = s.drop_last();
        lemma_split_without(t, c);
        assert(t.push(s.last()) =~= s);
        assert(s.last() != c);
        assert(split(s, c) == split(t, c).update(0, split(t, c).last().push(s.last())));
        assert(split(s, c) =~= seq![s]);
    } else {
        assert(s =~= Seq::<char>::empty());
    }
}

/// The first piece is the text before the first `c`.
pub proof fn lemma_split_first(s: Seq<char>, c: char, i: int)
    requires
        0 <= i <= s.len(),
        forall|j: int| 0 <= j < i ==> s[j] != c,
        i == s.len() || s[i] == c,
    ensures
        split(s, c)[0] == s.subrange(0, i),
    decreases s.len(),
{
    lemma_split_nonempty(s, c);
    if s.len() == i {
        lemma_split_without(s, c);
        assert(s.subrange(0, i) =~= s);
    } else {
        lemma_split_first_step(s, c, i);
    }
}

proof fn lemma_split_first_step(s: Seq<char>, c: char, i: int)
    requires
        0 <= i < s.len(),
        forall|j: int| 0 <= j < i ==> s[j] != c,
        s[i] == c,
    ensures
        split(s, c)[0] == s.subrange(0, i),
    decreases s.len(),
{
    let t = s.drop_last();
    lemma_split_nonempty(t, c);
    if i == s.len() - 1 {
        lemma_split_without(t, c);
        assert(t =~= s.subrange(0, i));
    } else {
        lemma_split_first_step(t, c, i);
        assert(t.subrange(0, i) =~= s.subrange(0, i));
        lemma_split_has_two(t, c, i);
    }
}

/// A `c` inside the text makes at least two pieces.
pub proof fn lemma_split_has_two(s: Seq<char>, c: char, i: int)
    requires
        0 <= i < s.len(),
        s[i] == c,
    ensures
        split(s, c).len() >= 2,
    decreases s.len(),
{
    let t = s.drop_last();
    lemma_split_nonempty(t, c);
    if i < s.len() - 1 {
        lemma_split_has_two(t, c, i);
    }
}

/// The path of a URI: the text before the first `?`.
pub fn path_of(uri: &str) -> (r: &str)
    ensures
        r@ == uri_path(uri@),
{
    let cs = chars_of(uri);
    let ghost s = uri@;
    match find_char(cs.as_slice(), '?') {
        Some(i) => {
            proof {
                lemma_split_first(s, '?', i as int);
            }
            uri.substring_char(0, i)
        },
        None => {
            proof {
                lemma_split_without(s, '?');
                assert(s.subrange(0, s.len() as int) =~= s);
            }
            let n = cs.len();
            uri.substring_char(0, n)
        },
    }
}

/// The query parameters of a URI as a name/value list with no repeated name.
pub fn parse_query(uri: &str) -> (r: Vec<(String, String)>)
    ensures
        header_map(r@) == query_map(uri@),
        distinct_names(r@),
{
    let mut params: Vec<(String, String)> = Vec::new();
    let cs = chars_of(uri);
    let parts = split_chars(cs.as_slice(), '?');
    if parts.len() > 1 {
        let q = &parts[1];
        let ghost qv = split(uri@, '?')[1];
        assert(q@ == pieces_view(parts@)[1]);
        let pieces = split_chars(q.as_slice(), '&');
        let ghost ps = split(qv, '&');
        let mut i: usize = 0;
        while i < pieces.len()
            invariant
                0 <= i <= pieces.len(),
                pieces_view(pieces@) == ps,
                header_map(params@) == pairs_map(query_entries(ps.take(i as int))),
                distinct_names(params@),
            decreases pieces.len() - i,
        {
            let kv = split_chars(pieces[i].as_slice(), '=');
            let ghost piece = ps[i as int];
            proof {
                assert(pieces@[i as int]@ == piece);
                assert(ps.take(i + 1).drop_last() =~= ps.take(i as int));
                assert(ps.take(i + 1).last() == piece);
            }
            if kv.len() >= 2 {
                let key = string_from_chars(kv[0].as_slice());
                let value = string_from_chars(kv[1].as_slice());
                proof {
                    assert(kv@[0]@ == pieces_view(kv@)[0]);
                    assert(kv@[1]@ == pieces_view(kv@)[1]);
                    let e = query_pair(piece).unwrap();
                    lemma_entries_push(query_entries(ps.take(i as int)), e);
                }
                put_pair(&mut params, key, value);
            }
            i = i + 1;
        }
        assert(ps.take(ps.len() as int) =~= ps);
    } else {
        assert(query_part(uri@) is None);
        assert(header_map(params@) =~= Map::empty());
    }
    params
}

proof fn lemma_entries_push(s: Seq<(Seq<char>, Seq<char>)>, e: (Seq<char>, Seq<char>))
    ensures
        pairs_map(s.push(e)) == pairs_map(s).insert(e.0, e.1),
{
    assert(s.push(e).drop_last() =~= s);
}

/// The text before the first `c` and the text after it, if there is a `c`
/// (as `str::split_once` gives them).
pub open spec fn split_once(s: Seq<char>, c: char) -> Option<(Seq<char>, Seq<char>)> {
    let p = split(s, c);
    if p.len() >= 2 {
        Some((p[0], s.subrange(p[0].len() + 1int, s.len() as int)))
    } else {
        None
    }
}

/// Splits at the first `c` (see `split_once`).
pub fn split_once_chars(s: &[char], c: char) -> (r: Option<(Vec<char>, Vec<char>)>)
    ensures
        match split_once(s@, c) {
            Some((a, b)) => r matches Some((x, y)) && x@ == a && y@ == b,
            None => r is None,
        },
{
    match find_char(s, c) {
        Some(i) => {
            proof {
                lemma_split_first(s@, c, i as int);
                lemma_split_has_two(s@, c, i as int);
            }
            let a = vstd::slice::slice_to_vec(vstd::slice::slice_subrange(s, 0, i));
            let n = s.len();
            assert(i < n);
            let b = vstd::slice::slice_to_vec(vstd::slice::slice_subrange(s, i + 1, n));
            Some((a, b))
        },
        None => {
            proof {
                lemma_split_without(s@, c);
            }
            None
        },
    }
}

} // verus!
