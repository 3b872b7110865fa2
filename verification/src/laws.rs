//! Properties that relate several operations of the HTTP, routing and IPC
//! parts of the library.

use crate::cache::file::file_counter;
use crate::headers::{header_map, pairs_of};
use crate::http_tcp::client::HttpTcpClient;
use crate::routing::{dispatch_decision, first_match, lemma_first_match, Dispatch};
use crate::text::{lemma_parse_signed_decimal, signed_decimal, uppercase};
use std::sync::Arc;
use vstd::utf8::*;
use crate::http_tcp::client::{has_prefix, query_string, resolved_url, uri_with_query};
use crate::uri::{
    lemma_split_nonempty, lemma_split_without, query_entries, query_map, query_pair, query_part, split,
    uri_path,
};
use vstd::prelude::*;

verus! {

/// Whether `c` occurs nowhere in `s`.
pub open spec fn free_of(s: Seq<char>, c: char) -> bool {
    forall|i: int| 0 <= i < s.len() ==> s[i] != c
}

/// Splitting at a separator placed between two texts splits each text.
pub proof fn lemma_split_concat(a: Seq<char>, b: Seq<char>, c: char)
    ensures
        split(a + seq![c] + b, c) == split(a, c) + split(b, c),
    decreases b.len(),
{
    let ac = a + seq![c];
    if b.len() == 0 {
        assert(ac + b =~= ac);
        assert(ac.drop_last() =~= a);
        assert(split(b, c) =~= seq![Seq::<char>::empty()]);
        assert(split(a, c).push(Seq::<char>::empty()) =~= split(a, c) + split(b, c));
    } else {
        let b0 = b.drop_last();
        let x = b.last();
        lemma_split_concat(a, b0, c);
        lemma_split_nonempty(b0, c);
        lemma_split_nonempty(a, c);
        assert((ac + b).drop_last() =~= ac + b0);
        assert((ac + b).last() == x);
        let sa = split(a, c);
        let sb = split(b0, c);
        if x == c {
            assert(split(ac + b, c) =~= (sa + sb).push(Seq::<char>::empty()));
            assert((sa + sb).push(Seq::<char>::empty()) =~= sa + sb.push(Seq::<char>::empty()));
        } else {
            let all = sa + sb;
            assert(all.last() == sb.last());
            assert(all.update(all.len() - 1, all.last().push(x)) =~= sa + sb.update(sb.len() - 1, sb.last().push(x)));
        }
    }
}

/// The pieces of a joined query string are its `key=value` items.
proof fn lemma_query_pieces(q: Seq<(Seq<char>, Seq<char>)>)
    requires
        q.len() > 0,
        forall|i: int| 0 <= i < q.len() ==> free_of(#[trigger] q[i].0, '&') && free_of(q[i].1, '&'),
    ensures
        split(query_string(q), '&') == q.map_values(|e: (Seq<char>, Seq<char>)| e.0 + "="@ + e.1),
    decreases q.len(),
{
    let item = q.last().0 + "="@ + q.last().1;
    reveal_strlit("=");
    reveal_strlit("&");
    assert(free_of(item, '&')) by {
        assert(free_of(q[q.len() - 1].0, '&'));
        assert(free_of(q[q.len() - 1].1, '&'));
        assert forall|i: int| 0 <= i < item.len() implies item[i] != '&' by {
            if i < q.last().0.len() {
            } else if i == q.last().0.len() {
            } else {
                assert(item[i] == q.last().1[i - q.last().0.len() - 1]);
            }
        }
    }
    lemma_split_without(item, '&');
    if q.len() == 1 {
        assert(q.map_values(|e: (Seq<char>, Seq<char>)| e.0 + "="@ + e.1) =~= seq![item]);
    } else {
        let r = q.drop_last();
        assert forall|i: int| 0 <= i < r.len() implies free_of(#[trigger] r[i].0, '&') && free_of(r[i].1, '&') by {
            assert(r[i] == q[i]);
        }
        lemma_query_pieces(r);
        assert(query_string(q) == query_string(r) + "&"@ + item);
        assert("&"@ =~= seq!['&']);
        lemma_split_concat(query_string(r), item, '&');
        assert(q.map_values(|e: (Seq<char>, Seq<char>)| e.0 + "="@ + e.1) =~= r.map_values(
            |e: (Seq<char>, Seq<char>)| e.0 + "="@ + e.1,
        ) + seq![item]);
    }
}

/// A `key=value` item without other `=` reads back as the pair.
proof fn lemma_item_pair(k: Seq<char>, v: Seq<char>)
    requires
        free_of(k, '='),
        free_of(v, '='),
    ensures
        query_pair(k + "="@ + v) == Some((k, v)),
{
    reveal_strlit("=");
    assert("="@ =~= seq!['=']);
    lemma_split_concat(k, v, '=');
    lemma_split_without(k, '=');
    lemma_split_without(v, '=');
    assert(split(k + "="@ + v, '=') =~= seq![k, v]);
}

/// The entries of the items of a query are its pairs.
proof fn lemma_entries_of_items(q: Seq<(Seq<char>, Seq<char>)>)
    requires
        forall|i: int| 0 <= i < q.len() ==> free_of(#[trigger] q[i].0, '=') && free_of(q[i].1, '='),
    ensures
        query_entries(q.map_values(|e: (Seq<char>, Seq<char>)| e.0 + "="@ + e.1)) == q,
    decreases q.len(),
{
    let items = q.map_values(|e: (Seq<char>, Seq<char>)| e.0 + "="@ + e.1);
    if q.len() > 0 {
        let r = q.drop_last();
        assert forall|i: int| 0 <= i < r.len() implies free_of(#[trigger] r[i].0, '=') && free_of(r[i].1, '=') by {
            assert(r[i] == q[i]);
        }
        lemma_entries_of_items(r);
        assert(items.drop_last() =~= r.map_values(|e: (Seq<char>, Seq<char>)| e.0 + "="@ + e.1));
        assert(free_of(q[q.len() - 1].0, '='));
        lemma_item_pair(q.last().0, q.last().1);
        assert(query_entries(items) =~= q);
    } else {
        assert(items =~= Seq::<Seq<char>>::empty());
        assert(query_entries(items) =~= q);
    }
}

/// Query parameters appended to a path read back as the same parameters,
/// and the path stays the path: when the path has no `?` and no name or
/// value holds `?`, `&` or `=`.
pub proof fn law_query_round_trip(path: Seq<char>, q: Seq<(String, String)>)
    requires
        free_of(path, '?'),
        forall|i: int| 0 <= i < q.len() ==> {
            &&& free_of(#[trigger] q[i].0@, '?') && free_of(q[i].0@, '&') && free_of(q[i].0@, '=')
            &&& free_of(q[i].1@, '?') && free_of(q[i].1@, '&') && free_of(q[i].1@, '=')
        },
    ensures
        uri_path(uri_with_query(path, pairs_of(q))) == path,
        query_map(uri_with_query(path, pairs_of(q))) == header_map(q),
{
    let pq = pairs_of(q);
    reveal_strlit("?");
    reveal_strlit("=");
    reveal_strlit("&");
    lemma_split_without(path, '?');
    if q.len() == 0 {
        assert(pq.len() == 0);
        assert(query_part(path) is None);
        assert(header_map(q) =~= Map::empty());
    } else {
        let qs = query_string(pq);
        assert(!path.contains('?'));
        assert(uri_with_query(path, pq) == path + "?"@ + qs);
        assert("?"@ =~= seq!['?']);
        assert forall|i: int| 0 <= i < pq.len() implies free_of(#[trigger] pq[i].0, '&') && free_of(pq[i].1, '&') by {
            assert(pq[i] == (q[i].0@, q[i].1@));
        }
        lemma_query_pieces(pq);
        lemma_query_string_free(pq, '?');
        lemma_split_without(qs, '?');
        lemma_split_concat(path, qs, '?');
        assert(split(path + "?"@ + qs, '?') =~= seq![path, qs]);
        assert forall|i: int| 0 <= i < pq.len() implies free_of(#[trigger] pq[i].0, '=') && free_of(pq[i].1, '=') by {
            assert(pq[i] == (q[i].0@, q[i].1@));
        }
        lemma_entries_of_items(pq);
    }
}

/// A query string of items free of `c` (other than `&` and `=`) is free of `c`.
proof fn lemma_query_string_free(q: Seq<(Seq<char>, Seq<char>)>, c: char)
    requires
        c != '&',
        c != '=',
        forall|i: int| 0 <= i < q.len() ==> free_of(#[trigger] q[i].0, c) && free_of(q[i].1, c),
    ensures
        free_of(query_string(q), c),
    decreases q.len(),
{
    reveal_strlit("=");
    reveal_strlit("&");
    if q.len() > 0 {
        let r = q.drop_last();
        assert forall|i: int| 0 <= i < r.len() implies free_of(#[trigger] r[i].0, c) && free_of(r[i].1, c) by {
            assert(r[i] == q[i]);
        }
        lemma_query_string_free(r, c);
        let k = q.last().0;
        let v = q.last().1;
        assert(free_of(q[q.len() - 1].0, c));
        let item = k + "="@ + v;
        assert forall|i: int| 0 <= i < item.len() implies item[i] != c by {
            if i < k.len() {
            } else if i == k.len() {
            } else {
                assert(item[i] == v[i - k.len() - 1]);
            }
        }
        if q.len() > 1 {
            let whole = query_string(r) + "&"@ + item;
            assert forall|i: int| 0 <= i < whole.len() implies whole[i] != c by {
                let n = query_string(r).len();
                if i < n {
                    assert(whole[i] == query_string(r)[i]);
                } else if i == n {
                } else {
                    assert(whole[i] == item[i - n - 1]);
                }
            }
        }
    }
}

/// A response is at most one of: a success (2xx), a client error (4xx), a
/// server error (5xx).
pub proof fn law_status_classes_exclusive(status_code: u16)
    ensures
        !((200 <= status_code < 300) && (400 <= status_code < 500)),
        !((200 <= status_code < 300) && (500 <= status_code < 600)),
        !((400 <= status_code < 500) && (500 <= status_code < 600)),
{
}

/// The text with one trailing `/` removed, if it has one.
pub open spec fn without_trailing_slash(s: Seq<char>) -> Seq<char> {
    if s.len() > 0 && s.last() == '/' {
        s.drop_last()
    } else {
        s
    }
}

/// The text with one leading `/` removed, if it has one.
pub open spec fn without_leading_slash(s: Seq<char>) -> Seq<char> {
    if s.len() > 0 && s[0] == '/' {
        s.drop_first()
    } else {
        s
    }
}

/// A relative URL resolved against a base URL has exactly the one `/` of
/// the join between them: the base without its trailing `/`, a `/`, and the
/// URL without its leading `/`.
pub proof fn law_resolve_joins_with_one_slash(base: Seq<char>, url: Seq<char>)
    requires
        !has_prefix(url, "http://"@),
        !has_prefix(url, "https://"@),
    ensures
        resolved_url(Some(base), url) == without_trailing_slash(base) + "/"@ + without_leading_slash(url),
{
    reveal_strlit("/");
    let b_slash = base.len() > 0 && base.last() == '/';
    let u_slash = url.len() > 0 && url[0] == '/';
    if b_slash && !u_slash {
        assert(base =~= base.drop_last() + "/"@);
    } else if !b_slash && u_slash {
        assert(url =~= "/"@ + url.drop_first());
    } else if b_slash && u_slash {
        assert(url =~= "/"@ + url.drop_first());
    }
}

/// An absolute URL (`http://` or `https://`) is used as it is, whatever the
/// base URL.
pub proof fn law_absolute_url_stands(base: Option<Seq<char>>, url: Seq<char>)
    requires
        has_prefix(url, "http://"@) || has_prefix(url, "https://"@),
    ensures
        resolved_url(base, url) == url,
{
}

/// A route, once added, answers its method and path; and adding a route
/// never changes which route answers a request that an earlier one answered.
pub proof fn law_added_route_answers(keys: Seq<(Seq<char>, Seq<char>)>, key: (Seq<char>, Seq<char>), other: (Seq<char>, Seq<char>))
    ensures
        first_match(keys.push(key), key) is Some,
        first_match(keys, other) is Some ==> first_match(keys.push(key), other) == first_match(keys, other),
{
    assert(keys.push(key).drop_last() =~= keys);
}

/// The method of a request is matched without regard to case: requests whose
/// methods upper-case alike are dispatched alike.
pub proof fn law_dispatch_ignores_method_case(
    keys: Seq<(Seq<char>, Seq<char>)>,
    m1: Seq<char>,
    m2: Seq<char>,
    uri: Seq<char>,
    has_not_found_handler: bool,
)
    requires
        uppercase(m1) == uppercase(m2),
    ensures
        dispatch_decision(keys, m1, uri, has_not_found_handler) == dispatch_decision(keys, m2, uri, has_not_found_handler),
{
}

/// A request matching no route goes to the custom not-found handler when
/// there is one, and is answered 404 otherwise.
pub proof fn law_unmatched_request(keys: Seq<(Seq<char>, Seq<char>)>, method: Seq<char>, uri: Seq<char>)
    requires
        forall|i: int| 0 <= i < keys.len() ==> keys[i] != (uppercase(method), uri_path(uri)),
    ensures
        dispatch_decision(keys, method, uri, true) == Dispatch::NotFoundHandler,
        dispatch_decision(keys, method, uri, false) == Dispatch::NotFound,
{
    lemma_first_match(keys, (uppercase(method), uri_path(uri)));
}

/// A request waiting under a new identifier is answered once: taking it
/// finds it and leaves the waiting set as it was, and taking it again finds
/// nothing.
pub proof fn law_answer_taken_once(waiting: Set<Seq<char>>, id: Seq<char>)
    requires
        !waiting.contains(id),
    ensures
        waiting.insert(id).contains(id),
        waiting.insert(id).remove(id) == waiting,
        !waiting.insert(id).remove(id).contains(id),
{
    assert(waiting.insert(id).remove(id) =~= waiting);
}

/// Removing a client just added under a new name gives back the pool as it
/// was before.
pub proof fn law_pool_remove_undoes_add(
    before: Map<Seq<char>, Arc<HttpTcpClient>>,
    after_add: Map<Seq<char>, Arc<HttpTcpClient>>,
    name: Seq<char>,
)
    requires
        !before.contains_key(name),
        after_add.dom() == before.dom().insert(name),
        forall|k: Seq<char>| k != name && #[trigger] before.contains_key(k) ==> after_add[k] == before[k],
    ensures
        after_add.remove(name) == before,
{
    assert(after_add.remove(name) =~= before);
}

/// A counter file reads back the number written to it, so successive
/// increments of a file accumulate.
pub proof fn law_counter_file_reads_back(n1: i64)
    ensures
        file_counter(Some(encode_utf8(signed_decimal(n1 as int)))) == n1,
{
    let text = signed_decimal(n1 as int);
    encode_utf8_valid_utf8(text);
    encode_utf8_decode_utf8(text);
    lemma_parse_signed_decimal(n1);
    let e = encode_utf8(text);
    assert(text.len() > 0);
    if e.len() == 0 {
        assert(e =~= Seq::<u8>::empty());
        assert(decode_utf8(e) =~= Seq::<char>::empty());
    }
    assert(e.len() > 0);
}

} // verus!
