//! Name/value lists used as maps (headers, query parameters): a later pair
//! for a name takes the place of an earlier one.

use crate::text::{chars_eq, chars_of};
use vstd::prelude::*;

verus! {

/// The view of a name/value list.
pub open spec fn pairs_of(v: Seq<(String, String)>) -> Seq<(Seq<char>, Seq<char>)> {
    v.map_values(|p: (String, String)| (p.0@, p.1@))
}

/// The map a name/value list stands for: a later pair for a name wins.
pub open spec fn pairs_map(s: Seq<(Seq<char>, Seq<char>)>) -> Map<Seq<char>, Seq<char>>
    decreases s.len(),
{
    if s.len() == 0 {
        Map::empty()
    } else {
        pairs_map(s.drop_last()).insert(s.last().0, s.last().1)
    }
}

/// The map of a name/value list of strings.
pub open spec fn header_map(v: Seq<(String, String)>) -> Map<Seq<char>, Seq<char>> {
    pairs_map(pairs_of(v))
}

/// No name occurs twice in the list.
pub open spec fn distinct_names(v: Seq<(String, String)>) -> bool {
    forall|i: int, j: int| 0 <= i < j < v.len() ==> v[i].0@ != v[j].0@
}

/// The list without the pairs named `name`, the others in their order.
pub open spec fn without_name(s: Seq<(Seq<char>, Seq<char>)>, name: Seq<char>) -> Seq<(Seq<char>, Seq<char>)>
    decreases s.len(),
{
    if s.len() == 0 {
        s
    } else {
        let rest = without_name(s.drop_last(), name);
        if s.last().0 == name {
            rest
        } else {
            rest.push(s.last())
        }
    }
}

/// The list after setting `name` to `value`: earlier pairs of that name go,
/// and the new pair comes last.
pub open spec fn put_list(s: Seq<(Seq<char>, Seq<char>)>, name: Seq<char>, value: Seq<char>) -> Seq<(Seq<char>, Seq<char>)> {
    without_name(s, name).push((name, value))
}

/// The list after setting each pair of `items` in order.
pub open spec fn put_all_list(s: Seq<(Seq<char>, Seq<char>)>, items: Seq<(Seq<char>, Seq<char>)>) -> Seq<(Seq<char>, Seq<char>)>
    decreases items.len(),
{
    if items.len() == 0 {
        s
    } else {
        let before = put_all_list(s, items.drop_last());
        put_list(before, items.last().0, items.last().1)
    }
}

proof fn lemma_pairs_map_push(s: Seq<(Seq<char>, Seq<char>)>, p: (Seq<char>, Seq<char>))
    ensures
        pairs_map(s.push(p)) == pairs_map(s).insert(p.0, p.1),
{
    assert(s.push(p).drop_last() =~= s);
}

/// Sets `name` to `value`: the list afterwards stands for the map with that
/// entry set.
pub fn put_pair(v: &mut Vec<(String, String)>, name: String, value: String)
    ensures
        header_map(final(v)@) == header_map(old(v)@).insert(name@, value@),
        distinct_names(old(v)@) ==> distinct_names(final(v)@),
        pairs_of(final(v)@) == put_list(pairs_of(old(v)@), name@, value@),
{
    let nv = chars_of(name.as_str());
    let mut out: Vec<(String, String)> = Vec::new();
    let mut i: usize = 0;
    while i < v.len()
        invariant
            0 <= i <= v.len(),
            nv@ == name@,
            header_map(out@) == header_map(v@.take(i as int)).remove(name@),
            pairs_of(out@) == without_name(pairs_of(v@.take(i as int)), name@),
            forall|k: int| 0 <= k < out@.len() ==> out@[k].0@ != name@,
            distinct_names(v@) ==> distinct_names(out@),
            forall|k: int| #![trigger out@[k]] 0 <= k < out@.len() ==> exists|j: int| 0 <= j < i && #[trigger] v@[j].0@ == out@[k].0@,
        decreases v.len() - i,
    {
        let kv = chars_of(v[i].0.as_str());
        let ghost prev = v@.take(i as int);
        proof {
            assert(v@.take(i + 1) =~= prev.push(v@[i as int]));
            assert(pairs_of(prev.push(v@[i as int])) =~= pairs_of(prev).push((v@[i as int].0@, v@[i as int].1@)));
            lemma_pairs_map_push(pairs_of(prev), (v@[i as int].0@, v@[i as int].1@));
        }
        if !chars_eq(kv.as_slice(), nv.as_slice()) {
            let ghost before = out@;
            out.push((v[i].0.clone(), v[i].1.clone()));
            proof {
                assert(pairs_of(out@) =~= pairs_of(before).push((v@[i as int].0@, v@[i as int].1@)));
                assert(pairs_of(prev.push(v@[i as int])).drop_last() =~= pairs_of(prev));
                lemma_pairs_map_push(pairs_of(before), (v@[i as int].0@, v@[i as int].1@));
                assert(header_map(out@) =~= header_map(v@.take(i + 1)).remove(name@));
                assert forall|k: int| #![trigger out@[k]] 0 <= k < out@.len() implies exists|j: int| 0 <= j < i + 1 && #[trigger] v@[j].0@ == out@[k].0@ by {
                    if k == before.len() {
                        assert(v@[i as int].0@ == out@[k].0@);
                    } else {
                        assert(out@[k] == before[k]);
                    }
                }
                if distinct_names(v@) {
                    assert forall|a: int, b: int| 0 <= a < b < out@.len() implies out@[a].0@ != out@[b].0@ by {
                        if b == before.len() {
                            assert(out@[a] == before[a]);
                            let j = choose|j: int| 0 <= j < i && #[trigger] v@[j].0@ == before[a].0@;
                            assert(v@[j].0@ != v@[i as int].0@);
                        } else {
                            assert(out@[a] == before[a]);
                            assert(out@[b] == before[b]);
                        }
                    }
                }
            }
        } else {
            proof {
                assert(header_map(out@) =~= header_map(v@.take(i + 1)).remove(name@));
                assert(pairs_of(prev.push(v@[i as int])).drop_last() =~= pairs_of(prev));
            }
        }
        i = i + 1;
    }
    let ghost before = out@;
    out.push((name, value));
    proof {
        assert(v@.take(v@.len() as int) =~= v@);
        if distinct_names(v@) {
            assert forall|a: int, b: int| 0 <= a < b < out@.len() implies out@[a].0@ != out@[b].0@ by {
                assert(out@[a] == before[a]);
                if b < before.len() {
                    assert(out@[b] == before[b]);
                }
            }
        }
        assert(pairs_of(out@) =~= pairs_of(before).push((name@, value@)));
        assert(pairs_of(v@.take(v@.len() as int)) =~= pairs_of(v@));
        lemma_pairs_map_push(pairs_of(before), (name@, value@));
        assert(header_map(out@) =~= header_map(v@).insert(name@, value@)) by {
            assert(header_map(out@) =~= header_map(v@).remove(name@).insert(name@, value@));
        }
    }
    *v = out;
}

/// Sets every entry of `other` in order: the list afterwards stands for the
/// map with `other`'s entries taking the place of its own.
pub fn put_all(v: &mut Vec<(String, String)>, other: Vec<(String, String)>)
    ensures
        header_map(final(v)@) == header_map(old(v)@).union_prefer_right(header_map(other@)),
        distinct_names(old(v)@) ==> distinct_names(final(v)@),
        pairs_of(final(v)@) == put_all_list(pairs_of(old(v)@), pairs_of(other@)),
{
    let mut i: usize = 0;
    while i < other.len()
        invariant
            0 <= i <= other.len(),
            header_map(v@) == header_map(old(v)@).union_prefer_right(header_map(other@.take(i as int))),
            distinct_names(old(v)@) ==> distinct_names(v@),
            pairs_of(v@) == put_all_list(pairs_of(old(v)@), pairs_of(other@.take(i as int))),
        decreases other.len() - i,
    {
        let ghost prev = other@.take(i as int);
        put_pair(v, other[i].0.clone(), other[i].1.clone());
        proof {
            assert(other@.take(i + 1) =~= prev.push(other@[i as int]));
            assert(pairs_of(prev.push(other@[i as int])) =~= pairs_of(prev).push(
                (other@[i as int].0@, other@[i as int].1@),
            ));
            lemma_pairs_map_push(pairs_of(prev), (other@[i as int].0@, other@[i as int].1@));
            assert(header_map(v@) =~= header_map(old(v)@).union_prefer_right(header_map(other@.take(i + 1))));
            assert(pairs_of(prev.push(other@[i as int])).drop_last() =~= pairs_of(prev));
        }
        i = i + 1;
    }
    assert(other@.take(other@.len() as int) =~= other@);
    assert(pairs_of(other@.take(other@.len() as int)) =~= pairs_of(other@));
}

/// A copy of a name/value list.
pub fn clone_pairs(v: &Vec<(String, String)>) -> (r: Vec<(String, String)>)
    ensures
        r@ == v@,
{
    let mut r: Vec<(String, String)> = Vec::new();
    let mut i: usize = 0;
    while i < v.len()
        invariant
            0 <= i <= v.len(),
            r@ == v@.take(i as int),
        decreases v.len() - i,
    {
        r.push((v[i].0.clone(), v[i].1.clone()));
        assert(r@ =~= v@.take(i + 1));
        i = i + 1;
    }
    assert(v@.take(v@.len() as int) =~= v@);
    r
}

/// The value set for `name`, if any.
pub fn get_pair<'a>(v: &'a Vec<(String, String)>, name: &str) -> (r: Option<&'a String>)
    ensures
        r is Some <==> header_map(v@).contains_key(name@),
        r is Some ==> r->Some_0@ == header_map(v@)[name@],
{
    let nv = chars_of(name);
    let mut found: Option<usize> = None;
    let mut i: usize = 0;
    while i < v.len()
        invariant
            0 <= i <= v.len(),
            nv@ == name@,
            found is None <==> !header_map(v@.take(i as int)).contains_key(name@),
            found matches Some(j) ==> j < i && v@[j as int].1@ == header_map(v@.take(i as int))[name@],
        decreases v.len() - i,
    {
        let kv = chars_of(v[i].0.as_str());
        let ghost prev = v@.take(i as int);
        proof {
            assert(v@.take(i + 1) =~= prev.push(v@[i as int]));
            assert(pairs_of(prev.push(v@[i as int])) =~= pairs_of(prev).push((v@[i as int].0@, v@[i as int].1@)));
            lemma_pairs_map_push(pairs_of(prev), (v@[i as int].0@, v@[i as int].1@));
        }
        if chars_eq(kv.as_slice(), nv.as_slice()) {
            found = Some(i);
        }
        i = i + 1;
    }
    assert(v@.take(v@.len() as int) =~= v@);
    match found {
        Some(j) => Some(&v[j].1),
        None => None,
    }
}

} // verus!
