//! Route tables of the HTTP routers: which registered route answers a
//! request, matched on the upper-cased method and the path of the URI.

use crate::text::{ascii_text, ascii_uppercase, chars_eq, chars_of, to_uppercase, uppercase};
use crate::uri::{path_of, uri_path};
use vstd::prelude::*;

verus! {

/// The index of the first key equal to `key`, if any.
pub open spec fn first_match(keys: Seq<(Seq<char>, Seq<char>)>, key: (Seq<char>, Seq<char>)) -> Option<int>
    decreases keys.len(),
{
    if keys.len() == 0 {
        None
    } else {
        match first_match(keys.drop_last(), key) {
            Some(i) => Some(i),
            None => if keys.last() == key {
                Some(keys.len() - 1)
            } else {
                None
            },
        }
    }
}

pub proof fn lemma_first_match(keys: Seq<(Seq<char>, Seq<char>)>, key: (Seq<char>, Seq<char>))
    ensures
        match first_match(keys, key) {
            Some(i) => 0 <= i < keys.len() && keys[i] == key && forall|j: int| 0 <= j < i ==> keys[j] != key,
            None => forall|j: int| 0 <= j < keys.len() ==> keys[j] != key,
        },
    decreases keys.len(),
{
    if keys.len() > 0 {
        let t = keys.drop_last();
        lemma_first_match(t, key);
        assert forall|j: int| 0 <= j < t.len() implies t[j] == keys[j] by {}
    }
}

/// What a router does with a request with this method and URI: the first
/// route whose method is the upper-cased method and whose path is the path
/// of the URI; else the custom not-found handler if there is one; else 404.
pub open spec fn dispatch_decision(
    keys: Seq<(Seq<char>, Seq<char>)>,
    method: Seq<char>,
    uri: Seq<char>,
    has_not_found_handler: bool,
) -> Dispatch {
    match first_match(keys, (uppercase(method), uri_path(uri))) {
        Some(i) => Dispatch::Route(i as usize),
        None => if has_not_found_handler {
            Dispatch::NotFoundHandler
        } else {
            Dispatch::NotFound
        },
    }
}

/// What a router does with a request.
#[derive(Debug, Clone, Copy, PartialEq, Eq, Structural)]
pub enum Dispatch {
    /// Call the handler of the route at this index.
    Route(usize),
    /// No route matches: call the custom not-found handler.
    NotFoundHandler,
    /// No route matches and there is no custom handler: answer 404.
    NotFound,
}

/// The routes of a router: (METHOD, path) in the order they were added.
pub struct RouteTable {
    routes: Vec<(String, String)>,
}

impl RouteTable {
    /// The keys of the routes, in order.
    pub closed spec fn keys(&self) -> Seq<(Seq<char>, Seq<char>)> {
        self.routes@.map_values(|r: (String, String)| (r.0@, r.1@))
    }

    /// An empty table.
    pub fn new() -> (r: Self)
        ensures
            r.keys().len() == 0,
    {
        RouteTable { routes: Vec::new() }
    }

    /// Adds a route; its method is kept upper-cased.
    pub fn add(&mut self, method: &str, path: &str)
        ensures
            final(self).keys() == old(self).keys().push((uppercase(method@), path@)),
            ascii_text(method@) ==> uppercase(method@) == ascii_uppercase(method@),
    {
        let m = to_uppercase(method);
        self.routes.push((m, String::from_str(path)));
        assert(self.keys() =~= old(self).keys().push((uppercase(method@), path@)));
    }

    /// The number of routes.
    pub fn len(&self) -> (r: usize)
        ensures
            r == self.keys().len(),
    {
        self.routes.len()
    }

    /// The method and path of the route at index `i`.
    pub fn route_at(&self, i: usize) -> (r: (&String, &String))
        requires
            i < self.keys().len(),
        ensures
            (r.0@, r.1@) == self.keys()[i as int],
    {
        (&self.routes[i].0, &self.routes[i].1)
    }

    /// The first route for an upper-cased method and a path, if any.
    pub fn find(&self, method_upper: &str, path: &str) -> (r: Option<usize>)
        ensures
            match first_match(self.keys(), (method_upper@, path@)) {
                Some(i) => r == Some(i as usize),
                None => r is None,
            },
    {
        let mv = chars_of(method_upper);
        let pv = chars_of(path);
        let ghost key = (method_upper@, path@);
        proof {
            lemma_first_match(self.keys(), key);
        }
        let mut i: usize = 0;
        while i < self.routes.len()
            invariant
                0 <= i <= self.routes.len(),
                mv@ == method_upper@,
                pv@ == path@,
                key == (method_upper@, path@),
                forall|j: int| 0 <= j < i ==> self.keys()[j] != key,
                match first_match(self.keys(), key) {
                    Some(k) => 0 <= k < self.keys().len() && self.keys()[k] == key && forall|j: int| 0 <= j < k ==> self.keys()[j] != key,
                    None => forall|j: int| 0 <= j < self.keys().len() ==> self.keys()[j] != key,
                },
            decreases self.routes.len() - i,
        {
            let rm = chars_of(self.routes[i].0.as_str());
            let rp = chars_of(self.routes[i].1.as_str());
            assert(self.keys()[i as int] == (self.routes@[i as int].0@, self.routes@[i as int].1@));
            if chars_eq(rm.as_slice(), mv.as_slice()) && chars_eq(rp.as_slice(), pv.as_slice()) {
                return Some(i);
            }
            i = i + 1;
        }
        None
    }

    /// What to do with a request with this method and URI: the first route
    /// whose method is the upper-cased method and whose path is the path of
    /// the URI; else the custom not-found handler if there is one; else 404.
    pub fn dispatch(&self, method: &str, uri: &str, has_not_found_handler: bool) -> (r: Dispatch)
        ensures
            r == dispatch_decision(self.keys(), method@, uri@, has_not_found_handler),
            ascii_text(method@) ==> uppercase(method@) == ascii_uppercase(method@),
    {
        let m = to_uppercase(method);
        let p = path_of(uri);
        match self.find(m.as_str(), p) {
            Some(i) => Dispatch::Route(i),
            None => if has_not_found_handler {
                Dispatch::NotFoundHandler
            } else {
                Dispatch::NotFound
            },
        }
    }
}

} // verus!
