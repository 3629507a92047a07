//! The routing table: for each HTTP method, the path patterns registered under
//! it (`/users/:id`, `/files/*path`) and the handler each leads to. Handlers
//! are known here by number; matching a path against the patterns is the work
//! of the `route-recognizer` crate.

use vstd::prelude::*;
use crate::assoc::{keys_unique, assoc_view, assoc_get, assoc_insert, assoc_remove};
use crate::extract::pair_views;
use crate::text::push_char;

verus! {

#[verifier::external_type_specification]
#[verifier::external_body]
#[verifier::reject_recursive_types(T)]
pub struct ExPathRouter<T>(route_recognizer::Router<T>);

/// The routes added to a path router, in the order they were added: each
/// pattern with its handler.
pub uninterp spec fn routes_added(r: route_recognizer::Router<usize>) -> Seq<(Seq<char>, usize)>;

/// What `route_recognizer::Router::recognize` answers for a router to which
/// these routes were added in this order, and a path: the handler of the
/// matching route that the crate prefers, with the named parameters in name
/// order; or `None` when no route matches.
pub uninterp spec fn recognized(routes: Seq<(Seq<char>, usize)>, path: Seq<char>) -> Option<
    (usize, Seq<(Seq<char>, Seq<char>)>),
>;

/// No routes.
pub open spec fn no_routes() -> Seq<(Seq<char>, usize)> {
    Seq::empty()
}

/// Whether every character of the text is ASCII.
pub open spec fn is_ascii_text(s: Seq<char>) -> bool {
    forall|i: int| 0 <= i < s.len() ==> (#[trigger] s[i] as u32) < 128
}

/// `route_recognizer::Router::new`: a router without routes.
#[verifier::external_body]
fn path_router_new() -> (r: route_recognizer::Router<usize>)
    ensures
        routes_added(r) == no_routes(),
{
    route_recognizer::Router::new()
}

/// `route_recognizer::Router::add`: adds the route `route` leading to
/// `handler`. The crate cuts the pattern at byte offsets that it finds by
/// counting characters, which can split a non-ASCII character and panic; the
/// pattern is therefore ASCII.
#[verifier::external_body]
fn path_router_add(r: &mut route_recognizer::Router<usize>, route: &str, handler: usize)
    requires
        is_ascii_text(route@),
    ensures
        routes_added(*final(r)) == routes_added(*old(r)).push((route@, handler)),
{
    r.add(route, handler)
}

/// `route_recognizer::Router::recognize`: the handler of the route that
/// matches `path`, with the named parameters (in name order), if any matches.
#[verifier::external_body]
fn path_router_recognize(r: &route_recognizer::Router<usize>, path: &str) -> (res: Option<(usize, Vec<(String, String)>)>)
    ensures
        match res {
            Some(m) => recognized(routes_added(*r), path@) == Some((m.0, pair_views(m.1@))),
            None => recognized(routes_added(*r), path@) is None,
        },
{
    match r.recognize(path) {
        Ok(m) => Some((**m.handler(), m.params().iter().map(|(k, v)| (k.to_string(), v.to_string())).collect())),
        Err(_) => None,
    }
}

/// The routes registered under `method` in a table (none when the method has none).
pub open spec fn routes_of(table: Map<Seq<char>, Seq<(Seq<char>, usize)>>, method: Seq<char>) -> Seq<(Seq<char>, usize)> {
    if table.contains_key(method) {
        table[method]
    } else {
        no_routes()
    }
}

/// The answer of a table to a method and a path: what matching the path
/// against the routes of that method gives, and nothing when the method has
/// no routes.
pub open spec fn route_lookup(
    table: Map<Seq<char>, Seq<(Seq<char>, usize)>>,
    method: Seq<char>,
    path: Seq<char>,
) -> Option<(usize, Seq<(Seq<char>, Seq<char>)>)> {
    if table.contains_key(method) {
        recognized(table[method], path)
    } else {
        None
    }
}

/// The routing table of a server.
pub struct RouteTable {
    methods: Vec<(String, route_recognizer::Router<usize>)>,
}

impl View for RouteTable {
    type V = Map<Seq<char>, Seq<(Seq<char>, usize)>>;

    closed spec fn view(&self) -> Map<Seq<char>, Seq<(Seq<char>, usize)>> {
        assoc_view(self.methods@).map_values(|r: route_recognizer::Router<usize>| routes_added(r))
    }
}

impl RouteTable {
    #[verifier::type_invariant]
    closed spec fn wf(&self) -> bool {
        keys_unique(self.methods@)
    }

    /// A table without routes.
    pub fn new() -> (r: Self)
        ensures
            r@ == Map::<Seq<char>, Seq<(Seq<char>, usize)>>::empty(),
    {
        let r = RouteTable { methods: Vec::new() };
        assert(r@ =~= Map::<Seq<char>, Seq<(Seq<char>, usize)>>::empty());
        r
    }

    /// Registers the route `path` under `method` (as given), leading to
    /// `handler`; the other methods keep their routes. The pattern is ASCII.
    pub fn register_route(&mut self, method: String, path: String, handler: usize) -> (r: bool)
        requires
            is_ascii_text(path@),
        ensures
            r,
            final(self)@ == old(self)@.insert(method@, routes_of(old(self)@, method@).push((path@, handler))),
    {
        proof {
            use_type_invariant(&*self);
        }
        let ghost before = self@;
        let ghost m = method@;
        let mut map: Vec<(String, route_recognizer::Router<usize>)> = Vec::new();
        std::mem::swap(&mut map, &mut self.methods);
        let ghost old_map = map@;
        let existing = assoc_remove(&mut map, method.as_str());
        let mut router = match existing {
            Some(r) => r,
            None => path_router_new(),
        };
        assert(routes_added(router) == routes_of(before, m));
        path_router_add(&mut router, path.as_str(), handler);
        let ghost added = routes_added(router);
        let ghost removed_map = map@;
        assoc_insert(&mut map, method, router);
        self.methods = map;
        proof {
            assert(assoc_view(removed_map) == assoc_view(old_map).remove(m));
            assert(self@ =~= before.insert(m, added));
        }
        true
    }

    /// The handler and parameters of the route under `method` that matches
    /// `path`, if any.
    pub fn recognize(&self, method: &str, path: &str) -> (r: Option<(usize, Vec<(String, String)>)>)
        ensures
            match r {
                Some(m) => route_lookup(self@, method@, path@) == Some((m.0, pair_views(m.1@))),
                None => route_lookup(self@, method@, path@) is None,
            },
    {
        proof {
            use_type_invariant(self);
        }
        match assoc_get(&self.methods, method) {
            Some(router) => path_router_recognize(router, path),
            None => None,
        }
    }

    /// What serves a request with this method (as the client wrote it) and
    /// path: the matching route under the method in upper case, and the
    /// not-found handler when none matches.
    pub fn endpoint_for(&self, request_method: &str, path: &str) -> (r: Endpoint)
        ensures
            match route_lookup(self@, ascii_upper(request_method@), path@) {
                Some(m) => r matches Endpoint::Handler(h, p) && h == m.0 && pair_views(p@) == m.1,
                None => r is NotFound,
            },
    {
        let method = to_ascii_uppercase(request_method);
        match self.recognize(method.as_str(), path) {
            Some((h, p)) => Endpoint::Handler(h, p),
            None => Endpoint::NotFound,
        }
    }
}

/// What serves a request.
pub enum Endpoint {
    /// The handler with this number, given these path parameters.
    Handler(usize, Vec<(String, String)>),
    /// No route matches: the not-found handler.
    NotFound,
}

/// Upper case of one ASCII letter; other characters stay.
pub open spec fn ascii_upper_char(c: char) -> char {
    if 'a' <= c && c <= 'z' {
        ((c as u32) - 32) as char
    } else {
        c
    }
}

/// The text with its ASCII letters in upper case (an HTTP method is ASCII,
/// where this agrees with `str::to_uppercase`).
pub open spec fn ascii_upper(s: Seq<char>) -> Seq<char> {
    Seq::new(s.len(), |i: int| ascii_upper_char(s[i]))
}

fn upper_char(c: char) -> (r: char)
    ensures
        r == ascii_upper_char(c),
{
    if 'a' <= c && c <= 'z' {
        let u = c as u32 - 32;
        assert(0x41 <= u <= 0x5a);
        (u as u8) as char
    } else {
        c
    }
}

/// The text with its ASCII letters in upper case.
pub fn to_ascii_uppercase(s: &str) -> (r: String)
    ensures
        r@ == ascii_upper(s@),
{
    let n = s.unicode_len();
    let mut r = String::new();
    let mut i: usize = 0;
    while i < n
        invariant
            n == s@.len(),
            i <= n,
            r@ == ascii_upper(s@).subrange(0, i as int),
        decreases n - i,
    {
        let c = upper_char(s.get_char(i));
        push_char(&mut r, c);
        assert(r@ =~= ascii_upper(s@).subrange(0, i + 1));
        i = i + 1;
    }
    assert(ascii_upper(s@).subrange(0, n as int) =~= ascii_upper(s@));
    r
}

/// Registering a route under one method leaves the routes of every other
/// method as they were, and adds the route after those already under its
/// method.
pub proof fn law_registration_is_per_method(
    table: Map<Seq<char>, Seq<(Seq<char>, usize)>>,
    method: Seq<char>,
    path: Seq<char>,
    handler: usize,
    other: Seq<char>,
)
    requires
        other != method,
    ensures
        ({
            let after = table.insert(method, routes_of(table, method).push((path, handler)));
            &&& routes_of(after, other) == routes_of(table, other)
            &&& routes_of(after, method).last() == (path, handler)
            &&& routes_of(after, method).drop_last() == routes_of(table, method)
        }),
{
    let after = table.insert(method, routes_of(table, method).push((path, handler)));
    assert(routes_of(after, method).drop_last() =~= routes_of(table, method));
}

} // verus!
