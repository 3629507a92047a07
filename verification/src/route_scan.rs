//! Route discovery in controller files: the items of a controller file as
//! syn reads them, the functions of its inline modules, and the route
//! registrations that their `#[route("METHOD", "/path")]` attributes call for.

use vstd::prelude::*;
use crate::codegen::{register_route_line, register_route_line_spec, route_attribute};
use crate::text::{remove_all_spec, str_eq, views};
use proc_macro2::TokenStream;
use proc_macro2::TokenTree::{Group, Literal};
use syn::{parse_file, Attribute, Item};

verus! {

/// An attribute of a function: the idents of its path, and the text of the
/// tokens that follow the path.
pub struct AttrDecl {
    pub path: Vec<String>,
    pub tokens: String,
}

/// A function declared in an inline module of a controller file: the
/// module's name, the function's name and its attributes, in order.
pub struct RouteCandidate {
    pub module: String,
    pub function: String,
    pub attributes: Vec<AttrDecl>,
}

/// The abstract content of an attribute.
pub ghost struct AttrModel {
    pub path: Seq<Seq<char>>,
    pub tokens: Seq<char>,
}

/// The abstract content of a route candidate.
pub ghost struct CandidateModel {
    pub module: Seq<char>,
    pub function: Seq<char>,
    pub attributes: Seq<AttrModel>,
}

/// The text of an optional token.
pub open spec fn opt_text(x: Option<String>) -> Option<Seq<char>> {
    match x {
        Some(s) => Some(s@),
        None => None,
    }
}

/// The texts of the tokens of a group.
pub open spec fn group_model(g: Seq<Option<String>>) -> Seq<Option<Seq<char>>> {
    g.map_values(|x: Option<String>| opt_text(x))
}

/// The abstract content of a token tree.
pub open spec fn token_model(t: Option<Vec<Option<String>>>) -> Option<Seq<Option<Seq<char>>>> {
    match t {
        Some(g) => Some(group_model(g@)),
        None => None,
    }
}

pub open spec fn token_models(ts: Seq<Option<Vec<Option<String>>>>) -> Seq<Option<Seq<Option<Seq<char>>>>> {
    ts.map_values(|t: Option<Vec<Option<String>>>| token_model(t))
}

impl View for AttrDecl {
    type V = AttrModel;

    open spec fn view(&self) -> AttrModel {
        AttrModel { path: views(self.path@), tokens: self.tokens@ }
    }
}

pub open spec fn attr_models(attrs: Seq<AttrDecl>) -> Seq<AttrModel> {
    attrs.map_values(|a: AttrDecl| a@)
}

impl View for RouteCandidate {
    type V = CandidateModel;

    open spec fn view(&self) -> CandidateModel {
        CandidateModel { module: self.module@, function: self.function@, attributes: attr_models(self.attributes@) }
    }
}

pub open spec fn candidate_models(cs: Seq<RouteCandidate>) -> Seq<CandidateModel> {
    cs.map_values(|c: RouteCandidate| c@)
}

/// An item of an inline module: a function with its name and attributes, or
/// any other item.
pub enum ModItem {
    Fn(String, Vec<AttrDecl>),
    Other,
}

/// A top-level item of a file: a module with its name and, for an inline
/// module (`mod m { .. }`), its items; or any other item.
pub enum TopItem {
    Mod(String, Option<Vec<ModItem>>),
    Other,
}

/// The abstract content of a module item.
pub ghost enum ModItemModel {
    Fn(Seq<char>, Seq<AttrModel>),
    Other,
}

/// The abstract content of a top-level item.
pub ghost enum TopItemModel {
    Mod(Seq<char>, Option<Seq<ModItemModel>>),
    Other,
}

pub open spec fn mod_item_model(i: ModItem) -> ModItemModel {
    match i {
        ModItem::Fn(name, attrs) => ModItemModel::Fn(name@, attr_models(attrs@)),
        ModItem::Other => ModItemModel::Other,
    }
}

pub open spec fn mod_item_models(s: Seq<ModItem>) -> Seq<ModItemModel> {
    s.map_values(|i: ModItem| mod_item_model(i))
}

pub open spec fn top_item_model(t: TopItem) -> TopItemModel {
    match t {
        TopItem::Mod(name, content) => TopItemModel::Mod(name@, match content {
            Some(v) => Some(mod_item_models(v@)),
            None => None,
        }),
        TopItem::Other => TopItemModel::Other,
    }
}

pub open spec fn top_item_models(s: Seq<TopItem>) -> Seq<TopItemModel> {
    s.map_values(|t: TopItem| top_item_model(t))
}

/// What syn makes of a file's source: `None` when `syn::parse_file` refuses
/// it, and otherwise its top-level items, in order.
pub uninterp spec fn controller_items(source: Seq<char>) -> Option<Seq<TopItemModel>>;

/// `syn::parse_file`, each top-level item given as a module (its ident and,
/// when inline, its items) or another item, each item of a module as a
/// function (its ident and, for each attribute, the idents of its path and
/// the text of its tokens) or another item. The result is a function of the
/// source alone, named `controller_items`.
#[verifier::external_body]
fn parse_controller(source: &str) -> (r: Option<Vec<TopItem>>)
    ensures
        controller_items(source@) == (match r {
            Some(v) => Some(top_item_models(v@)),
            None => None,
        }),
{
    let attr = |a: Attribute| AttrDecl { path: a.path.segments.iter().map(|s| s.ident.to_string()).collect(), tokens: a.tokens.to_string() };
    let inner = |i| match i { Item::Fn(f) => ModItem::Fn(f.sig.ident.to_string(), f.attrs.into_iter().map(&attr).collect()), _ => ModItem::Other };
    let top = |i| match i { Item::Mod(m) => TopItem::Mod(m.ident.to_string(), m.content.map(|c| c.1.into_iter().map(&inner).collect())), _ => TopItem::Other };
    Some(parse_file(source).ok()?.items.into_iter().map(top).collect())
}

/// The functions of a module, as route candidates, in order.
pub open spec fn module_candidates(module: Seq<char>, items: Seq<ModItemModel>) -> Seq<CandidateModel>
    decreases items.len(),
{
    if items.len() == 0 {
        Seq::empty()
    } else {
        let rest = module_candidates(module, items.drop_last());
        match items.last() {
            ModItemModel::Fn(f, attrs) => rest.push(CandidateModel { module, function: f, attributes: attrs }),
            ModItemModel::Other => rest,
        }
    }
}

/// The route candidates of a file: the functions of its top-level inline
/// modules, in order.
pub open spec fn file_candidates(items: Seq<TopItemModel>) -> Seq<CandidateModel>
    decreases items.len(),
{
    if items.len() == 0 {
        Seq::empty()
    } else {
        let rest = file_candidates(items.drop_last());
        match items.last() {
            TopItemModel::Mod(m, Some(content)) => rest + module_candidates(m, content),
            _ => rest,
        }
    }
}

/// Appends the functions of module `module` to `out`.
fn push_module_candidates(module: &String, items: Vec<ModItem>, out: &mut Vec<RouteCandidate>)
    ensures
        candidate_models(final(out)@) == candidate_models(old(out)@) + module_candidates(module@, mod_item_models(items@)),
{
    let ghost all = mod_item_models(items@);
    let ghost start = candidate_models(out@);
    let mut rest = items;
    let ghost mut k: int = 0;
    assert(all.take(0) =~= Seq::<ModItemModel>::empty());
    assert(start + module_candidates(module@, all.take(0)) =~= start);
    while rest.len() > 0
        invariant
            0 <= k <= all.len(),
            mod_item_models(rest@) == all.skip(k),
            candidate_models(out@) == start + module_candidates(module@, all.take(k)),
        decreases rest@.len(),
    {
        let ghost before = rest@;
        let it = rest.remove(0);
        proof {
            assert(mod_item_models(before).len() == before.len());
            assert(all.skip(k).len() == all.len() - k);
            assert(before.len() == all.len() - k);
            assert(it == before[0]);
            assert(mod_item_models(before)[0] == mod_item_model(before[0]));
            assert(all.skip(k)[0] == all[k]);
            assert(rest@ =~= before.subrange(1, before.len() as int));
            assert forall|j: int| 0 <= j < rest@.len() implies #[trigger] mod_item_models(rest@)[j] == all.skip(k + 1)[j] by {
                assert(rest@[j] == before[j + 1]);
                assert(mod_item_models(before)[j + 1] == all.skip(k)[j + 1]);
            }
            assert(mod_item_models(rest@) =~= all.skip(k + 1));
        }
        let ghost next = all.take(k + 1);
        assert(next.drop_last() =~= all.take(k));
        assert(next.last() == all[k]);
        match it {
            ModItem::Fn(name, attrs) => {
                let c = RouteCandidate { module: module.clone(), function: name, attributes: attrs };
                let ghost old_out = out@;
                out.push(c);
                assert(candidate_models(out@) =~= candidate_models(old_out).push(c@));
            },
            ModItem::Other => {},
        }
        proof {
            k = k + 1;
        }
    }
    assert(all.take(k) =~= all);
}

/// The route candidates of a file's top-level items.
fn file_candidates_of(items: Vec<TopItem>) -> (r: Vec<RouteCandidate>)
    ensures
        candidate_models(r@) == file_candidates(top_item_models(items@)),
{
    let ghost all = top_item_models(items@);
    let mut out: Vec<RouteCandidate> = Vec::new();
    let mut rest = items;
    let ghost mut k: int = 0;
    assert(candidate_models(out@) =~= Seq::<CandidateModel>::empty());
    while rest.len() > 0
        invariant
            0 <= k <= all.len(),
            top_item_models(rest@) == all.skip(k),
            candidate_models(out@) == file_candidates(all.take(k)),
        decreases rest@.len(),
    {
        let ghost before = rest@;
        let it = rest.remove(0);
        proof {
            assert(top_item_models(before).len() == before.len());
            assert(all.skip(k).len() == all.len() - k);
            assert(before.len() == all.len() - k);
            assert(it == before[0]);
            assert(top_item_models(before)[0] == top_item_model(before[0]));
            assert(all.skip(k)[0] == all[k]);
            assert(rest@ =~= before.subrange(1, before.len() as int));
            assert forall|j: int| 0 <= j < rest@.len() implies #[trigger] top_item_models(rest@)[j] == all.skip(k + 1)[j] by {
                assert(rest@[j] == before[j + 1]);
                assert(top_item_models(before)[j + 1] == all.skip(k)[j + 1]);
            }
            assert(top_item_models(rest@) =~= all.skip(k + 1));
        }
        let ghost next = all.take(k + 1);
        assert(next.drop_last() =~= all.take(k));
        assert(next.last() == all[k]);
        match it {
            TopItem::Mod(name, Some(content)) => {
                push_module_candidates(&name, content, &mut out);
            },
            _ => {},
        }
        proof {
            k = k + 1;
        }
    }
    assert(all.take(k) =~= all);
    out
}

/// What proc_macro2 reads from a token text: `None` when it does not lex,
/// and otherwise its token trees, a bracketed group given by its own token
/// trees (each a literal as written, or `None` for any other token) and any
/// other token tree by `None`.
pub uninterp spec fn token_trees(text: Seq<char>) -> Option<Seq<Option<Seq<Option<Seq<char>>>>>>;

/// `str::parse::<proc_macro2::TokenStream>`, each token tree kept as a group
/// of literals or none. The result is a function of the text alone, named
/// `token_trees`.
#[verifier::external_body]
fn lex_tokens(text: &str) -> (r: Option<Vec<Option<Vec<Option<String>>>>>)
    ensures
        token_trees(text@) == (match r {
            Some(v) => Some(token_models(v@)),
            None => None,
        }),
{
    let lit = |t| match t { Literal(l) => Some(l.to_string()), _ => None };
    let tree = |t| match t { Group(g) => Some(g.stream().into_iter().map(lit).collect()), _ => None };
    Some(text.parse::<TokenStream>().ok()?.into_iter().map(tree).collect())
}

/// The literals of a group, in order.
pub open spec fn literals_of(g: Seq<Option<Seq<char>>>) -> Seq<Seq<char>>
    decreases g.len(),
{
    if g.len() == 0 {
        Seq::empty()
    } else {
        let rest = literals_of(g.drop_last());
        match g.last() {
            Some(x) => rest.push(x),
            None => rest,
        }
    }
}

/// Whether every group among the token trees holds exactly two literals, as
/// `#[route("METHOD", "/path")]` has them.
pub open spec fn groups_ok(ts: Seq<Option<Seq<Option<Seq<char>>>>>) -> bool {
    forall|i: int| 0 <= i < ts.len() && (#[trigger] ts[i]) is Some ==> literals_of(ts[i]->0).len() == 2
}

/// Whether an attribute is a route attribute: a segment of its path is `route`.
pub open spec fn is_route_attr(a: AttrModel) -> bool {
    a.path.contains("route"@)
}

/// Whether a route attribute's tokens lex and every group among them holds
/// two literals.
pub open spec fn route_tokens_ok(text: Seq<char>) -> bool {
    token_trees(text) matches Some(ts) && groups_ok(ts)
}

/// The method and path that the last group among the token trees gives (its
/// two literals without their quotes), or `prev` when there is no group.
pub open spec fn tokens_route(ts: Seq<Option<Seq<Option<Seq<char>>>>>, prev: (Seq<char>, Seq<char>)) -> (Seq<char>, Seq<char>)
    decreases ts.len(),
{
    if ts.len() == 0 {
        prev
    } else {
        match ts.last() {
            Some(g) => (remove_all_spec(literals_of(g)[0], "\""@), remove_all_spec(literals_of(g)[1], "\""@)),
            None => tokens_route(ts.drop_last(), prev),
        }
    }
}

/// The method and path of a function: those of its last route attribute
/// that has a group, and empty when there is none.
pub open spec fn attrs_route(attrs: Seq<AttrModel>) -> (Seq<char>, Seq<char>)
    decreases attrs.len(),
{
    if attrs.len() == 0 {
        (Seq::empty(), Seq::empty())
    } else {
        let prev = attrs_route(attrs.drop_last());
        if is_route_attr(attrs.last()) {
            tokens_route(token_trees(attrs.last().tokens)->0, prev)
        } else {
            prev
        }
    }
}

/// Whether every route attribute among the attributes is well formed.
pub open spec fn attrs_ok(attrs: Seq<AttrModel>) -> bool {
    forall|i: int| 0 <= i < attrs.len() && is_route_attr(#[trigger] attrs[i]) ==> route_tokens_ok(attrs[i].tokens)
}

/// Whether every route attribute of the function is well formed.
pub open spec fn candidate_ok(c: CandidateModel) -> bool {
    attrs_ok(c.attributes)
}

pub open spec fn candidates_ok(cs: Seq<CandidateModel>) -> bool {
    forall|i: int| 0 <= i < cs.len() ==> candidate_ok(#[trigger] cs[i])
}

/// Whether some attribute is a route attribute.
pub open spec fn has_route_attr(attrs: Seq<AttrModel>) -> bool {
    exists|i: int| 0 <= i < attrs.len() && is_route_attr(#[trigger] attrs[i])
}

/// The registrations of the functions of controller file `file`: one line for
/// each function that carries a route attribute, in order, with its method
/// and path and the proxy of `file::module::function`.
pub open spec fn registrations_spec(file: Seq<char>, cs: Seq<CandidateModel>) -> Seq<char>
    decreases cs.len(),
{
    if cs.len() == 0 {
        Seq::empty()
    } else {
        let rest = registrations_spec(file, cs.drop_last());
        let c = cs.last();
        if !has_route_attr(c.attributes) {
            rest
        } else {
            let route = attrs_route(c.attributes);
            rest + register_route_line_spec(route.0, route.1, file, c.module, c.function)
        }
    }
}

/// The literals of a group, in order.
fn group_literals(g: &Vec<Option<String>>) -> (r: Vec<String>)
    ensures
        views(r@) == literals_of(group_model(g@)),
{
    let mut r: Vec<String> = Vec::new();
    let mut i: usize = 0;
    while i < g.len()
        invariant
            i <= g@.len(),
            views(r@) == literals_of(group_model(g@).take(i as int)),
        decreases g@.len() - i,
    {
        let ghost next = group_model(g@).take(i + 1);
        assert(next.drop_last() =~= group_model(g@).take(i as int));
        assert(next.last() == opt_text(g@[i as int]));
        match &g[i] {
            Some(l) => {
                let ghost old_r = r@;
                r.push(l.clone());
                assert(views(r@) =~= views(old_r).push(l@));
            },
            None => {},
        }
        i = i + 1;
    }
    assert(group_model(g@).take(i as int) =~= group_model(g@));
    r
}

/// Whether every group among the token trees holds exactly two literals.
fn check_groups(ts: &Vec<Option<Vec<Option<String>>>>) -> (r: bool)
    ensures
        r == groups_ok(token_models(ts@)),
{
    let ghost m = token_models(ts@);
    let mut i: usize = 0;
    while i < ts.len()
        invariant
            m == token_models(ts@),
            i <= ts@.len(),
            forall|j: int| 0 <= j < i && (#[trigger] m[j]) is Some ==> literals_of(m[j]->0).len() == 2,
        decreases ts@.len() - i,
    {
        match &ts[i] {
            Some(g) => {
                let l = group_literals(g);
                assert(m[i as int] == Some(group_model(g@)));
                if l.len() != 2 {
                    assert(m[i as int] is Some);
                    return false;
                }
            },
            None => {},
        }
        i = i + 1;
    }
    true
}

/// The method and path the token trees give a route attribute, or `prev`.
fn tokens_route_of(ts: &Vec<Option<Vec<Option<String>>>>, prev: (String, String)) -> (r: (String, String))
    requires
        groups_ok(token_models(ts@)),
    ensures
        (r.0@, r.1@) == tokens_route(token_models(ts@), (prev.0@, prev.1@)),
{
    let ghost m = token_models(ts@);
    let mut r = prev;
    let mut i: usize = 0;
    while i < ts.len()
        invariant
            m == token_models(ts@),
            groups_ok(m),
            i <= ts@.len(),
            (r.0@, r.1@) == tokens_route(m.take(i as int), (prev.0@, prev.1@)),
        decreases ts@.len() - i,
    {
        let ghost next = m.take(i + 1);
        assert(next.drop_last() =~= m.take(i as int));
        assert(next.last() == m[i as int]);
        match &ts[i] {
            Some(g) => {
                let l = group_literals(g);
                assert(m[i as int] is Some);
                r = route_attribute(&l);
            },
            None => {},
        }
        i = i + 1;
    }
    assert(m.take(i as int) =~= m);
    r
}

/// Whether a path names a route attribute.
fn has_route_segment(path: &Vec<String>) -> (r: bool)
    ensures
        r == views(path@).contains("route"@),
{
    let mut i: usize = 0;
    while i < path.len()
        invariant
            i <= path@.len(),
            forall|j: int| 0 <= j < i ==> (#[trigger] views(path@)[j]) != "route"@,
        decreases path@.len() - i,
    {
        if str_eq(path[i].as_str(), "route") {
            assert(views(path@)[i as int] == "route"@);
            return true;
        }
        i = i + 1;
    }
    proof {
        if views(path@).contains("route"@) {
            let j = choose|j: int| 0 <= j < views(path@).len() && views(path@)[j] == "route"@;
            assert(views(path@)[j] != "route"@);
        }
    }
    false
}

/// Whether a route attribute's tokens lex with groups of two literals.
fn check_route_tokens(text: &String) -> (r: bool)
    ensures
        r == route_tokens_ok(text@),
{
    match lex_tokens(text.as_str()) {
        Some(ts) => check_groups(&ts),
        None => false,
    }
}

/// The method and path that a function's attributes give it.
fn attrs_route_of(attrs: &Vec<AttrDecl>) -> (r: (String, String))
    requires
        attrs_ok(attr_models(attrs@)),
    ensures
        (r.0@, r.1@) == attrs_route(attr_models(attrs@)),
{
    let ghost m = attr_models(attrs@);
    let mut r = (String::new(), String::new());
    let mut i: usize = 0;
    while i < attrs.len()
        invariant
            m == attr_models(attrs@),
            attrs_ok(m),
            i <= attrs@.len(),
            (r.0@, r.1@) == attrs_route(m.take(i as int)),
        decreases attrs@.len() - i,
    {
        let ghost next = m.take(i + 1);
        assert(next.drop_last() =~= m.take(i as int));
        assert(next.last() == attrs@[i as int]@);
        if has_route_segment(&attrs[i].path) {
            assert(is_route_attr(m[i as int]));
            assert(route_tokens_ok(m[i as int].tokens));
            match lex_tokens(attrs[i].tokens.as_str()) {
                Some(ts) => {
                    r = tokens_route_of(&ts, r);
                },
                None => {},
            }
        }
        i = i + 1;
    }
    assert(m.take(i as int) =~= m);
    r
}

/// Whether some attribute is a route attribute.
fn any_route_attr(attrs: &Vec<AttrDecl>) -> (r: bool)
    ensures
        r == has_route_attr(attr_models(attrs@)),
{
    let ghost m = attr_models(attrs@);
    let mut i: usize = 0;
    while i < attrs.len()
        invariant
            m == attr_models(attrs@),
            i <= attrs@.len(),
            forall|j: int| 0 <= j < i ==> !is_route_attr(#[trigger] m[j]),
        decreases attrs@.len() - i,
    {
        assert(m[i as int] == attrs@[i as int]@);
        if has_route_segment(&attrs[i].path) {
            assert(is_route_attr(m[i as int]));
            return true;
        }
        i = i + 1;
    }
    false
}

/// Whether every route attribute of the function is well formed.
fn check_candidate(c: &RouteCandidate) -> (r: bool)
    ensures
        r == candidate_ok(c@),
{
    let ghost m = attr_models(c.attributes@);
    let mut i: usize = 0;
    while i < c.attributes.len()
        invariant
            m == attr_models(c.attributes@),
            m == c@.attributes,
            i <= c.attributes@.len(),
            forall|j: int| 0 <= j < i && is_route_attr(#[trigger] m[j]) ==> route_tokens_ok(m[j].tokens),
        decreases c.attributes@.len() - i,
    {
        assert(m[i as int] == c.attributes@[i as int]@);
        if has_route_segment(&c.attributes[i].path) && !check_route_tokens(&c.attributes[i].tokens) {
            assert(is_route_attr(m[i as int]));
            return false;
        }
        i = i + 1;
    }
    true
}

/// Whether the route attributes of all the functions are of the form
/// `#[route("METHOD", "/path")]`: their tokens lex, and every group among
/// them holds two literals.
pub fn routes_well_formed(items: &Vec<RouteCandidate>) -> (r: bool)
    ensures
        r == candidates_ok(candidate_models(items@)),
{
    let ghost m = candidate_models(items@);
    let mut i: usize = 0;
    while i < items.len()
        invariant
            m == candidate_models(items@),
            i <= items@.len(),
            forall|j: int| 0 <= j < i ==> candidate_ok(#[trigger] m[j]),
        decreases items@.len() - i,
    {
        assert(m[i as int] == items@[i as int]@);
        if !check_candidate(&items[i]) {
            return false;
        }
        i = i + 1;
    }
    true
}

/// The registrations of the functions of controller file `file`: one line for
/// each function that carries a route attribute, with the method and path of
/// its last route attribute that has them (empty when none has) and the
/// proxy of `file::module::function`.
pub fn route_registrations(file: &str, items: &Vec<RouteCandidate>) -> (r: String)
    requires
        candidates_ok(candidate_models(items@)),
    ensures
        r@ == registrations_spec(file@, candidate_models(items@)),
{
    let ghost m = candidate_models(items@);
    let mut r = String::new();
    let mut i: usize = 0;
    while i < items.len()
        invariant
            m == candidate_models(items@),
            candidates_ok(m),
            i <= items@.len(),
            r@ == registrations_spec(file@, m.take(i as int)),
        decreases items@.len() - i,
    {
        let ghost next = m.take(i + 1);
        assert(next.drop_last() =~= m.take(i as int));
        assert(next.last() == items@[i as int]@);
        let c = &items[i];
        assert(m[i as int] == items@[i as int]@);
        if any_route_attr(&c.attributes) {
            assert(candidate_ok(m[i as int]));
            let route = attrs_route_of(&c.attributes);
            let line = register_route_line(route.0.as_str(), route.1.as_str(), file, c.module.as_str(), c.function.as_str());
            r.append(line.as_str());
        }
        i = i + 1;
    }
    assert(m.take(i as int) =~= m);
    r
}

/// Why a controller file yields no registrations.
#[derive(Debug)]
pub enum ScanError {
    /// syn cannot parse the file.
    Unparsable,
    /// A route attribute is not of the form `#[route("METHOD", "/path")]`.
    BadRouteAttribute,
}

/// The route registrations of controller file `file` with source `source`:
/// those of the functions of its top-level inline modules that carry a
/// route attribute; an error when syn cannot parse it, or when a route
/// attribute is not of the form `#[route("METHOD", "/path")]`.
pub fn controller_registrations(file: &str, source: &str) -> (r: Result<String, ScanError>)
    ensures
        controller_items(source@) is None ==> r matches Err(ScanError::Unparsable),
        controller_items(source@) matches Some(items) ==> (if candidates_ok(file_candidates(items)) {
            r matches Ok(s) && s@ == registrations_spec(file@, file_candidates(items))
        } else {
            r matches Err(ScanError::BadRouteAttribute)
        }),
{
    match parse_controller(source) {
        None => Err(ScanError::Unparsable),
        Some(top) => {
            let items = file_candidates_of(top);
            if routes_well_formed(&items) {
                Ok(route_registrations(file, &items))
            } else {
                Err(ScanError::BadRouteAttribute)
            }
        },
    }
}

/// Registering the functions of two lists of candidates one after the other
/// gives the registrations of each list in turn: no function's registration
/// is lost or repeated, and their order is kept.
pub proof fn law_registrations_concatenate(file: Seq<char>, a: Seq<CandidateModel>, b: Seq<CandidateModel>)
    ensures
        registrations_spec(file, a + b) == registrations_spec(file, a) + registrations_spec(file, b),
    decreases b.len(),
{
    if b.len() == 0 {
        assert(a + b =~= a);
        assert(registrations_spec(file, a) + Seq::<char>::empty() =~= registrations_spec(file, a));
    } else {
        law_registrations_concatenate(file, a, b.drop_last());
        assert((a + b).drop_last() =~= a + b.drop_last());
        assert((a + b).last() == b.last());
        let ra = registrations_spec(file, a);
        let rb = registrations_spec(file, b.drop_last());
        if has_route_attr(b.last().attributes) {
            let route = attrs_route(b.last().attributes);
            let line = register_route_line_spec(route.0, route.1, file, b.last().module, b.last().function);
            assert((ra + rb) + line =~= ra + (rb + line));
        }
    }
}

/// A function gets exactly one registration line when it carries a route
/// attribute, with the method and path of its route attribute and its own
/// module and name, and none when it carries no route attribute.
pub proof fn law_registration_of_one_function(file: Seq<char>, c: CandidateModel)
    ensures
        has_route_attr(c.attributes) ==> registrations_spec(file, seq![c]) == register_route_line_spec(
            attrs_route(c.attributes).0, attrs_route(c.attributes).1, file, c.module, c.function),
        !has_route_attr(c.attributes) ==> registrations_spec(file, seq![c]) == Seq::<char>::empty(),
{
    let s = seq![c];
    assert(s.drop_last() =~= Seq::<CandidateModel>::empty());
    assert(s.last() == c);
    assert(registrations_spec(file, Seq::<CandidateModel>::empty()) == Seq::<char>::empty());
    if has_route_attr(c.attributes) {
        let route = attrs_route(c.attributes);
        assert(Seq::<char>::empty() + register_route_line_spec(route.0, route.1, file, c.module, c.function)
            =~= register_route_line_spec(route.0, route.1, file, c.module, c.function));
    }
}

} // verus!
