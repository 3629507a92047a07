//! Cookie jars over the `cookie` crate: the cookies a request brought, the
//! changes a response makes, and an encrypted ("private") view of them.

use vstd::prelude::*;
use crate::text::{chars_of, string_of};

verus! {

/// A cookie: its name and value.
pub struct Cookie {
    name: String,
    value: String,
}

impl View for Cookie {
    type V = (Seq<char>, Seq<char>);

    closed spec fn view(&self) -> (Seq<char>, Seq<char>) {
        (self.name@, self.value@)
    }
}

impl Cookie {
    pub fn new(name: String, value: String) -> (r: Self)
        ensures
            r@ == (name@, value@),
    {
        Cookie { name, value }
    }

    /// A copy of the cookie.
    pub fn copy(&self) -> (r: Cookie)
        ensures
            r@ == self@,
    {
        Cookie { name: self.name.clone(), value: self.value.clone() }
    }

    pub fn name(&self) -> (r: &String)
        ensures
            r@ == self@.0,
    {
        &self.name
    }

    pub fn value(&self) -> (r: &String)
        ensures
            r@ == self@.1,
    {
        &self.value
    }
}

/// The `cookie` crate's jar, held opaquely (its type bears the same name as
/// this module's `CookieJar`, so it is kept inside a type of its own).
#[verifier::external_body]
pub struct RawJar {
    inner: cookie::CookieJar,
}

/// The cookies a jar was given as originally present (by name, their values).
pub uninterp spec fn jar_original(jar: RawJar) -> Map<Seq<char>, Seq<char>>;

/// The changes recorded in a jar: by name, the new value, or `None` for a removal.
pub uninterp spec fn jar_delta(jar: RawJar) -> Map<Seq<char>, Option<Seq<char>>>;

/// The cookies a jar holds: the recorded change of a name when there is one
/// (a removal hides the name), otherwise the original cookie.
pub open spec fn jar_visible(jar: RawJar) -> Map<Seq<char>, Seq<char>> {
    visible_of(jar_original(jar), jar_delta(jar))
}

pub open spec fn visible_of(
    original: Map<Seq<char>, Seq<char>>,
    delta: Map<Seq<char>, Option<Seq<char>>>,
) -> Map<Seq<char>, Seq<char>> {
    Map::new(
        |k: Seq<char>|
            if delta.contains_key(k) {
                delta[k] is Some
            } else {
                original.contains_key(k)
            },
        |k: Seq<char>|
            if delta.contains_key(k) {
                delta[k]->0
            } else {
                original[k]
            },
    )
}

/// No cookies.
pub open spec fn no_cookies() -> Map<Seq<char>, Seq<char>> {
    Map::empty()
}

/// No recorded changes.
pub open spec fn no_changes() -> Map<Seq<char>, Option<Seq<char>>> {
    Map::empty()
}

/// `cookie::CookieJar::new()`: a jar with no cookies and no changes.
#[verifier::external_body]
fn jar_new() -> (r: RawJar)
    ensures
        jar_original(r) == no_cookies(),
        jar_delta(r) == no_changes(),
{
    RawJar { inner: cookie::CookieJar::new() }
}

/// `cookie::CookieJar::get`: the cookie of that name the jar holds.
#[verifier::external_body]
fn jar_get(jar: &RawJar, name: &str) -> (r: Option<Cookie>)
    ensures
        r matches Some(c) ==> jar_visible(*jar).contains_key(name@) && c@ == (name@, jar_visible(*jar)[name@]),
        r is None ==> !jar_visible(*jar).contains_key(name@),
{
    match jar.inner.get(name) {
        Some(c) => Some(Cookie { name: c.name().to_string(), value: c.value().to_string() }),
        None => None,
    }
}

/// `cookie::CookieJar::add_original`: records a cookie the request brought.
#[verifier::external_body]
fn jar_add_original(jar: &mut RawJar, c: Cookie)
    ensures
        jar_original(*final(jar)) == jar_original(*old(jar)).insert(c@.0, c@.1),
        jar_delta(*final(jar)) == jar_delta(*old(jar)),
{
    jar.inner.add_original(cookie::Cookie::new(c.name, c.value));
}

/// `cookie::CookieJar::add`: records a new or changed cookie.
#[verifier::external_body]
fn jar_add(jar: &mut RawJar, c: Cookie)
    ensures
        jar_original(*final(jar)) == jar_original(*old(jar)),
        jar_delta(*final(jar)) == jar_delta(*old(jar)).insert(c@.0, Some(c@.1)),
{
    jar.inner.add(cookie::Cookie::new(c.name, c.value));
}

/// The changes after removing the cookie `name`: a removal when the request
/// brought such a cookie, otherwise only the forgetting of a recorded change.
pub open spec fn delta_after_remove(
    original: Map<Seq<char>, Seq<char>>,
    delta: Map<Seq<char>, Option<Seq<char>>>,
    name: Seq<char>,
) -> Map<Seq<char>, Option<Seq<char>>> {
    if original.contains_key(name) {
        delta.insert(name, None)
    } else {
        delta.remove(name)
    }
}

/// `cookie::CookieJar::remove`: removes the cookie of that name.
#[verifier::external_body]
fn jar_remove(jar: &mut RawJar, c: Cookie)
    ensures
        jar_original(*final(jar)) == jar_original(*old(jar)),
        jar_delta(*final(jar)) == delta_after_remove(jar_original(*old(jar)), jar_delta(*old(jar)), c@.0),
{
    jar.inner.remove(cookie::Cookie::new(c.name, c.value));
}

/// Cookies with pairwise different names.
pub open spec fn names_unique(s: Seq<Cookie>) -> bool {
    forall|i: int, j: int| 0 <= i < j < s.len() ==> #[trigger] s[i]@.0 != #[trigger] s[j]@.0
}

/// The cookies of `s` are exactly the entries of `m`, each once.
pub open spec fn lists_map(s: Seq<Cookie>, m: Map<Seq<char>, Seq<char>>) -> bool {
    &&& names_unique(s)
    &&& forall|i: int| 0 <= i < s.len() ==> m.contains_key(#[trigger] s[i]@.0) && m[s[i]@.0] == s[i]@.1
    &&& forall|k: Seq<char>| #[trigger] m.contains_key(k) ==> exists|i: int| 0 <= i < s.len() && #[trigger] s[i]@.0 == k
}

/// `cookie::CookieJar::iter`: every cookie the jar holds, once, in the order of
/// the jar's hash sets (which this contract leaves open).
#[verifier::external_body]
fn jar_iter(jar: &RawJar) -> (r: Vec<Cookie>)
    ensures
        lists_map(r@, jar_visible(*jar)),
{
    jar.inner.iter().map(|c| Cookie { name: c.name().to_string(), value: c.value().to_string() }).collect()
}

/// What `cookie::Cookie::parse_encoded` makes of a text: the name and the
/// percent-decoded value, or `None` when the text is not a cookie.
pub uninterp spec fn parse_cookie_encoded(s: Seq<char>) -> Option<(Seq<char>, Seq<char>)>;

/// `cookie::Cookie::parse_encoded`: parses one `name=value` pair of a `Cookie` header.
#[verifier::external_body]
fn parse_encoded(s: &str) -> (r: Option<Cookie>)
    ensures
        r matches Some(c) ==> parse_cookie_encoded(s@) == Some(c@),
        r is None ==> parse_cookie_encoded(s@) is None,
{
    match cookie::Cookie::parse_encoded(s.to_string()) {
        Ok(c) => Some(Cookie { name: c.name().to_string(), value: c.value().to_string() }),
        Err(_) => None,
    }
}

/// The pieces of `s` between the separators `sep`, as `str::split` yields them
/// (empty pieces included).
pub open spec fn split_on(s: Seq<char>, sep: char) -> Seq<Seq<char>>
    decreases s.len(),
{
    if s.len() == 0 {
        seq![Seq::empty()]
    } else {
        let rest = split_on(s.drop_last(), sep);
        if s.last() == sep {
            rest.push(Seq::empty())
        } else {
            rest.update(rest.len() - 1, rest.last().push(s.last()))
        }
    }
}

proof fn lemma_split_on_nonempty(s: Seq<char>, sep: char)
    ensures
        split_on(s, sep).len() >= 1,
    decreases s.len(),
{
    if s.len() > 0 {
        lemma_split_on_nonempty(s.drop_last(), sep);
    }
}

/// Splits a `Cookie` header value at every `;`.
pub fn split_cookie_header(value: &str) -> (r: Vec<String>)
    ensures
        crate::text::views(r@) == split_on(value@, ';'),
{
    let cs = chars_of(value);
    let n = cs.len();
    let mut pieces: Vec<String> = Vec::new();
    let mut current: Vec<char> = Vec::new();
    let mut i: usize = 0;
    while i < n
        invariant
            n == cs@.len(),
            cs@ == value@,
            i <= n,
            crate::text::views(pieces@).push(current@) == split_on(value@.subrange(0, i as int), ';'),
        decreases n - i,
    {
        let ghost prefix = value@.subrange(0, i as int);
        let ghost next = value@.subrange(0, i + 1);
        assert(next.drop_last() =~= prefix);
        proof {
            lemma_split_on_nonempty(prefix, ';');
        }
        if cs[i] == ';' {
            let piece = string_of(&current);
            let ghost old_pieces = pieces@;
            pieces.push(piece);
            current = Vec::new();
            assert(crate::text::views(pieces@) =~= crate::text::views(old_pieces).push(piece@));
            assert(crate::text::views(pieces@).push(current@) =~= split_on(next, ';'));
        } else {
            current.push(cs[i]);
            assert(crate::text::views(pieces@).push(current@) =~= split_on(next, ';'));
        }
        i = i + 1;
    }
    let last = string_of(&current);
    let ghost old_pieces = pieces@;
    pieces.push(last);
    assert(crate::text::views(pieces@) =~= crate::text::views(old_pieces).push(last@));
    assert(value@.subrange(0, n as int) =~= value@);
    pieces
}

/// The cookies a request brought, by name: a later cookie replaces an earlier
/// one of the same name.
pub open spec fn cookies_map(s: Seq<Cookie>) -> Map<Seq<char>, Seq<char>>
    decreases s.len(),
{
    if s.len() == 0 {
        Map::empty()
    } else {
        cookies_map(s.drop_last()).insert(s.last()@.0, s.last()@.1)
    }
}

/// The cookies of a request.
pub struct CookieJar {
    jar: RawJar,
}

impl View for CookieJar {
    type V = Map<Seq<char>, Seq<char>>;

    closed spec fn view(&self) -> Map<Seq<char>, Seq<char>> {
        jar_visible(self.jar)
    }
}

impl CookieJar {
    /// A jar without cookies.
    pub fn default() -> (r: Self)
        ensures
            r@ == no_cookies(),
    {
        let r = CookieJar { jar: jar_new() };
        assert(r@ =~= no_cookies());
        r
    }

    /// The jar of the cookies a request brought (`FromRequest` for `CookieJar`).
    pub fn from_cookies(cookies: &Vec<Cookie>) -> (r: Self)
        ensures
            r@ == cookies_map(cookies@),
    {
        let mut jar = jar_new();
        let mut i: usize = 0;
        let n = cookies.len();
        assert(cookies@.subrange(0, 0) =~= Seq::<Cookie>::empty());
        assert(jar_visible(jar) =~= cookies_map(cookies@.subrange(0, 0)));
        while i < n
            invariant
                n == cookies@.len(),
                i <= n,
                jar_delta(jar) == no_changes(),
                jar_original(jar) == cookies_map(cookies@.subrange(0, i as int)),
            decreases n - i,
        {
            let c = cookies[i].copy();
            jar_add_original(&mut jar, c);
            assert(cookies@.subrange(0, i + 1).drop_last() =~= cookies@.subrange(0, i as int));
            i = i + 1;
        }
        assert(cookies@.subrange(0, n as int) =~= cookies@);
        let r = CookieJar { jar };
        assert(r@ =~= cookies_map(cookies@));
        r
    }

    /// The cookie called `name`, if the jar holds one.
    pub fn get(&self, name: &str) -> (r: Option<Cookie>)
        ensures
            r matches Some(c) ==> self@.contains_key(name@) && c@ == (name@, self@[name@]),
            r is None ==> !self@.contains_key(name@),
    {
        jar_get(&self.jar, name)
    }

    /// The jar without the cookie named like `cookie`.
    pub fn remove(self, cookie: Cookie) -> (r: Self)
        ensures
            r@ == self@.remove(cookie@.0),
    {
        let mut jar = self.jar;
        jar_remove(&mut jar, cookie);
        let r = CookieJar { jar };
        assert(r@ =~= self@.remove(cookie@.0));
        r
    }

    /// The jar with `cookie` added, replacing a cookie of the same name.
    pub fn add(self, cookie: Cookie) -> (r: Self)
        ensures
            r@ == self@.insert(cookie@.0, cookie@.1),
    {
        let mut jar = self.jar;
        let ghost c = cookie@;
        jar_add(&mut jar, cookie);
        let r = CookieJar { jar };
        assert(r@ =~= self@.insert(c.0, c.1));
        r
    }

    /// Every cookie of the jar, once.
    pub fn iter(&self) -> (r: Vec<Cookie>)
        ensures
            lists_map(r@, self@),
    {
        let all = jar_iter(&self.jar);
        let mut out: Vec<Cookie> = Vec::new();
        let mut i: usize = 0;
        while i < all.len()
            invariant
                i <= all@.len(),
                lists_map(all@, self@),
                out@.len() == i,
                forall|j: int| 0 <= j < i ==> #[trigger] out@[j]@ == all@[j]@,
            decreases all@.len() - i,
        {
            match self.get(all[i].name().as_str()) {
                Some(c) => {
                    out.push(c);
                },
                None => {
                    assert(false);
                },
            }
            i = i + 1;
        }
        assert forall|a: int, b: int| 0 <= a < b < out@.len() implies #[trigger] out@[a]@.0 != #[trigger] out@[b]@.0 by {
            assert(all@[a]@.0 != all@[b]@.0);
        }
        assert forall|k: Seq<char>| #[trigger] self@.contains_key(k) implies exists|j: int| 0 <= j < out@.len() && #[trigger] out@[j]@.0 == k by {
            let j = choose|j: int| 0 <= j < all@.len() && #[trigger] all@[j]@.0 == k;
            assert(out@[j]@.0 == k);
        }
        out
    }
}

/// What unsealing the stored value `sealed` of the cookie `name` under the key
/// `key` yields (`cookie::PrivateJar::unseal`: base64, AES-256-GCM with the
/// name as associated data, UTF-8): the plain value, or `None` when it fails.
pub uninterp spec fn unseal(key: Seq<u8>, name: Seq<char>, sealed: Seq<char>) -> Option<Seq<char>>;

/// The plain cookies of a jar under `key`: the cookies the jar holds whose
/// stored values unseal, with their plain values.
pub open spec fn private_view(visible: Map<Seq<char>, Seq<char>>, key: Seq<u8>) -> Map<Seq<char>, Seq<char>> {
    Map::new(
        |k: Seq<char>| visible.contains_key(k) && unseal(key, k, visible[k]) is Some,
        |k: Seq<char>| unseal(key, k, visible[k])->0,
    )
}

/// `cookie::PrivateJar::get` on a jar and the key `cookie::Key::from(key)`:
/// the cookie called `name`, with its value unsealed.
#[verifier::external_body]
fn private_get(jar: &RawJar, key: &Vec<u8>, name: &str) -> (r: Option<Cookie>)
    requires
        key@.len() >= 64,
    ensures
        r matches Some(c) ==> private_view(jar_visible(*jar), key@).contains_key(name@)
            && c@ == (name@, private_view(jar_visible(*jar), key@)[name@]),
        r is None ==> !private_view(jar_visible(*jar), key@).contains_key(name@),
{
    let k = cookie::Key::from(key.as_slice());
    match jar.inner.private(&k).get(name) {
        Some(c) => Some(Cookie { name: c.name().to_string(), value: c.value().to_string() }),
        None => None,
    }
}

/// `cookie::PrivateJar::decrypt`: the cookie with its value unsealed, if it unseals.
#[verifier::external_body]
fn private_decrypt(jar: &RawJar, key: &Vec<u8>, c: Cookie) -> (r: Option<Cookie>)
    requires
        key@.len() >= 64,
    ensures
        r matches Some(p) ==> unseal(key@, c@.0, c@.1) == Some(p@.1) && p@.0 == c@.0,
        r is None ==> unseal(key@, c@.0, c@.1) is None,
{
    let k = cookie::Key::from(key.as_slice());
    match jar.inner.private(&k).decrypt(cookie::Cookie::new(c.name, c.value)) {
        Some(p) => Some(Cookie { name: p.name().to_string(), value: p.value().to_string() }),
        None => None,
    }
}

/// `cookie::PrivateJar::add_original`: seals the value with a random nonce and
/// records the cookie as one the request brought. The sealed text is random;
/// it unseals to the value under the same key and name.
#[verifier::external_body]
fn private_add_original(jar: &mut RawJar, key: &Vec<u8>, c: Cookie)
    requires
        key@.len() >= 64,
    ensures
        jar_delta(*final(jar)) == jar_delta(*old(jar)),
        jar_original(*final(jar)).contains_key(c@.0),
        unseal(key@, c@.0, jar_original(*final(jar))[c@.0]) == Some(c@.1),
        jar_original(*final(jar)).remove(c@.0) == jar_original(*old(jar)).remove(c@.0),
{
    let k = cookie::Key::from(key.as_slice());
    jar.inner.private_mut(&k).add_original(cookie::Cookie::new(c.name, c.value));
}

/// `cookie::PrivateJar::add`: seals the value with a random nonce and records
/// the cookie as a change. The sealed text unseals to the value; it is the
/// base64 of the nonce (12 bytes), the encrypted value and the tag (16
/// bytes), so it is longer than the value.
#[verifier::external_body]
fn private_add(jar: &mut RawJar, key: &Vec<u8>, c: Cookie)
    requires
        key@.len() >= 64,
    ensures
        jar_original(*final(jar)) == jar_original(*old(jar)),
        jar_delta(*final(jar)).contains_key(c@.0),
        jar_delta(*final(jar))[c@.0] is Some,
        unseal(key@, c@.0, jar_delta(*final(jar))[c@.0]->0) == Some(c@.1),
        (jar_delta(*final(jar))[c@.0]->0).len() > c@.1.len(),
        jar_delta(*final(jar)).remove(c@.0) == jar_delta(*old(jar)).remove(c@.0),
{
    let k = cookie::Key::from(key.as_slice());
    jar.inner.private_mut(&k).add(cookie::Cookie::new(c.name, c.value));
}

/// `cookie::PrivateJar::remove`: removes the cookie of that name from the jar.
#[verifier::external_body]
fn private_remove(jar: &mut RawJar, key: &Vec<u8>, c: Cookie)
    requires
        key@.len() >= 64,
    ensures
        jar_original(*final(jar)) == jar_original(*old(jar)),
        jar_delta(*final(jar)) == delta_after_remove(jar_original(*old(jar)), jar_delta(*old(jar)), c@.0),
{
    let k = cookie::Key::from(key.as_slice());
    jar.inner.private_mut(&k).remove(cookie::Cookie::new(c.name, c.value));
}

proof fn lemma_private_view_original(
    o1: Map<Seq<char>, Seq<char>>,
    o2: Map<Seq<char>, Seq<char>>,
    key: Seq<u8>,
    k: Seq<char>,
    v: Seq<char>,
)
    requires
        o2.contains_key(k),
        unseal(key, k, o2[k]) == Some(v),
        o2.remove(k) == o1.remove(k),
    ensures
        private_view(visible_of(o2, no_changes()), key) == private_view(visible_of(o1, no_changes()), key).insert(k, v),
{
    assert forall|x: Seq<char>| x != k implies o2.contains_key(x) == o1.contains_key(x) && (o2.contains_key(x) ==> o2[x] == o1[x]) by {
        assert(o2.remove(k).contains_key(x) == o2.contains_key(x));
        assert(o1.remove(k).contains_key(x) == o1.contains_key(x));
        if o2.contains_key(x) {
            assert(o2.remove(k)[x] == o2[x]);
            assert(o1.remove(k)[x] == o1[x]);
        }
    }
    assert(private_view(visible_of(o2, no_changes()), key) =~= private_view(visible_of(o1, no_changes()), key).insert(k, v));
}

proof fn lemma_private_view_delta(
    o: Map<Seq<char>, Seq<char>>,
    d1: Map<Seq<char>, Option<Seq<char>>>,
    d2: Map<Seq<char>, Option<Seq<char>>>,
    key: Seq<u8>,
    k: Seq<char>,
    v: Seq<char>,
)
    requires
        d2.contains_key(k),
        d2[k] is Some,
        unseal(key, k, d2[k]->0) == Some(v),
        d2.remove(k) == d1.remove(k),
    ensures
        private_view(visible_of(o, d2), key) == private_view(visible_of(o, d1), key).insert(k, v),
{
    assert forall|x: Seq<char>| x != k implies d2.contains_key(x) == d1.contains_key(x) && (d2.contains_key(x) ==> d2[x] == d1[x]) by {
        assert(d2.remove(k).contains_key(x) == d2.contains_key(x));
        assert(d1.remove(k).contains_key(x) == d1.contains_key(x));
        if d2.contains_key(x) {
            assert(d2.remove(k)[x] == d2[x]);
            assert(d1.remove(k)[x] == d1[x]);
        }
    }
    assert(private_view(visible_of(o, d2), key) =~= private_view(visible_of(o, d1), key).insert(k, v));
}

/// The plain cookies a request brought, by name, under `key`: a cookie whose
/// value does not unseal is dropped, and a later cookie replaces an earlier one.
pub open spec fn private_cookies_map(s: Seq<Cookie>, key: Seq<u8>) -> Map<Seq<char>, Seq<char>>
    decreases s.len(),
{
    if s.len() == 0 {
        Map::empty()
    } else {
        let rest = private_cookies_map(s.drop_last(), key);
        match unseal(key, s.last()@.0, s.last()@.1) {
            Some(v) => rest.insert(s.last()@.0, v),
            None => rest,
        }
    }
}

/// The cookies of a request, sealed with a key: read and written in plain text,
/// stored encrypted.
pub struct PrivateCookieJar {
    jar: RawJar,
    key: Vec<u8>,
}

impl View for PrivateCookieJar {
    type V = Map<Seq<char>, Seq<char>>;

    closed spec fn view(&self) -> Map<Seq<char>, Seq<char>> {
        private_view(jar_visible(self.jar), self.key@)
    }
}

impl PrivateCookieJar {
    #[verifier::type_invariant]
    closed spec fn wf(&self) -> bool {
        self.key@.len() >= 64
    }

    /// The key's bytes.
    pub closed spec fn key_view(&self) -> Seq<u8> {
        self.key@
    }

    /// The values as the jar stores them (sealed), by name.
    pub closed spec fn stored(&self) -> Map<Seq<char>, Seq<char>> {
        jar_visible(self.jar)
    }

    /// The value stored (sealed) under `name`, if any.
    pub fn stored_value(&self, name: &str) -> (r: Option<String>)
        ensures
            r matches Some(v) ==> self.stored().contains_key(name@) && v@ == self.stored()[name@],
            r is None ==> !self.stored().contains_key(name@),
    {
        match jar_get(&self.jar, name) {
            Some(c) => Some(c.value().clone()),
            None => None,
        }
    }

    /// The jar of the cookies a request brought, unsealed with `key` (at least
    /// 64 bytes, as `cookie::Key::from` demands); cookies that do not unseal are
    /// left out.
    pub fn from_cookies(key: Vec<u8>, cookies: &Vec<Cookie>) -> (r: Self)
        requires
            key@.len() >= 64,
        ensures
            r.key_view() == key@,
            r@ == private_cookies_map(cookies@, key@),
    {
        let mut jar = jar_new();
        let mut i: usize = 0;
        let n = cookies.len();
        assert(cookies@.subrange(0, 0) =~= Seq::<Cookie>::empty());
        assert(private_view(jar_visible(jar), key@) =~= private_cookies_map(cookies@.subrange(0, 0), key@));
        while i < n
            invariant
                n == cookies@.len(),
                i <= n,
                key@.len() >= 64,
                jar_delta(jar) == no_changes(),
                private_view(jar_visible(jar), key@) == private_cookies_map(cookies@.subrange(0, i as int), key@),
            decreases n - i,
        {
            let ghost before = jar;
            let c = cookies[i].copy();
            let ghost cv = c@;
            assert(cookies@.subrange(0, i + 1).drop_last() =~= cookies@.subrange(0, i as int));
            match private_decrypt(&jar, &key, c) {
                Some(p) => {
                    let ghost pv = p@;
                    private_add_original(&mut jar, &key, p);
                    proof {
                        lemma_private_view_original(jar_original(before), jar_original(jar), key@, cv.0, pv.1);
                    }
                },
                None => {},
            }
            i = i + 1;
        }
        assert(cookies@.subrange(0, n as int) =~= cookies@);
        PrivateCookieJar { jar, key }
    }

    /// The cookie called `name` with its value unsealed, if the jar holds one
    /// whose value unseals.
    pub fn get(&self, name: &str) -> (r: Option<Cookie>)
        ensures
            r matches Some(c) ==> self@.contains_key(name@) && c@ == (name@, self@[name@]),
            r is None ==> !self@.contains_key(name@),
    {
        proof {
            use_type_invariant(self);
        }
        private_get(&self.jar, &self.key, name)
    }

    /// The jar without the cookie named like `cookie`.
    pub fn remove(self, cookie: Cookie) -> (r: Self)
        ensures
            r.key_view() == self.key_view(),
            r@ == self@.remove(cookie@.0),
    {
        proof {
            use_type_invariant(&self);
        }
        let PrivateCookieJar { jar, key } = self;
        let mut jar = jar;
        let ghost before = jar;
        private_remove(&mut jar, &key, cookie);
        let r = PrivateCookieJar { jar, key };
        assert(r@ =~= self@.remove(cookie@.0));
        r
    }

    /// The jar with `cookie` added (sealed), replacing a cookie of the same
    /// name. The stored value is not the plain value: it is longer.
    pub fn add(self, cookie: Cookie) -> (r: Self)
        ensures
            r.key_view() == self.key_view(),
            r@ == self@.insert(cookie@.0, cookie@.1),
            r.stored().contains_key(cookie@.0),
            r.stored()[cookie@.0].len() > cookie@.1.len(),
    {
        proof {
            use_type_invariant(&self);
        }
        let PrivateCookieJar { jar, key } = self;
        let mut jar = jar;
        let ghost c = cookie@;
        let ghost before = jar;
        private_add(&mut jar, &key, cookie);
        proof {
            lemma_private_view_delta(jar_original(before), jar_delta(before), jar_delta(jar), key@, c.0, c.1);
        }
        let r = PrivateCookieJar { jar, key };
        r
    }

    /// Every cookie of the jar whose value unseals, once, in plain text.
    pub fn iter(&self) -> (r: Vec<Cookie>)
        ensures
            lists_map(r@, self@),
    {
        proof {
            use_type_invariant(self);
        }
        let all = jar_iter(&self.jar);
        let ghost view = self@;
        let ghost visible = jar_visible(self.jar);
        let mut out: Vec<Cookie> = Vec::new();
        let ghost mut idx: Seq<int> = Seq::empty();
        let mut i: usize = 0;
        while i < all.len()
            invariant
                i <= all@.len(),
                lists_map(all@, visible),
                view == self@,
                view == private_view(visible, self.key@),
                idx.len() == out@.len(),
                forall|j: int| 0 <= j < out@.len() ==> 0 <= #[trigger] idx[j] < i,
                forall|j: int| 0 <= j < out@.len() ==> all@[idx[j]]@.0 == #[trigger] out@[j]@.0,
                forall|j: int| 0 <= j < out@.len() ==> view.contains_key(#[trigger] out@[j]@.0)
                    && view[out@[j]@.0] == out@[j]@.1,
                forall|a: int, b: int| 0 <= a < b < out@.len() ==> #[trigger] idx[a] < #[trigger] idx[b],
                forall|m: int| 0 <= m < i && view.contains_key(#[trigger] all@[m]@.0) ==> exists|j: int| 0 <= j < out@.len() && #[trigger] idx[j] == m,
            decreases all@.len() - i,
        {
            match self.get(all[i].name().as_str()) {
                Some(c) => {
                    out.push(c);
                    proof {
                        let ghost old_idx = idx;
                        idx = idx.push(i as int);
                        assert(idx[idx.len() - 1] == i);
                        assert forall|m: int| 0 <= m < i + 1 && view.contains_key(#[trigger] all@[m]@.0) implies exists|j: int| 0 <= j < out@.len() && #[trigger] idx[j] == m by {
                            if m == i {
                                assert(idx[out@.len() - 1] == m);
                            } else {
                                let j = choose|j: int| 0 <= j < old_idx.len() && #[trigger] old_idx[j] == m;
                                assert(idx[j] == old_idx[j]);
                            }
                        }
                    }
                },
                None => {
                    proof {
                        assert(!view.contains_key(all@[i as int]@.0));
                    }
                },
            }
            i = i + 1;
        }
        assert forall|a: int, b: int| 0 <= a < b < out@.len() implies #[trigger] out@[a]@.0 != #[trigger] out@[b]@.0 by {
            assert(idx[a] < idx[b]);
            assert(all@[idx[a]]@.0 != all@[idx[b]]@.0);
        }
        assert forall|k: Seq<char>| #[trigger] view.contains_key(k) implies exists|j: int| 0 <= j < out@.len() && #[trigger] out@[j]@.0 == k by {
            assert(visible.contains_key(k));
            let m = choose|m: int| 0 <= m < all@.len() && #[trigger] all@[m]@.0 == k;
            assert(view.contains_key(all@[m]@.0));
            let j = choose|j: int| 0 <= j < out@.len() && #[trigger] idx[j] == m;
            assert(out@[j]@.0 == all@[idx[j]]@.0);
        }
        out
    }
}

/// The cookies that the values of a request's `Cookie` headers carry: each value
/// split at `;`, each piece parsed, pieces that do not parse skipped.
pub open spec fn header_cookies(values: Seq<Seq<char>>) -> Seq<(Seq<char>, Seq<char>)>
    decreases values.len(),
{
    if values.len() == 0 {
        Seq::empty()
    } else {
        header_cookies(values.drop_last()) + parsed_pieces(split_on(values.last(), ';'))
    }
}

/// The pieces that parse as cookies, in order.
pub open spec fn parsed_pieces(pieces: Seq<Seq<char>>) -> Seq<(Seq<char>, Seq<char>)>
    decreases pieces.len(),
{
    if pieces.len() == 0 {
        Seq::empty()
    } else {
        let rest = parsed_pieces(pieces.drop_last());
        match parse_cookie_encoded(pieces.last()) {
            Some(c) => rest.push(c),
            None => rest,
        }
    }
}

/// The views of a list of cookies.
pub open spec fn cookie_views(s: Seq<Cookie>) -> Seq<(Seq<char>, Seq<char>)> {
    s.map_values(|c: Cookie| c@)
}

/// The cookies of a request, from the values of its `Cookie` headers.
pub fn cookies_from_header_values(values: &Vec<String>) -> (r: Vec<Cookie>)
    ensures
        cookie_views(r@) == header_cookies(crate::text::views(values@)),
{
    let mut out: Vec<Cookie> = Vec::new();
    let mut i: usize = 0;
    let n = values.len();
    assert(crate::text::views(values@.subrange(0, 0)) =~= Seq::<Seq<char>>::empty());
    assert(cookie_views(out@) =~= header_cookies(crate::text::views(values@.subrange(0, 0))));
    while i < n
        invariant
            n == values@.len(),
            i <= n,
            cookie_views(out@) == header_cookies(crate::text::views(values@.subrange(0, i as int))),
        decreases n - i,
    {
        let pieces = split_cookie_header(values[i].as_str());
        let ghost start = cookie_views(out@);
        let mut k: usize = 0;
        assert(pieces@.subrange(0, 0) =~= Seq::<String>::empty());
        assert(crate::text::views(pieces@.subrange(0, 0)) =~= Seq::<Seq<char>>::empty());
        assert(cookie_views(out@) =~= start + parsed_pieces(crate::text::views(pieces@.subrange(0, 0))));
        while k < pieces.len()
            invariant
                k <= pieces@.len(),
                cookie_views(out@) == start + parsed_pieces(crate::text::views(pieces@.subrange(0, k as int))),
            decreases pieces@.len() - k,
        {
            let ghost before = out@;
            assert(crate::text::views(pieces@.subrange(0, k + 1)).drop_last() =~= crate::text::views(pieces@.subrange(0, k as int)));
            assert(crate::text::views(pieces@.subrange(0, k + 1)).last() == pieces@[k as int]@);
            match parse_encoded(pieces[k].as_str()) {
                Some(c) => {
                    out.push(c);
                    assert(cookie_views(out@) =~= cookie_views(before).push(c@));
                },
                None => {},
            }
            k = k + 1;
        }
        assert(pieces@.subrange(0, pieces@.len() as int) =~= pieces@);
        assert(crate::text::views(values@.subrange(0, i + 1)).drop_last() =~= crate::text::views(values@.subrange(0, i as int)));
        assert(crate::text::views(values@.subrange(0, i + 1)).last() == values@[i as int]@);
        i = i + 1;
    }
    assert(values@.subrange(0, n as int) =~= values@);
    out
}


/// A cookie added to a jar (plain or private) is read back under its name
/// with its value, and the other cookies stay as they were.
pub proof fn law_cookie_read_after_add(jar: Map<Seq<char>, Seq<char>>, cookie: (Seq<char>, Seq<char>), other: Seq<char>)
    requires
        other != cookie.0,
    ensures
        jar.insert(cookie.0, cookie.1).contains_key(cookie.0),
        jar.insert(cookie.0, cookie.1)[cookie.0] == cookie.1,
        jar.insert(cookie.0, cookie.1).contains_key(other) == jar.contains_key(other),
        jar.contains_key(other) ==> jar.insert(cookie.0, cookie.1)[other] == jar[other],
{
}

/// A cookie removed from a jar (plain or private) is no longer found, and the
/// other cookies stay as they were.
pub proof fn law_cookie_gone_after_remove(jar: Map<Seq<char>, Seq<char>>, name: Seq<char>, other: Seq<char>)
    requires
        other != name,
    ensures
        !jar.remove(name).contains_key(name),
        jar.remove(name).contains_key(other) == jar.contains_key(other),
        jar.contains_key(other) ==> jar.remove(name)[other] == jar[other],
{
}

/// A cookie whose value a private jar sealed under a key (so that it unseals
/// to the plain value) is read back in plain text by a private jar built from
/// it with the same key.
pub proof fn law_private_cookie_round_trip(key: Seq<u8>, sealed: Cookie, value: Seq<char>)
    requires
        unseal(key, sealed@.0, sealed@.1) == Some(value),
    ensures
        private_cookies_map(seq![sealed], key).contains_key(sealed@.0),
        private_cookies_map(seq![sealed], key)[sealed@.0] == value,
{
    let s = seq![sealed];
    assert(s.drop_last() =~= Seq::<Cookie>::empty());
    assert(s.last() == sealed);
}

} // verus!
