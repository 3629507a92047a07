//! Sessions: a per-visitor record of values stored as JSON text, kept in an
//! outside store between requests.

use vstd::prelude::*;
use crate::assoc::{keys_unique, has_key, assoc_view, assoc_get, assoc_insert, assoc_remove, lemma_assoc_push};
use crate::runtime::{now_millis, random_uuid, is_uuid_v4_text};
use crate::text::concat;
use crate::cookie_jar::CookieJar;

verus! {

/// The abstract content of a session.
pub ghost struct SessionModel {
    pub last_activity: i64,
    pub new: bool,
    pub session_id: Seq<char>,
    pub values: Map<Seq<char>, Seq<char>>,
}

/// A session: when it was last active, whether it was created by this request,
/// its id, and the JSON text stored under each key.
pub struct DefaultSession {
    last_activity: i64,
    new: bool,
    session_id: String,
    inner: Vec<(String, String)>,
}

/// The text views of the values of a list of pairs.
pub open spec fn text_map(s: Seq<(String, String)>) -> Map<Seq<char>, Seq<char>> {
    assoc_view(s).map_values(|v: String| v@)
}

impl View for DefaultSession {
    type V = SessionModel;

    closed spec fn view(&self) -> SessionModel {
        SessionModel {
            last_activity: self.last_activity,
            new: self.new,
            session_id: self.session_id@,
            values: text_map(self.inner@),
        }
    }
}

impl DefaultSession {
    #[verifier::type_invariant]
    closed spec fn wf(&self) -> bool {
        keys_unique(self.inner@)
    }

    /// An empty, not-new session with no id, last active now.
    pub fn default() -> (r: Self)
        ensures
            !r@.new,
            r@.session_id == Seq::<char>::empty(),
            r@.values == Map::<Seq<char>, Seq<char>>::empty(),
    {
        let r = DefaultSession { last_activity: now_millis(), new: false, session_id: String::new(), inner: Vec::new() };
        assert(text_map(r.inner@) =~= Map::<Seq<char>, Seq<char>>::empty());
        r
    }

    /// A new, empty session with the given id, last active at `now`.
    pub fn new_session(session_id: String, now: i64) -> (r: Self)
        ensures
            r@ == (SessionModel {
                last_activity: now,
                new: true,
                session_id: session_id@,
                values: Map::empty(),
            }),
    {
        let r = DefaultSession { last_activity: now, new: true, session_id, inner: Vec::new() };
        assert(text_map(r.inner@) =~= Map::<Seq<char>, Seq<char>>::empty());
        r
    }

    pub fn get_last_activity(&mut self) -> (r: i64)
        ensures
            r == old(self)@.last_activity,
            final(self)@ == old(self)@,
    {
        self.last_activity
    }

    /// When the session was last active (read without a mutable borrow).
    pub fn last_activity(&self) -> (r: i64)
        ensures
            r == self@.last_activity,
    {
        self.last_activity
    }

    pub fn set_last_activity(&mut self, last_activity: i64)
        ensures
            final(self)@ == (SessionModel { last_activity, ..old(self)@ }),
    {
        proof {
            use_type_invariant(&*self);
        }
        self.last_activity = last_activity;
    }

    pub fn get_session_id(&self) -> (r: &String)
        ensures
            r@ == self@.session_id,
    {
        &self.session_id
    }

    pub fn set_session_id(&mut self, session_id: String)
        ensures
            final(self)@ == (SessionModel { session_id: session_id@, ..old(self)@ }),
    {
        proof {
            use_type_invariant(&*self);
        }
        self.session_id = session_id;
    }

    pub fn is_new(&self) -> (r: bool)
        ensures
            r == self@.new,
    {
        self.new
    }

    /// Marks the session as saved: it is no longer new.
    pub fn mark_saved(&mut self)
        ensures
            final(self)@ == (SessionModel { new: false, ..old(self)@ }),
    {
        proof {
            use_type_invariant(&*self);
        }
        self.new = false;
    }

    /// Stores the JSON text `json` under `key`, replacing any earlier value.
    pub fn insert_or_update(&mut self, key: String, json: String)
        ensures
            final(self)@ == (SessionModel { values: old(self)@.values.insert(key@, json@), ..old(self)@ }),
    {
        proof {
            use_type_invariant(&*self);
        }
        let ghost k = key@;
        let ghost j = json@;
        let ghost before = self.inner@;
        let mut inner: Vec<(String, String)> = Vec::new();
        std::mem::swap(&mut inner, &mut self.inner);
        assoc_insert(&mut inner, key, json);
        self.inner = inner;
        proof {
            assert(text_map(self.inner@) =~= text_map(before).insert(k, j));
        }
    }

    /// The JSON text stored under `key`, if any.
    pub fn get(&self, key: String) -> (r: Option<String>)
        ensures
            r matches Some(v) ==> self@.values.contains_key(key@) && self@.values[key@] == v@,
            r is None ==> !self@.values.contains_key(key@),
    {
        proof {
            use_type_invariant(self);
        }
        match assoc_get(&self.inner, key.as_str()) {
            Some(v) => Some(v.clone()),
            None => None,
        }
    }

    /// Removes the value stored under `key` and returns its JSON text, if any.
    pub fn remove(&mut self, key: String) -> (r: Option<String>)
        ensures
            final(self)@ == (SessionModel { values: old(self)@.values.remove(key@), ..old(self)@ }),
            r matches Some(v) ==> old(self)@.values.contains_key(key@) && old(self)@.values[key@] == v@,
            r is None ==> !old(self)@.values.contains_key(key@),
    {
        proof {
            use_type_invariant(&*self);
        }
        let ghost before = self.inner@;
        let mut inner: Vec<(String, String)> = Vec::new();
        std::mem::swap(&mut inner, &mut self.inner);
        let r = assoc_remove(&mut inner, key.as_str());
        self.inner = inner;
        proof {
            assert(text_map(self.inner@) =~= text_map(before).remove(key@));
        }
        r
    }

    /// The stored values as pairs of key and JSON text, in no particular order.
    pub fn entries(&self) -> (r: &Vec<(String, String)>)
        ensures
            keys_unique(r@),
            text_map(r@) == self@.values,
    {
        proof {
            use_type_invariant(self);
        }
        &self.inner
    }

    /// Rebuilds a session from its parts; a later pair replaces an earlier pair
    /// with the same key.
    pub fn from_parts(last_activity: i64, new: bool, session_id: String, entries: &Vec<(String, String)>) -> (r: Self)
        ensures
            r@.last_activity == last_activity,
            r@.new == new,
            r@.session_id == session_id@,
            r@.values == entries_map(entries@),
    {
        let mut inner: Vec<(String, String)> = Vec::new();
        let mut i: usize = 0;
        let n = entries.len();
        assert(text_map(inner@) =~= entries_map(entries@.subrange(0, 0)));
        while i < n
            invariant
                n == entries@.len(),
                i <= n,
                keys_unique(inner@),
                text_map(inner@) == entries_map(entries@.subrange(0, i as int)),
            decreases n - i,
        {
            let ghost before = inner@;
            let k = entries[i].0.clone();
            let v = entries[i].1.clone();
            assoc_insert(&mut inner, k, v);
            proof {
                assert(entries@.subrange(0, i + 1).drop_last() =~= entries@.subrange(0, i as int));
                assert(text_map(inner@) =~= text_map(before).insert(entries@[i as int].0@, entries@[i as int].1@));
            }
            i = i + 1;
        }
        assert(entries@.subrange(0, n as int) =~= entries@);
        DefaultSession { last_activity, new, session_id, inner }
    }
}

/// The map that a list of pairs builds when inserted in order.
pub open spec fn entries_map(s: Seq<(String, String)>) -> Map<Seq<char>, Seq<char>>
    decreases s.len(),
{
    if s.len() == 0 {
        Map::empty()
    } else {
        entries_map(s.drop_last()).insert(s.last().0@, s.last().1@)
    }
}

/// The name of the cookie that carries the session id.
pub const SESSION_COOKIE_NAME: &'static str = "session_id";

/// The `Set-Cookie` value that hands a new session's id to the browser:
/// `session_id=<id>; Path=/; Max-Age=2592000` (thirty days).
pub fn session_set_cookie(session_id: &str) -> (r: String)
    ensures
        r@ == "session_id="@ + session_id@ + "; Path=/; Max-Age=2592000"@,
{
    let mut r = concat("session_id=", session_id);
    r.append("; Path=/; Max-Age=2592000");
    r
}

/// The session a store's answer stands for.
pub open spec fn stored_model(r: Option<DefaultSession>) -> Option<SessionModel> {
    match r {
        Some(s) => Some(s@),
        None => None,
    }
}

/// Where sessions are kept between requests.
pub trait SessionStorage {
    /// Whether `r` (the session found, or `None`) is an answer the store may
    /// give to a lookup of `session_id`. A store that does not say otherwise
    /// may give any answer.
    open spec fn answers(&self, session_id: Seq<char>, r: Option<SessionModel>) -> bool {
        true
    }

    /// Whether the store `self` can be what the store `before` became by
    /// storing `value`, with `ok` the flag it reported. A store that does not
    /// say otherwise may become anything.
    open spec fn stored(&self, before: Self, value: SessionModel, ok: bool) -> bool
        where Self: Sized
    {
        true
    }

    fn insert_or_update(&mut self, value: &DefaultSession) -> (r: bool)
        where Self: Sized
        ensures
            final(self).stored(*old(self), value@, r),
    ;

    fn get(&self, session_id: String) -> (r: Option<DefaultSession>)
        ensures
            self.answers(session_id@, stored_model(r)),
    ;

    fn remove(&mut self, session_id: String) -> bool;
}

/// Sessions kept in Redis, each under the key `session:<id>`.
pub struct RedisSession;

impl RedisSession {
    /// The Redis key of the session with this id.
    pub fn key(session_id: &str) -> (r: String)
        ensures
            r@ == "session:"@ + session_id@,
    {
        concat("session:", session_id)
    }
}

/// Whether the store `after` is what `before` became by storing the new
/// session `s`.
pub open spec fn new_session_stored<S: SessionStorage>(before: S, after: S, s: SessionModel) -> bool {
    exists|ok: bool| #[trigger] after.stored(before, s, ok)
}

/// Finds or creates the session of each request.
pub struct DefaultSessionManager<S: SessionStorage> {
    session_storage: S,
}

impl<S: SessionStorage> DefaultSessionManager<S> {
    pub closed spec fn storage(&self) -> S {
        self.session_storage
    }

    pub fn new(session_storage: S) -> (r: Self)
        ensures
            r.storage() == session_storage,
    {
        DefaultSessionManager { session_storage }
    }

    /// A fresh random session id.
    pub fn generate_session_id(&self) -> (r: String)
        ensures
            is_uuid_v4_text(r@),
    {
        random_uuid()
    }

    /// A new, empty session with a fresh id, last active now, handed to the
    /// store.
    pub fn generate_new_session(&mut self) -> (r: DefaultSession)
        ensures
            new_session_stored(old(self).storage(), final(self).storage(), r@),
            r@.new,
            r@.values == Map::<Seq<char>, Seq<char>>::empty(),
            is_uuid_v4_text(r@.session_id),
    {
        let id = self.generate_session_id();
        let now = now_millis();
        let session = DefaultSession::new_session(id, now);
        let ok = self.session_storage.insert_or_update(&session);
        assert(self.storage().stored(old(self).storage(), session@, ok));
        session
    }

    /// The session of a request given what the store returned for its
    /// session cookie (`None` when it holds no such session or the request
    /// has no cookie): the stored session, otherwise a new session.
    pub fn session_from_lookup(&mut self, stored: Option<DefaultSession>) -> (r: DefaultSession)
        ensures
            stored matches Some(s) ==> r@ == s@ && final(self).storage() == old(self).storage(),
            stored is None ==> r@.new && r@.values == Map::<Seq<char>, Seq<char>>::empty() && is_uuid_v4_text(
                r@.session_id,
            ) && new_session_stored(old(self).storage(), final(self).storage(), r@),
    {
        match stored {
            Some(session) => session,
            None => self.generate_new_session(),
        }
    }

    /// The session of a request: the store's answer for the value of its
    /// `session_id` cookie when the store has such a session, otherwise (no
    /// cookie, or the store answers `None`) a new session, which is stored.
    pub fn session_for_request(&mut self, cookies: &CookieJar) -> (r: DefaultSession)
        ensures
            !cookies@.contains_key(SESSION_COOKIE_NAME@) ==> r@.new && r@.values == Map::<Seq<char>, Seq<char>>::empty()
                && is_uuid_v4_text(r@.session_id) && new_session_stored(old(self).storage(), final(self).storage(), r@),
            cookies@.contains_key(SESSION_COOKIE_NAME@) ==> {
                ||| (old(self).storage().answers(cookies@[SESSION_COOKIE_NAME@], Some(r@))
                    && final(self).storage() == old(self).storage())
                ||| (old(self).storage().answers(cookies@[SESSION_COOKIE_NAME@], None) && r@.new
                    && r@.values == Map::<Seq<char>, Seq<char>>::empty() && is_uuid_v4_text(r@.session_id)
                    && new_session_stored(old(self).storage(), final(self).storage(), r@))
            },
    {
        let stored = match cookies.get(SESSION_COOKIE_NAME) {
            Some(cookie) => {
                let session_id = cookie.value().clone();
                self.session_storage.get(session_id)
            },
            None => None,
        };
        self.session_from_lookup(stored)
    }

    /// Saves the session of a request: it is marked as no longer new and written
    /// to the store. The result is what the store reports.
    pub fn save_session(&mut self, session: &mut DefaultSession) -> (r: bool)
        ensures
            final(session)@ == (SessionModel { new: false, ..old(session)@ }),
            final(self).storage().stored(old(self).storage(), final(session)@, r),
    {
        session.mark_saved();
        self.session_storage.insert_or_update(session)
    }
}


/// What the application shares between requests: the session manager.
pub struct ApplicationContext<S: SessionStorage> {
    pub session_manager: DefaultSessionManager<S>,
}


/// Reading a key of a session right after storing a value under it gives that
/// value, and storing leaves every other key as it was.
pub proof fn law_session_read_after_write(s: SessionModel, key: Seq<char>, json: Seq<char>, other: Seq<char>)
    requires
        other != key,
    ensures
        ({
            let after = SessionModel { values: s.values.insert(key, json), ..s };
            &&& after.values.contains_key(key)
            &&& after.values[key] == json
            &&& after.values.contains_key(other) == s.values.contains_key(other)
            &&& s.values.contains_key(other) ==> after.values[other] == s.values[other]
            &&& after.session_id == s.session_id && after.new == s.new && after.last_activity == s.last_activity
        }),
{
}

/// After a key is removed from a session, reading it finds nothing, and every
/// other key is as it was.
pub proof fn law_session_read_after_remove(s: SessionModel, key: Seq<char>, other: Seq<char>)
    requires
        other != key,
    ensures
        ({
            let after = SessionModel { values: s.values.remove(key), ..s };
            &&& !after.values.contains_key(key)
            &&& after.values.contains_key(other) == s.values.contains_key(other)
            &&& s.values.contains_key(other) ==> after.values[other] == s.values[other]
        }),
{
}


/// A session rebuilt from the entries of a session has the same values: for
/// entries without a repeated key (as `entries` returns them), the map that
/// `from_parts` builds is the map the entries stand for.
#[verifier::spinoff_prover]
pub proof fn law_session_entries_round_trip(entries: Seq<(String, String)>)
    requires
        keys_unique(entries),
    ensures
        entries_map(entries) == text_map(entries),
    decreases entries.len(),
{
    if entries.len() == 0 {
        assert(text_map(entries) =~= Map::<Seq<char>, Seq<char>>::empty());
    } else {
        let rest = entries.drop_last();
        let last = entries.last();
        assert(keys_unique(rest));
        law_session_entries_round_trip(rest);
        assert(!has_key(rest, last.0@)) by {
            if has_key(rest, last.0@) {
                let j = choose|j: int| 0 <= j < rest.len() && #[trigger] rest[j].0@ == last.0@;
                assert(entries[j].0@ != entries[entries.len() - 1].0@);
            }
        }
        lemma_assoc_push(rest, last.0, last.1);
        assert(rest.push(last) =~= entries);
        assert(text_map(entries) =~= text_map(rest).insert(last.0@, last.1@));
    }
}

} // verus!
