use rust_shop::cookie_jar::{Cookie, CookieJar};
use rust_shop::session::{session_set_cookie, DefaultSession, DefaultSessionManager, RedisSession, SessionStorage};

struct MemoryStore {
    sessions: Vec<DefaultSession>,
    writes: usize,
}

impl SessionStorage for MemoryStore {
    fn insert_or_update(&mut self, _value: &DefaultSession) -> bool {
        self.writes += 1;
        true
    }
    fn get(&self, session_id: String) -> Option<DefaultSession> {
        for s in &self.sessions {
            if *s.get_session_id() == session_id {
                return Some(DefaultSession::from_parts(7, false, session_id.clone(), s.entries()));
            }
        }
        None
    }
    fn remove(&mut self, _session_id: String) -> bool {
        false
    }
}

#[test]
fn session_read_after_write_and_remove() {
    let mut s = DefaultSession::new_session("sid".to_string(), 1000);
    assert!(s.is_new());
    assert_eq!(s.get_last_activity(), 1000);
    s.insert_or_update("user".to_string(), "\"bob\"".to_string());
    s.insert_or_update("cart".to_string(), "[]".to_string());
    s.insert_or_update("user".to_string(), "\"alice\"".to_string());
    assert_eq!(s.get("user".to_string()), Some("\"alice\"".to_string()));
    assert_eq!(s.get("cart".to_string()), Some("[]".to_string()));
    assert_eq!(s.remove("user".to_string()), Some("\"alice\"".to_string()));
    assert_eq!(s.get("user".to_string()), None);
    assert_eq!(s.get("cart".to_string()), Some("[]".to_string()));
    assert_eq!(s.remove("user".to_string()), None);
    assert_eq!(s.entries().len(), 1);
}

#[test]
fn session_setters() {
    let mut s = DefaultSession::default();
    assert!(!s.is_new());
    assert_eq!(s.get_session_id(), "");
    s.set_session_id("x".to_string());
    s.set_last_activity(42);
    assert_eq!(s.get_session_id(), "x");
    assert_eq!(s.get_last_activity(), 42);
}

#[test]
fn session_from_parts_keeps_last_duplicate() {
    let entries = vec![("a".to_string(), "1".to_string()), ("a".to_string(), "2".to_string())];
    let s = DefaultSession::from_parts(5, true, "id".to_string(), &entries);
    assert_eq!(s.get("a".to_string()), Some("2".to_string()));
    assert_eq!(s.entries().len(), 1);
}

#[test]
fn session_cookie_and_store_key() {
    assert_eq!(session_set_cookie("abc"), "session_id=abc; Path=/; Max-Age=2592000");
    assert_eq!(RedisSession::key("abc"), "session:abc");
}

#[test]
fn manager_finds_stored_session_by_cookie() {
    let mut stored = DefaultSession::new_session("known".to_string(), 1);
    stored.insert_or_update("k".to_string(), "v".to_string());
    let mut manager = DefaultSessionManager::new(MemoryStore { sessions: vec![stored], writes: 0 });
    let jar = CookieJar::default().add(Cookie::new("session_id".to_string(), "known".to_string()));
    let s = manager.session_for_request(&jar);
    assert_eq!(s.get_session_id(), "known");
    assert_eq!(s.get("k".to_string()), Some("v".to_string()));
}

#[test]
fn manager_creates_new_session_without_cookie() {
    let mut manager = DefaultSessionManager::new(MemoryStore { sessions: vec![], writes: 0 });
    let s = manager.session_for_request(&CookieJar::default());
    assert!(s.is_new());
    assert_eq!(s.get_session_id().len(), 36);
    assert!(s.entries().is_empty());
    let jar = CookieJar::default().add(Cookie::new("session_id".to_string(), "unknown".to_string()));
    let t = manager.session_for_request(&jar);
    assert!(t.is_new());
    assert_ne!(t.get_session_id(), "unknown");
}

#[test]
fn saving_marks_session_not_new() {
    let mut manager = DefaultSessionManager::new(MemoryStore { sessions: vec![], writes: 0 });
    let mut s = manager.generate_new_session();
    assert!(s.is_new());
    assert!(manager.save_session(&mut s));
    assert!(!s.is_new());
}

#[test]
fn generated_ids_are_uuid_v4() {
    let manager = DefaultSessionManager::new(MemoryStore { sessions: vec![], writes: 0 });
    let id = manager.generate_session_id();
    assert_eq!(id.len(), 36);
    assert_eq!(id.chars().nth(14), Some('4'));
    assert_ne!(manager.generate_session_id(), id);
}

#[test]
fn session_rebuilt_from_entries_has_same_values() {
    let mut s = DefaultSession::new_session("sid".to_string(), 3);
    s.insert_or_update("a".to_string(), "1".to_string());
    s.insert_or_update("b".to_string(), "2".to_string());
    let t = DefaultSession::from_parts(s.last_activity(), s.is_new(), s.get_session_id().clone(), s.entries());
    assert_eq!(t.get("a".to_string()), Some("1".to_string()));
    assert_eq!(t.get("b".to_string()), Some("2".to_string()));
    assert_eq!(t.entries().len(), 2);
    assert_eq!(t.last_activity(), 3);
}

#[test]
fn lookup_result_decides_session() {
    let mut manager = DefaultSessionManager::new(MemoryStore { sessions: vec![], writes: 0 });
    let stored = DefaultSession::new_session("kept".to_string(), 9);
    let s = manager.session_from_lookup(Some(stored));
    assert_eq!(s.get_session_id(), "kept");
    let n = manager.session_from_lookup(None);
    assert!(n.is_new());
    assert_eq!(n.get_session_id().len(), 36);
}
