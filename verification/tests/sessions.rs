use paykit::sessions::{SessionConfig, SessionData, SessionStore};

#[test]
fn default_session_config() {
    let c = SessionConfig::new();
    assert_eq!(c.cookie_name, "session_id");
    assert_eq!(c.expire_seconds, 3600);
    assert!(c.secure && c.http_only);
    assert_eq!(c.path, "/");
}

#[test]
fn created_session_is_found_then_deleted() {
    let mut s = SessionStore::new(SessionConfig::new());
    let (id, data) = s.create_at("user_1", 255, 100);
    assert_eq!(id, "ff");
    assert_eq!(data.user_id, "user_1");
    assert_eq!(data.created_at, 100);
    let got = s.get(&id).unwrap();
    assert_eq!(got.user_id, "user_1");
    assert!(s.delete(&id));
    assert!(s.get(&id).is_none());
    assert!(!s.delete(&id));
}

#[test]
fn live_session_ids_are_hexadecimal() {
    let mut s = SessionStore::new(SessionConfig::new());
    let (id, d) = s.create("u").unwrap();
    assert!(id.chars().all(|c| c.is_ascii_hexdigit()));
    assert_eq!(d.created_at, d.last_accessed);
    assert!(s.get(&id).is_some());
}

#[test]
fn new_session_data_is_empty() {
    let d = SessionData::new_at("u", 7);
    assert!(d.email.is_none());
    assert!(d.data.is_empty());
    assert_eq!(d.last_accessed, 7);
}
