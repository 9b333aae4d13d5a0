use safe_surf_core::crypto::derive_session_key;
use safe_surf_core::session::SessionManager;

#[test]
fn created_session_is_found_with_derived_key() {
    let mut m = SessionManager::new();
    let id = m.create_session(&[5u8; 32], &[6u8; 16]);
    let s = m.get_session(&id).unwrap();
    assert_eq!(s.id, id);
    assert_eq!(s.session_key, derive_session_key(&[5u8; 32], Some(&[6u8; 16])));
}

#[test]
fn session_ids_are_version_4_uuids() {
    let mut m = SessionManager::default();
    let id = m.create_session(b"secret", b"salt");
    assert_eq!((id >> 76) & 0xf, 4);
    assert_eq!((id >> 62) & 0x3, 2);
}

#[test]
fn terminated_session_is_gone_and_others_stay() {
    let mut m = SessionManager::new();
    let a = m.create_session(b"a", b"salt-a");
    let b = m.create_session(b"b", b"salt-b");
    assert_ne!(a, b);
    m.terminate_session(&a);
    assert!(m.get_session(&a).is_none());
    assert_eq!(m.get_session(&b).unwrap().session_key, derive_session_key(b"b", Some(b"salt-b")));
    m.terminate_session(&a);
    assert!(m.get_session(&b).is_some());
}

#[test]
fn unknown_session_is_not_found() {
    let m = SessionManager::new();
    assert!(m.get_session(&42).is_none());
}
