use chat_hub::access::{can_access, can_user_access_room_cached};

#[test]
fn default_room_is_open_to_every_role() {
    assert!(can_access("beta", "user"));
    assert!(can_access("user", "user"));
    assert!(can_access("", "user"));
}

#[test]
fn admin_enters_every_room() {
    assert!(can_access("admin", "beta"));
    assert!(can_access("admin", "admin"));
}

#[test]
fn other_roles_need_the_exact_role() {
    assert!(can_access("beta", "beta"));
    assert!(!can_access("gamma", "beta"));
    assert!(!can_access("user", "admin"));
    assert!(!can_access("Beta", "beta"));
}

#[test]
fn unknown_roles_are_denied() {
    assert!(!can_user_access_room_cached(None, Some("admin")));
    assert!(!can_user_access_room_cached(Some("user"), None));
    assert!(!can_user_access_room_cached(None, None));
    assert!(can_user_access_room_cached(Some("user"), Some("beta")));
    assert!(can_user_access_room_cached(Some("beta"), Some("admin")));
    assert!(!can_user_access_room_cached(Some("beta"), Some("gamma")));
}
