use chat_hub::auth::Claims;
use chat_hub::gate::{
    authorize, find_last, open_connection, resolve_token, token_from_header, token_from_query,
    GateError,
};
use chat_hub::presence::create_online_users;
use chat_hub::rooms::Room;

fn claims(sub: &str, role: &str) -> Claims {
    Claims { sub: sub.to_string(), username: "name".to_string(), role: role.to_string(), exp: 0 }
}

fn room(id: &str, required_role: &str) -> Room {
    Room {
        id: id.to_string(),
        name: id.to_string(),
        kind: "text".to_string(),
        required_role: required_role.to_string(),
        created_at: "2024-01-01 00:00:00".to_string(),
    }
}

#[test]
fn token_comes_from_the_query_first() {
    assert_eq!(resolve_token("access_token=abc", Some("Bearer xyz")), Some("abc".to_string()));
    assert_eq!(resolve_token("a=1&access_token=abc&b=2", None), Some("abc".to_string()));
}

#[test]
fn token_falls_back_to_the_header() {
    assert_eq!(resolve_token("", Some("Bearer xyz")), Some("xyz".to_string()));
    assert_eq!(resolve_token("room=1", Some("Bearer xyz")), Some("xyz".to_string()));
    assert_eq!(resolve_token("room=1", Some("Basic xyz")), None);
    assert_eq!(resolve_token("room=1", None), None);
    assert_eq!(resolve_token("", None), None);
}

#[test]
fn empty_query_token_still_counts() {
    assert_eq!(resolve_token("access_token=", Some("Bearer xyz")), Some(String::new()));
    assert_eq!(resolve_token("access_token", Some("Bearer xyz")), Some(String::new()));
}

#[test]
fn query_is_decoded() {
    assert_eq!(token_from_query("access_token=a%2Bb+c"), Some("a+b c".to_string()));
    assert_eq!(token_from_query("access%5Ftoken=t"), Some("t".to_string()));
    assert_eq!(token_from_query("Access_Token=t"), None);
}

#[test]
fn last_of_a_repeated_parameter_stands() {
    assert_eq!(token_from_query("access_token=one&access_token=two"), Some("two".to_string()));
    let pairs = vec![
        ("k".to_string(), "1".to_string()),
        ("other".to_string(), "2".to_string()),
        ("k".to_string(), "3".to_string()),
        ("z".to_string(), "4".to_string()),
    ];
    assert_eq!(find_last(&pairs, "k"), Some("3".to_string()));
    assert_eq!(find_last(&pairs, "other"), Some("2".to_string()));
    assert_eq!(find_last(&pairs, "missing"), None);
    assert_eq!(find_last(&Vec::new(), "k"), None);
}

#[test]
fn header_needs_the_bearer_prefix() {
    assert_eq!(token_from_header("Bearer abc.def"), Some("abc.def".to_string()));
    assert_eq!(token_from_header("Bearer "), Some(String::new()));
    assert_eq!(token_from_header("Bearer"), None);
    assert_eq!(token_from_header("bearer abc"), None);
    assert_eq!(token_from_header(" Bearer abc"), None);
    assert_eq!(token_from_header("Bearer  abc"), Some(" abc".to_string()));
}

#[test]
fn request_without_token_is_refused() {
    let outcome = authorize(&None, None);
    assert!(matches!(outcome, Err(GateError::MissingToken)));
    let outcome = authorize(&None, Some(claims("u1", "user")));
    assert!(matches!(outcome, Err(GateError::MissingToken)));
    assert_eq!(GateError::MissingToken.message(), "No token provided");
}

#[test]
fn invalid_token_is_refused() {
    let outcome = authorize(&Some("bad".to_string()), None);
    assert!(matches!(outcome, Err(GateError::InvalidToken)));
    assert_eq!(GateError::InvalidToken.message(), "Invalid token");
}

#[test]
fn valid_token_is_let_in() {
    let outcome = authorize(&Some("good".to_string()), Some(claims("u1", "beta")));
    match outcome {
        Ok(valid) => {
            assert_eq!(valid.sub, "u1");
            assert_eq!(valid.role, "beta");
        }
        Err(_) => panic!("a valid token was refused"),
    }
}

#[test]
fn connection_takes_identity_snapshot_and_presence() {
    let rooms = vec![room("R1", "beta"), room("R2", "user"), room("R3", "admin")];
    let mut users = create_online_users();
    let (identity, allowed) =
        open_connection(&claims("U1", "user"), Some("beta".to_string()), &rooms, &mut users);
    assert_eq!(identity.user_id(), "U1");
    assert_eq!(identity.role(), "beta");
    assert!(!allowed.is_admin());
    assert_eq!(allowed.len(), 2);
    assert!(allowed.contains("R1"));
    assert!(allowed.contains("R2"));
    assert!(!allowed.contains("R3"));
    assert_eq!(users.marker("U1"), Some(0));
    assert_eq!(users.len(), 1);
}

#[test]
fn connection_without_a_known_role_is_a_plain_user() {
    let rooms = vec![room("R1", "beta"), room("R2", "user")];
    let mut users = create_online_users();
    users.set("U1", 5);
    let (identity, allowed) = open_connection(&claims("U1", "admin"), None, &rooms, &mut users);
    assert_eq!(identity.role(), "user");
    assert!(!allowed.is_admin());
    assert!(allowed.contains("R2"));
    assert!(!allowed.contains("R1"));
    assert_eq!(users.marker("U1"), Some(0));
}

#[test]
fn admin_connection_holds_every_room() {
    let rooms = vec![room("R1", "beta"), room("R2", "user"), room("R3", "admin")];
    let mut users = create_online_users();
    let (identity, allowed) =
        open_connection(&claims("A", "user"), Some("admin".to_string()), &rooms, &mut users);
    assert_eq!(identity.role(), "admin");
    assert!(allowed.is_admin());
    assert_eq!(allowed.len(), 3);
    assert!(allowed.allows("R3"));
    assert!(allowed.allows("made-later"));
    assert!(!allowed.contains("made-later"));
}
