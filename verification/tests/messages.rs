use chat_hub::auth::Claims;
use chat_hub::messages::{
    may_delete_message, search_limit, search_statement, stored_image_path, SearchQuery,
};

fn claims(sub: &str, role: &str) -> Claims {
    Claims { sub: sub.to_string(), username: "n".to_string(), role: role.to_string(), exp: 0 }
}

fn query() -> SearchQuery {
    SearchQuery { q: None, author: None, room_id: None, from: None, to: None, limit: None }
}

const SELECT: &str = "SELECT m.id, m.room_id, m.user_id, m.username, m.content, m.reply_to_id, m.created_at, m.image_url, m.pinned_at, m.pinned_by, u.avatar_url FROM messages m LEFT JOIN users u ON m.user_id = u.id LEFT JOIN rooms r ON m.room_id = r.id WHERE 1=1";

#[test]
fn limit_is_held_between_one_and_two_hundred() {
    assert_eq!(search_limit(None), 80);
    assert_eq!(search_limit(Some(1)), 1);
    assert_eq!(search_limit(Some(200)), 200);
    assert_eq!(search_limit(Some(201)), 200);
    assert_eq!(search_limit(Some(0)), 1);
    assert_eq!(search_limit(Some(-7)), 1);
    assert_eq!(search_limit(Some(i64::MAX)), 200);
    assert_eq!(search_limit(Some(i64::MIN)), 1);
    assert_eq!(search_limit(Some(55)), 55);
}

#[test]
fn author_and_admin_may_delete() {
    assert!(may_delete_message("u1", &claims("u1", "user")));
    assert!(may_delete_message("u1", &claims("u2", "admin")));
    assert!(!may_delete_message("u1", &claims("u2", "beta")));
}

#[test]
fn image_path_loses_its_leading_slashes() {
    assert_eq!(stored_image_path("/uploads/a.png"), "uploads/a.png");
    assert_eq!(stored_image_path("///uploads//a.png"), "uploads//a.png");
    assert_eq!(stored_image_path("uploads/a.png/"), "uploads/a.png/");
    assert_eq!(stored_image_path("//"), "");
    assert_eq!(stored_image_path(""), "");
}

#[test]
fn empty_search_of_an_admin() {
    let statement = search_statement(&query(), "admin");
    assert_eq!(statement.sql, format!("{} ORDER BY m.created_at DESC LIMIT ?", SELECT));
    assert!(statement.binds.is_empty());
    assert_eq!(statement.limit, 80);
}

#[test]
fn empty_search_of_a_user_is_held_to_the_role() {
    let statement = search_statement(&query(), "beta");
    assert_eq!(
        statement.sql,
        format!(
            "{} AND (r.required_role = 'user' OR r.required_role = ?) ORDER BY m.created_at DESC LIMIT ?",
            SELECT
        )
    );
    assert_eq!(statement.binds, vec!["beta".to_string()]);
}

#[test]
fn full_search_binds_in_order() {
    let asked = SearchQuery {
        q: Some("  hello ".to_string()),
        author: Some("bob".to_string()),
        room_id: Some(" R1 ".to_string()),
        from: Some("2024-01-02".to_string()),
        to: Some(" 2024-02-03 ".to_string()),
        limit: Some(500),
    };
    let statement = search_statement(&asked, "beta");
    assert_eq!(
        statement.sql,
        format!(
            "{} AND (r.required_role = 'user' OR r.required_role = ?) AND m.room_id = ? AND m.content LIKE ? AND m.username LIKE ? AND m.created_at >= ? AND m.created_at <= ? ORDER BY m.created_at DESC LIMIT ?",
            SELECT
        )
    );
    assert_eq!(
        statement.binds,
        vec![
            "beta".to_string(),
            " R1 ".to_string(),
            "%hello%".to_string(),
            "%bob%".to_string(),
            "2024-01-02T00:00:00".to_string(),
            "2024-02-03T23:59:59".to_string(),
        ]
    );
    assert_eq!(statement.limit, 200);
}

#[test]
fn blank_filters_are_passed_over() {
    let asked = SearchQuery {
        q: Some("   ".to_string()),
        author: Some(String::new()),
        room_id: Some(String::new()),
        from: Some("\t".to_string()),
        to: None,
        limit: Some(3),
    };
    let statement = search_statement(&asked, "admin");
    assert_eq!(
        statement.sql,
        format!("{} AND m.room_id = ? ORDER BY m.created_at DESC LIMIT ?", SELECT)
    );
    assert_eq!(statement.binds, vec![String::new()]);
    assert_eq!(statement.limit, 3);
}
