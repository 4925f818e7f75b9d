use chat_hub::auth::{
    account_with, check_login, check_new_role, check_proxy_request, check_registration, claims_for,
    configured_or, deletable_role, discord_avatar_url, discord_expiry, fallback_username, is_admin,
    merged_avatar, needs_refresh, new_account, preferred_discord_username, profile_statement,
    profile_statement_with, public_oauth_config, required_setting, resolve_redirect_uri,
    token_expiry, username_candidate, AuthPayload, CreateServerRole, DiscordProxyPayload,
    DiscordUser, LoginError, ProfileValue, ProxyError, ProxyMethod, RedirectError, RoleError,
    UpdateProfile,
};

fn payload(username: &str, password: &str) -> AuthPayload {
    AuthPayload { username: username.to_string(), password: password.to_string() }
}

fn discord(username: &str, global_name: Option<&str>, avatar: Option<&str>) -> DiscordUser {
    DiscordUser {
        id: "42".to_string(),
        username: username.to_string(),
        global_name: global_name.map(|s| s.to_string()),
        avatar: avatar.map(|s| s.to_string()),
    }
}

fn no_changes() -> UpdateProfile {
    UpdateProfile {
        username: None,
        about: None,
        avatar_color: None,
        password: None,
        avatar_url: None,
        banner_url: None,
    }
}

fn text(value: &ProfileValue) -> &str {
    match value {
        ProfileValue::Text(text) => text,
        ProfileValue::Number(_) => panic!("a text was expected"),
    }
}

#[test]
fn token_lives_seven_days() {
    assert_eq!(token_expiry(0), Some(604_800));
    assert_eq!(token_expiry(1_700_000_000), Some(1_700_604_800));
    assert_eq!(token_expiry(-1), None);
    assert_eq!(token_expiry(i64::MAX), None);
    assert_eq!(token_expiry(i64::MAX - 604_800), Some((i64::MAX) as usize));
    assert_eq!(token_expiry(i64::MAX - 604_799), None);
    let claims = claims_for("u1", "Ann", "beta", 1000).expect("the time is in range");
    assert_eq!(claims.sub, "u1");
    assert_eq!(claims.username, "Ann");
    assert_eq!(claims.role, "beta");
    assert_eq!(claims.exp, 605_800);
    assert!(claims_for("u1", "Ann", "beta", -5).is_none());
}

#[test]
fn admin_is_told_by_the_role() {
    assert!(is_admin(&claims_for("u", "n", "admin", 0).unwrap()));
    assert!(!is_admin(&claims_for("u", "n", "Admin", 0).unwrap()));
    assert!(!is_admin(&claims_for("u", "n", "user", 0).unwrap()));
}

#[test]
fn registration_needs_a_name_and_four_bytes_of_password() {
    assert_eq!(check_registration(&payload("  ann ", "abcd")), Some("ann".to_string()));
    assert_eq!(check_registration(&payload("ann", "abc")), None);
    assert_eq!(check_registration(&payload("   ", "abcdef")), None);
    assert_eq!(check_registration(&payload("", "abcdef")), None);
    assert_eq!(check_registration(&payload("ann", "\u{e9}\u{e9}")), Some("ann".to_string()));
    assert_eq!(check_registration(&payload("a b", "    ")), Some("a b".to_string()));
}

#[test]
fn new_account_is_a_plain_user_with_a_hashed_password() {
    let account = new_account("ann".to_string(), "s3cret").expect("hashing works");
    assert_eq!(account.username, "ann");
    assert_eq!(account.role, "user");
    assert_eq!(account.id.len(), 36);
    assert_ne!(account.password_hash, "s3cret");
    assert_eq!(check_login("s3cret", Some(&account.password_hash)), Ok(()));
    assert_eq!(check_login("S3cret", Some(&account.password_hash)), Err(LoginError::InvalidPassword));
}

#[test]
fn sign_in_is_decided_by_the_stored_hash() {
    assert_eq!(check_login("pw", None), Err(LoginError::UserNotFound));
    assert_eq!(check_login("pw", Some("not a hash")), Err(LoginError::InvalidPassword));
    assert_eq!(check_login("pw", Some("pw")), Err(LoginError::InvalidPassword));
    let known = "$2b$04$EGdrhbKUv8Oc9vGiXX0HQOxSg445d458Muh7DAHskb6QbtCvdxcie";
    assert_eq!(check_login("correctbatteryhorsestapler", Some(known)), Ok(()));
    assert_eq!(check_login("wrong", Some(known)), Err(LoginError::InvalidPassword));
}

#[test]
fn role_is_stored_trimmed_and_lowered() {
    let body = CreateServerRole { name: "  Beta_Testers-1 ".to_string(), color: None };
    let role = check_new_role(&body).expect("the role is acceptable");
    assert_eq!(role.name, "beta_testers-1");
    assert_eq!(role.color, "#99aab5");
    let body = CreateServerRole { name: "mods".to_string(), color: Some(" #A1b2C3 ".to_string()) };
    let role = check_new_role(&body).expect("the role is acceptable");
    assert_eq!(role.color, "#A1b2C3");
}

#[test]
fn role_name_is_from_2_to_24_bytes() {
    let role = |name: &str| check_new_role(&CreateServerRole { name: name.to_string(), color: None });
    assert!(matches!(role("a"), Err(RoleError::NameLength)));
    assert!(matches!(role(""), Err(RoleError::NameLength)));
    assert!(matches!(role("  a  "), Err(RoleError::NameLength)));
    assert!(role("ab").is_ok());
    assert!(role(&"x".repeat(24)).is_ok());
    assert!(matches!(role(&"x".repeat(25)), Err(RoleError::NameLength)));
    assert!(matches!(role("\u{e9}"), Err(RoleError::NameCharacters)));
}

#[test]
fn role_name_is_plain() {
    let role = |name: &str| check_new_role(&CreateServerRole { name: name.to_string(), color: None });
    assert!(matches!(role("with space"), Err(RoleError::NameCharacters)));
    assert!(matches!(role("dot.ted"), Err(RoleError::NameCharacters)));
    assert!(matches!(role("caf\u{e9}"), Err(RoleError::NameCharacters)));
    assert!(role("a_b-9").is_ok());
}

#[test]
fn role_colour_is_a_hash_and_six_hex_digits() {
    let role = |color: &str| {
        check_new_role(&CreateServerRole { name: "mods".to_string(), color: Some(color.to_string()) })
    };
    assert!(role("#000000").is_ok());
    assert!(role("#abcdef").is_ok());
    assert!(role("#ABCDEF").is_ok());
    assert!(matches!(role("#12345"), Err(RoleError::Color)));
    assert!(matches!(role("#1234567"), Err(RoleError::Color)));
    assert!(matches!(role("1234567"), Err(RoleError::Color)));
    assert!(matches!(role("#12345g"), Err(RoleError::Color)));
    assert!(matches!(role(""), Err(RoleError::Color)));
    assert!(matches!(role("#\u{e9}1234"), Err(RoleError::Color)));
    let both_wrong = CreateServerRole { name: "x".to_string(), color: Some("red".to_string()) };
    assert!(matches!(check_new_role(&both_wrong), Err(RoleError::NameLength)));
}

#[test]
fn admin_and_user_cannot_be_deleted() {
    assert_eq!(deletable_role("admin"), None);
    assert_eq!(deletable_role(" User "), None);
    assert_eq!(deletable_role("ADMIN"), None);
    assert_eq!(deletable_role(" Beta "), Some("beta".to_string()));
    assert_eq!(deletable_role("administrator"), Some("administrator".to_string()));
}

#[test]
fn discord_user_is_known_by_the_global_name() {
    assert_eq!(preferred_discord_username(&discord("ann", Some(" Ann B ") , None)), "Ann B");
    assert_eq!(preferred_discord_username(&discord(" ann ", None, None)), "ann");
    assert_eq!(preferred_discord_username(&discord("ann", Some("   "), None)), "discord-user");
    assert_eq!(preferred_discord_username(&discord("", None, None)), "discord-user");
}

#[test]
fn avatar_address_is_built_from_the_hash() {
    assert_eq!(
        discord_avatar_url("https://cdn.discordapp.com", &discord("ann", None, Some("abc123"))),
        Some("https://cdn.discordapp.com/avatars/42/abc123.png?size=256".to_string())
    );
    assert_eq!(discord_avatar_url("https://cdn.discordapp.com", &discord("ann", None, None)), None);
}

#[test]
fn candidates_count_up() {
    assert_eq!(username_candidate(" ann ", 0), Some("ann".to_string()));
    assert_eq!(username_candidate(" ann ", 1), Some("ann-1".to_string()));
    assert_eq!(username_candidate("ann", 10), Some("ann-10".to_string()));
    assert_eq!(username_candidate("ann", 109), Some("ann-109".to_string()));
    assert_eq!(username_candidate("ann", 149), Some("ann-149".to_string()));
    assert_eq!(username_candidate("ann", 150), None);
    assert_eq!(username_candidate("ann", u32::MAX), None);
    assert_eq!(username_candidate("  ", 0), Some("discord-user".to_string()));
    assert_eq!(username_candidate("", 7), Some("discord-user-7".to_string()));
}

#[test]
fn fallback_name_is_random() {
    let first = fallback_username();
    let second = fallback_username();
    assert!(first.starts_with("discord-"));
    assert_eq!(first.len(), "discord-".len() + 32);
    assert!(first["discord-".len()..].chars().all(|c| c.is_ascii_hexdigit()));
    assert_ne!(first, second);
}

#[test]
fn settings_and_their_defaults() {
    assert_eq!(configured_or(Some("x".to_string()), "d"), "x");
    assert_eq!(configured_or(Some(String::new()), "d"), "");
    assert_eq!(configured_or(None, "d"), "d");
    assert_eq!(required_setting(Some(" x ".to_string())), Some(" x ".to_string()));
    assert_eq!(required_setting(Some("  ".to_string())), None);
    assert_eq!(required_setting(None), None);
}

#[test]
fn public_config_needs_client_id_and_return_address() {
    let config = public_oauth_config(
        Some("client".to_string()),
        Some("http://localhost/cb".to_string()),
        None,
        None,
        None,
        None,
    )
    .expect("both are configured");
    assert_eq!(config.client_id, "client");
    assert_eq!(config.redirect_uri, "http://localhost/cb");
    assert_eq!(config.authorize_base_url, "https://discord.com/oauth2/authorize");
    assert_eq!(config.scope, "identify email guilds");
    assert_eq!(config.response_type, "code");
    assert_eq!(config.prompt, "consent");
    let config = public_oauth_config(
        Some("client".to_string()),
        Some("cb".to_string()),
        Some("https://example.test/auth".to_string()),
        Some("identify".to_string()),
        Some("token".to_string()),
        Some("none".to_string()),
    )
    .expect("both are configured");
    assert_eq!(config.authorize_base_url, "https://example.test/auth");
    assert_eq!(config.scope, "identify");
    assert_eq!(config.response_type, "token");
    assert_eq!(config.prompt, "none");
    assert!(public_oauth_config(None, Some("cb".to_string()), None, None, None, None).is_none());
    assert!(public_oauth_config(Some(" ".to_string()), Some("cb".to_string()), None, None, None, None).is_none());
    assert!(public_oauth_config(Some("c".to_string()), None, None, None, None, None).is_none());
    assert!(public_oauth_config(Some("c".to_string()), Some("".to_string()), None, None, None, None).is_none());
}

#[test]
fn avatar_of_discord_stands_before_the_stored_one() {
    assert_eq!(merged_avatar(Some("new".to_string()), Some("old".to_string())), Some("new".to_string()));
    assert_eq!(merged_avatar(None, Some("old".to_string())), Some("old".to_string()));
    assert_eq!(merged_avatar(None, None), None);
}

#[test]
fn token_is_renewed_thirty_seconds_before_expiry() {
    assert!(needs_refresh(true, Some("r"), Some(1030), 1000, "id", "secret"));
    assert!(!needs_refresh(true, Some("r"), Some(1031), 1000, "id", "secret"));
    assert!(needs_refresh(true, Some("r"), None, 1000, "id", "secret"));
    assert!(!needs_refresh(true, Some("r"), None, -31, "id", "secret"));
    assert!(needs_refresh(true, Some("r"), None, -30, "id", "secret"));
    assert!(!needs_refresh(false, Some("r"), Some(0), 1000, "id", "secret"));
    assert!(!needs_refresh(true, None, Some(0), 1000, "id", "secret"));
    assert!(!needs_refresh(true, Some("r"), Some(0), 1000, "", "secret"));
    assert!(!needs_refresh(true, Some("r"), Some(0), 1000, "id", ""));
    assert!(needs_refresh(true, Some("r"), Some(i64::MAX), i64::MAX, "id", "secret"));
    assert!(needs_refresh(true, Some("r"), Some(i64::MAX), i64::MAX - 30, "id", "secret"));
    assert!(!needs_refresh(true, Some("r"), Some(i64::MAX), i64::MAX - 31, "id", "secret"));
}

#[test]
fn discord_expiry_is_now_plus_lifetime() {
    assert_eq!(discord_expiry(1000, 3600), Some(4600));
    assert_eq!(discord_expiry(1000, -2000), Some(-1000));
    assert_eq!(discord_expiry(i64::MAX, 1), None);
    assert_eq!(discord_expiry(i64::MIN, -1), None);
}

#[test]
fn proxied_path_stays_on_the_host() {
    let check = |path: &str, method: Option<&str>| {
        check_proxy_request(&DiscordProxyPayload {
            method: method.map(|m| m.to_string()),
            path: path.to_string(),
            body: None,
        })
    };
    let ok = check("  /users/@me ", None).expect("the request is acceptable");
    assert_eq!(ok.path, "/users/@me");
    assert_eq!(ok.method, ProxyMethod::Get);
    assert!(matches!(check("", None), Err(ProxyError::InvalidPath)));
    assert!(matches!(check("users/@me", None), Err(ProxyError::InvalidPath)));
    assert!(matches!(check("//evil.test/x", None), Err(ProxyError::InvalidPath)));
    assert!(matches!(check("/http://evil.test", None), Err(ProxyError::InvalidPath)));
    assert!(matches!(check("/https", None), Err(ProxyError::InvalidPath)));
    assert!(matches!(check("   ", Some("BREW")), Err(ProxyError::InvalidPath)));
    assert!(check("/HTTP", None).is_ok());
    assert!(check("/", None).is_ok());
}

#[test]
fn proxied_method_is_one_of_five() {
    let check = |method: &str| {
        check_proxy_request(&DiscordProxyPayload {
            method: Some(method.to_string()),
            path: "/x".to_string(),
            body: None,
        })
        .map(|request| request.method)
    };
    assert_eq!(check("get"), Ok(ProxyMethod::Get));
    assert_eq!(check(" Post "), Ok(ProxyMethod::Post));
    assert_eq!(check("PUT"), Ok(ProxyMethod::Put));
    assert_eq!(check("patch"), Ok(ProxyMethod::Patch));
    assert_eq!(check("dElEtE"), Ok(ProxyMethod::Delete));
    assert_eq!(check("HEAD"), Err(ProxyError::MethodNotAllowed));
    assert_eq!(check(""), Err(ProxyError::MethodNotAllowed));
    assert_eq!(check("GET POST"), Err(ProxyError::MethodNotAllowed));
}

#[test]
fn return_address_of_the_request_stands_first() {
    assert_eq!(resolve_redirect_uri(Some(" http://a/cb "), None), Ok("http://a/cb".to_string()));
    assert_eq!(resolve_redirect_uri(None, Some("http://a/cb")), Ok("http://a/cb".to_string()));
    assert_eq!(resolve_redirect_uri(Some("http://a/cb"), Some(" http://a/cb ")), Ok("http://a/cb".to_string()));
    assert_eq!(resolve_redirect_uri(Some("http://b/cb"), Some("http://a/cb")), Err(RedirectError::Mismatch));
    assert_eq!(resolve_redirect_uri(None, None), Err(RedirectError::Missing));
    assert_eq!(resolve_redirect_uri(Some("  "), Some("http://a/cb")), Err(RedirectError::Missing));
    assert_eq!(resolve_redirect_uri(None, Some("")), Err(RedirectError::Missing));
}

#[test]
fn profile_without_changes_has_no_statement() {
    assert!(profile_statement_with(&no_changes(), "u1", None).is_none());
    let mut blank_name = no_changes();
    blank_name.username = Some("   ".to_string());
    assert!(profile_statement_with(&blank_name, "u1", None).is_none());
    let mut short_password = no_changes();
    short_password.password = Some("abc".to_string());
    assert!(matches!(profile_statement(&short_password, "u1"), Ok(None)));
}

#[test]
fn profile_statement_names_the_columns_in_order() {
    let body = UpdateProfile {
        username: Some("  Ann ".to_string()),
        about: Some(String::new()),
        avatar_color: Some(-3),
        password: Some("ignored here".to_string()),
        avatar_url: Some("/uploads/a.png".to_string()),
        banner_url: Some("/uploads/b.png".to_string()),
    };
    let statement = profile_statement_with(&body, "u1", Some("HASH".to_string())).expect("there are changes");
    assert_eq!(
        statement.sql,
        "UPDATE users SET username = ?, about = ?, avatar_color = ?, password_hash = ?, avatar_url = ?, banner_url = ? WHERE id = ?"
    );
    assert_eq!(statement.binds.len(), 7);
    assert_eq!(text(&statement.binds[0]), "Ann");
    assert_eq!(text(&statement.binds[1]), "");
    assert!(matches!(statement.binds[2], ProfileValue::Number(-3)));
    assert_eq!(text(&statement.binds[3]), "HASH");
    assert_eq!(text(&statement.binds[4]), "/uploads/a.png");
    assert_eq!(text(&statement.binds[5]), "/uploads/b.png");
    assert_eq!(text(&statement.binds[6]), "u1");
}

#[test]
fn profile_statement_with_one_column() {
    let mut body = no_changes();
    body.avatar_color = Some(5);
    let statement = profile_statement_with(&body, "u9", None).expect("there are changes");
    assert_eq!(statement.sql, "UPDATE users SET avatar_color = ? WHERE id = ?");
    assert_eq!(statement.binds.len(), 2);
    assert!(matches!(statement.binds[0], ProfileValue::Number(5)));
    assert_eq!(text(&statement.binds[1]), "u9");
}

#[test]
fn new_password_is_stored_hashed() {
    let mut body = no_changes();
    body.password = Some("abcd".to_string());
    let statement = profile_statement(&body, "u1").expect("hashing works").expect("there are changes");
    assert_eq!(statement.sql, "UPDATE users SET password_hash = ? WHERE id = ?");
    assert_eq!(statement.binds.len(), 2);
    assert_ne!(text(&statement.binds[0]), "abcd");
    assert_eq!(check_login("abcd", Some(text(&statement.binds[0]))), Ok(()));
    assert_eq!(text(&statement.binds[1]), "u1");
}

#[test]
fn account_is_made_of_the_id_and_hash_handed_in() {
    let account = account_with("ann".to_string(), "id-1".to_string(), Some("HASH".to_string()))
        .expect("there is a hash");
    assert_eq!(account.id, "id-1");
    assert_eq!(account.username, "ann");
    assert_eq!(account.password_hash, "HASH");
    assert_eq!(account.role, "user");
    assert!(account_with("ann".to_string(), "id-1".to_string(), None).is_none());
}
