use furachat::auth::{bearer_token, Claims};
use furachat::error::AppError;
use furachat::user::{
    join, json_or_empty_object, login_outcome, profile_update_statement, validate_registration, User,
    UserRow,
};

fn bad_request(r: Result<(), AppError>) -> String {
    match r {
        Err(AppError::BadRequest(m)) => m,
        other => panic!("expected BadRequest, got {:?}", other),
    }
}

#[test]
fn registration_rules() {
    assert!(validate_registration("alice", "1234").is_ok());
    assert_eq!(bad_request(validate_registration("   ", "1234")), "Le pseudo doit faire entre 1 et 32 caractères");
    assert_eq!(bad_request(validate_registration("", "1234")), "Le pseudo doit faire entre 1 et 32 caractères");
    assert!(validate_registration(&"a".repeat(32), "1234").is_ok());
    assert!(validate_registration(&"a".repeat(33), "1234").is_err());
    assert!(validate_registration(&"é".repeat(17), "1234").is_err());
    assert!(validate_registration(&"é".repeat(16), "1234").is_ok());
    assert_eq!(bad_request(validate_registration("bob", "123")), "Le mot de passe doit faire au moins 4 caractères");
    assert!(validate_registration("bob", "éé").is_ok());
    assert!(validate_registration("\u{3000}\u{a0}\u{2009}\u{85}\t", "1234").is_err());
    assert!(validate_registration("\u{200b}", "1234").is_ok());
    assert!(validate_registration(" \u{3000}bob\u{2028} ", "1234").is_ok());
    assert!(validate_registration("   ", "1").is_err());
}

#[test]
fn login_failures_look_alike() {
    assert!(login_outcome(true, true).is_ok());
    for (found, valid) in [(false, false), (false, true), (true, false)] {
        match login_outcome(found, valid) {
            Err(AppError::Unauthorized(m)) => assert_eq!(m, "Pseudo ou mot de passe incorrect"),
            other => panic!("unexpected {:?}", other),
        }
    }
}

#[test]
fn profile_statements() {
    assert!(profile_update_statement("u1", None, None, None, None, None, None).is_none());
    let u = profile_update_statement("u1", Some("neo"), None, Some("busy"), None, None, Some("body{}")).unwrap();
    assert_eq!(
        u.sql,
        "UPDATE users SET username = ?, status_text = ?, custom_css = ?, updated_at = CURRENT_TIMESTAMP WHERE id = ?"
    );
    assert_eq!(u.params, vec!["neo", "busy", "body{}", "u1"]);
    let all = profile_update_statement("u", Some("a"), Some("b"), Some("c"), Some("d"), Some("{}"), Some("f")).unwrap();
    assert_eq!(
        all.sql,
        "UPDATE users SET username = ?, bio = ?, status_text = ?, status_emoji = ?, social_links = ?, custom_css = ?, updated_at = CURRENT_TIMESTAMP WHERE id = ?"
    );
    assert_eq!(all.params.len(), 7);
}

#[test]
fn joining_pieces() {
    assert_eq!(join(&vec![], ", "), "");
    assert_eq!(join(&vec!["a"], ", "), "a");
    assert_eq!(join(&vec!["a", "b", "c"], "-"), "a-b-c");
}

#[test]
fn bearer_tokens() {
    assert_eq!(bearer_token(Some("Bearer abc.def")).unwrap(), "abc.def");
    assert_eq!(bearer_token(Some("Bearer ")).unwrap(), "");
    for h in [None, Some("bearer abc"), Some("Basic abc"), Some("Bearer")] {
        match bearer_token(h) {
            Err(AppError::Unauthorized(m)) => assert_eq!(m, "Token manquant"),
            other => panic!("unexpected {:?}", other),
        }
    }
}

#[test]
fn claims_name_the_user() {
    let c = Claims { sub: "u1".to_string(), username: "alice".to_string(), exp: 10, iat: 5 };
    let u = c.auth_user();
    assert_eq!(u.user_id, "u1");
    assert_eq!(u.username, "alice");
}

fn row(social_links: &str) -> UserRow {
    UserRow {
        id: "u1".to_string(),
        username: "alice".to_string(),
        password_hash: "$argon2id$secret".to_string(),
        avatar_path: Some("avatars/u1.png".to_string()),
        banner_path: None,
        bio: "bonjour".to_string(),
        status_text: "ici".to_string(),
        status_emoji: ":)".to_string(),
        custom_css: "".to_string(),
        social_links: social_links.to_string(),
        created_at: "2024-01-01 10:00:00".to_string(),
        updated_at: "2024-01-02 10:00:00".to_string(),
    }
}

#[test]
fn public_user_keeps_the_row_without_its_hash() {
    let u = User::from_row(row("{\"site\":\"https://example.org\"}"));
    assert_eq!(u.id, "u1");
    assert_eq!(u.username, "alice");
    assert_eq!(u.avatar_path.as_deref(), Some("avatars/u1.png"));
    assert_eq!(u.banner_path, None);
    assert_eq!(u.bio, "bonjour");
    assert_eq!(u.status_text, "ici");
    assert_eq!(u.status_emoji, ":)");
    assert_eq!(u.social_links, "{\"site\":\"https://example.org\"}");
    assert_eq!(u.created_at, "2024-01-01 10:00:00");
    assert_eq!(u.updated_at, "2024-01-02 10:00:00");
}

#[test]
fn broken_social_links_become_an_empty_object() {
    assert_eq!(User::from_row(row("not json")).social_links, "{}");
    assert_eq!(User::from_row(row("")).social_links, "{}");
    assert_eq!(json_or_empty_object("[1, 2]"), "[1, 2]");
    assert_eq!(json_or_empty_object("{\"send_messages\": true}"), "{\"send_messages\": true}");
    assert_eq!(json_or_empty_object("{"), "{}");
}

#[test]
fn values_never_enter_the_sql() {
    let plain = profile_update_statement("u1", Some("neo"), Some("hello"), None, None, None, None).unwrap();
    let hostile = profile_update_statement(
        "u1'; DROP TABLE users; --",
        Some("x', password_hash = 'y"),
        Some("?"),
        None,
        None,
        None,
        None,
    )
    .unwrap();
    assert_eq!(plain.sql, hostile.sql);
    assert_eq!(hostile.params, vec!["x', password_hash = 'y", "?", "u1'; DROP TABLE users; --"]);
    assert_eq!(plain.sql.matches('?').count(), plain.params.len());
}
