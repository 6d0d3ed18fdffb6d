use furachat::auth::{authenticate, claims_at, create_token, validate_token};
use furachat::error::AppError;

const SECRET: &str = "un-secret-de-test";

fn unauthorized<T: std::fmt::Debug>(r: Result<T, AppError>) -> String {
    match r {
        Err(AppError::Unauthorized(m)) => m,
        other => panic!("unexpected {:?}", other),
    }
}

#[test]
fn claims_at_counts_from_now() {
    let c = claims_at("u1", "alice", 1_700_000_000, 3600).unwrap();
    assert_eq!(c.sub, "u1");
    assert_eq!(c.username, "alice");
    assert_eq!(c.iat, 1_700_000_000);
    assert_eq!(c.exp, 1_700_003_600);
}

#[test]
fn claims_at_refuses_an_undated_expiry() {
    assert!(claims_at("u1", "alice", 1_700_000_000, i64::MAX).is_none());
    assert!(claims_at("u1", "alice", 0, 8_210_266_876_800).is_none());
    assert!(claims_at("u1", "alice", 0, 8_210_266_876_799).is_some());
}

#[test]
fn a_token_reads_back_its_user() {
    let token = create_token("u1", "alice", SECRET, 3600).unwrap();
    assert_eq!(token.split('.').count(), 3);
    let c = validate_token(&token, SECRET).unwrap();
    assert_eq!(c.sub, "u1");
    assert_eq!(c.username, "alice");
    assert_eq!(c.exp, c.iat + 3600);
}

#[test]
fn another_secret_refuses_the_token() {
    let token = create_token("u1", "alice", SECRET, 3600).unwrap();
    let m = unauthorized(validate_token(&token, "un-autre-secret"));
    assert!(m.starts_with("Erreur JWT : "), "{}", m);
}

#[test]
fn an_expired_token_is_refused() {
    let token = create_token("u1", "alice", SECRET, -3600).unwrap();
    let m = unauthorized(validate_token(&token, SECRET));
    assert!(m.starts_with("Erreur JWT : "), "{}", m);
}

#[test]
fn garbage_is_refused() {
    let m = unauthorized(validate_token("pas.un.jeton", SECRET));
    assert!(m.starts_with("Erreur JWT : "), "{}", m);
}

#[test]
fn an_undated_expiry_is_an_internal_error() {
    match create_token("u1", "alice", SECRET, i64::MAX) {
        Err(AppError::Internal(m)) => {
            assert_eq!(m, "Erreur de création du token : date hors de portée")
        }
        other => panic!("unexpected {:?}", other),
    }
}

#[test]
fn authenticate_reads_the_bearer_token() {
    let token = create_token("u1", "alice", SECRET, 3600).unwrap();
    let header = format!("Bearer {}", token);
    let user = authenticate(Some(&header), SECRET).unwrap();
    assert_eq!(user.user_id, "u1");
    assert_eq!(user.username, "alice");
}

#[test]
fn authenticate_without_a_token() {
    assert_eq!(unauthorized(authenticate(None, SECRET)), "Token manquant");
    assert_eq!(unauthorized(authenticate(Some("Basic abc"), SECRET)), "Token manquant");
    let m = unauthorized(authenticate(Some("Bearer abc"), SECRET));
    assert!(m.starts_with("Erreur JWT : "), "{}", m);
}
