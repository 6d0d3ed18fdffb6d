use furachat::error::AppError;
use furachat::text::{concat3, decimal_string, str_eq};

#[test]
fn status_codes_follow_the_error_kind() {
    let cases = [
        (AppError::Unauthorized("a".to_string()), 401),
        (AppError::Forbidden("a".to_string()), 403),
        (AppError::NotFound("a".to_string()), 404),
        (AppError::BadRequest("a".to_string()), 400),
        (AppError::Conflict("a".to_string()), 409),
        (AppError::Internal("a".to_string()), 500),
        (AppError::Database("a".to_string()), 500),
    ];
    for (e, code) in cases.iter() {
        assert_eq!(e.status_code(), *code);
        assert_eq!(e.message(), "a");
    }
}

#[test]
fn display_form_prefixes_the_message() {
    assert_eq!(AppError::Unauthorized("x".to_string()).to_string(), "Non autorisé : x");
    assert_eq!(AppError::Forbidden("x".to_string()).to_string(), "Accès refusé : x");
    assert_eq!(AppError::NotFound("x".to_string()).to_string(), "Introuvable : x");
    assert_eq!(AppError::BadRequest("x".to_string()).to_string(), "Requête invalide : x");
    assert_eq!(AppError::Conflict("x".to_string()).to_string(), "Conflit : x");
    assert_eq!(AppError::Internal("x".to_string()).to_string(), "Erreur interne : x");
    assert_eq!(AppError::Database("x".to_string()).to_string(), "Erreur base de données : x");
}

#[test]
fn decimal_rendering() {
    assert_eq!(decimal_string(0), "0");
    assert_eq!(decimal_string(7), "7");
    assert_eq!(decimal_string(10), "10");
    assert_eq!(decimal_string(1234509), "1234509");
    assert_eq!(decimal_string(u64::MAX), u64::MAX.to_string());
}

#[test]
fn text_helpers() {
    assert!(str_eq("héllo", "héllo"));
    assert!(!str_eq("a", "b"));
    assert!(!str_eq("a", "ab"));
    assert_eq!(concat3("é", "b", ""), "éb");
}
