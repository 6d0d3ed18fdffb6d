use furachat::error::AppError;
use furachat::password::{hash_password, verify_password};

#[test]
fn a_hashed_password_verifies() {
    let hash = hash_password("hunter22").unwrap();
    assert!(hash.starts_with("$argon2id$"));
    assert_eq!(verify_password("hunter22", &hash).unwrap(), true);
    assert_eq!(verify_password("hunter23", &hash).unwrap(), false);
    assert_eq!(verify_password("", &hash).unwrap(), false);
}

#[test]
fn each_hash_has_its_own_salt() {
    let a = hash_password("même mot de passe").unwrap();
    let b = hash_password("même mot de passe").unwrap();
    assert_ne!(a, b);
    assert!(verify_password("même mot de passe", &a).unwrap());
    assert!(verify_password("même mot de passe", &b).unwrap());
}

#[test]
fn a_stored_text_that_is_no_hash_is_an_internal_error() {
    match verify_password("x", "not a hash") {
        Err(AppError::Internal(m)) => assert_eq!(m, "Hash de mot de passe invalide"),
        other => panic!("expected Internal, got {:?}", other),
    }
}

#[test]
fn hashing_never_fails_on_an_ordinary_password() {
    for pw in ["", "a", "mot de passe très long et accentué ÉÀÇ", "🔒🔑"] {
        let hash = hash_password(pw).unwrap();
        assert!(verify_password(pw, &hash).unwrap());
    }
}
