use furachat::archive::{archive_file_name, available_space, channels_to_archive, should_archive, ArchivedChannel, ArchivedMessage};
use furachat::config::{parse_signed_text, parse_unsigned_text, Config};
use furachat::invite::{
    check_invitation_usable, check_invitation_usable_now, expiry_after, expiry_from_now, generate_invite_code,
    Invitation,
};
use furachat::error::AppError;

#[test]
fn config_defaults() {
    let c = Config::from_values(None, None, None, None, None, None, None);
    assert_eq!(c.port, 8080);
    assert_eq!(c.host, "0.0.0.0");
    assert_eq!(c.data_dir, "data");
    assert_eq!(c.database_path, std::path::Path::new("data").join("furachat.db").to_string_lossy());
    assert_eq!(c.jwt_secret, "furachat-dev-secret-change-in-production");
    assert_eq!(c.jwt_expiration_seconds, 604800);
    assert_eq!(c.archive_threshold_bytes, 500 * 1024 * 1024);
    assert_eq!(c.max_upload_size, 50 * 1024 * 1024);
}

#[test]
fn config_values() {
    let c = Config::from_values(
        Some("/srv/fura"),
        Some("+9090"),
        Some("127.0.0.1"),
        Some("s3cret"),
        Some("-60"),
        Some("1000"),
        Some("oops"),
    );
    assert_eq!(c.port, 9090);
    assert_eq!(c.host, "127.0.0.1");
    assert_eq!(c.database_path, "/srv/fura/furachat.db");
    assert_eq!(c.jwt_secret, "s3cret");
    assert_eq!(c.jwt_expiration_seconds, -60);
    assert_eq!(c.archive_threshold_bytes, 1000);
    assert_eq!(c.max_upload_size, 50 * 1024 * 1024);
    let c = Config::from_values(None, Some("70000"), None, None, Some("x"), Some("-1"), Some(""));
    assert_eq!(c.port, 8080);
    assert_eq!(c.jwt_expiration_seconds, 604800);
    assert_eq!(c.archive_threshold_bytes, 500 * 1024 * 1024);
}

#[test]
fn number_reading_agrees_with_std() {
    let samples = [
        "", "+", "-", "0", "007", "+12", "-12", "1 2", " 1", "65535", "65536", "18446744073709551615",
        "18446744073709551616", "9223372036854775807", "9223372036854775808", "-9223372036854775808",
        "-9223372036854775809", "--1", "+-1", "-+1", "١٢", "12a",
    ];
    for s in samples {
        assert_eq!(parse_unsigned_text(s, u16::MAX as u64), s.parse::<u16>().ok().map(|v| v as u64), "u16 {:?}", s);
        assert_eq!(parse_unsigned_text(s, u64::MAX), s.parse::<u64>().ok(), "u64 {:?}", s);
        assert_eq!(parse_signed_text(s), s.parse::<i64>().ok(), "i64 {:?}", s);
    }
}

#[test]
fn archiving_rules() {
    assert!(should_archive(10, 10));
    assert!(should_archive(9, 10));
    assert!(!should_archive(11, 10));
    assert_eq!(available_space(1000, 4096), 4_096_000);
    assert_eq!(archive_file_name("2024-01-02_030405"), "archive_2024-01-02_030405.json");
    let msg = ArchivedMessage {
        id: "m".to_string(),
        author: "a".to_string(),
        content: "hi".to_string(),
        file: None,
        created_at: "t".to_string(),
    };
    let chans = vec![
        ArchivedChannel { id: "c1".to_string(), name: "one".to_string(), messages: vec![] },
        ArchivedChannel { id: "c2".to_string(), name: "two".to_string(), messages: vec![msg.clone()] },
        ArchivedChannel { id: "c3".to_string(), name: "three".to_string(), messages: vec![] },
        ArchivedChannel { id: "c4".to_string(), name: "four".to_string(), messages: vec![msg.clone(), msg] },
    ];
    let kept = channels_to_archive(chans);
    assert_eq!(kept.iter().map(|c| c.id.as_str()).collect::<Vec<_>>(), vec!["c2", "c4"]);
}

fn invite(expires_at: Option<&str>, max_uses: Option<i32>, use_count: i32) -> Invitation {
    Invitation {
        id: "i".to_string(),
        server_id: "s".to_string(),
        created_by: "u".to_string(),
        code: "abcdefgh".to_string(),
        expires_at: expires_at.map(|s| s.to_string()),
        max_uses,
        use_count,
        created_at: "2024-01-01 00:00:00".to_string(),
    }
}

fn bad_request(r: Result<(), AppError>) -> String {
    match r {
        Err(AppError::BadRequest(m)) => m,
        other => panic!("expected BadRequest, got {:?}", other),
    }
}

#[test]
fn invitation_usability() {
    // 2024-01-01 00:00:00 UTC
    let t = 1704067200;
    assert!(check_invitation_usable(&invite(None, None, 1000), t, 0).is_ok());
    assert!(check_invitation_usable(&invite(Some("2024-01-01 00:00:00"), None, 0), t, 0).is_ok());
    assert_eq!(
        bad_request(check_invitation_usable(&invite(Some("2024-01-01 00:00:00"), None, 0), t, 1)),
        "Cette invitation a expiré"
    );
    assert_eq!(
        bad_request(check_invitation_usable(&invite(Some("2023-12-31 23:59:59"), Some(1), 5), t, 0)),
        "Cette invitation a expiré"
    );
    assert!(check_invitation_usable(&invite(Some("not a date"), None, 0), t, 0).is_ok());
    assert!(check_invitation_usable(&invite(None, Some(3), 2), t, 0).is_ok());
    assert_eq!(
        bad_request(check_invitation_usable(&invite(None, Some(3), 3), t, 0)),
        "Cette invitation a atteint son nombre maximal d'utilisations"
    );
    assert!(check_invitation_usable_now(&invite(Some("2999-01-01 00:00:00"), None, 0)).is_ok());
    assert!(check_invitation_usable_now(&invite(Some("2000-01-01 00:00:00"), None, 0)).is_err());
    assert!(check_invitation_usable_now(&invite(None, Some(0), 0)).is_err());
}

#[test]
fn invitation_codes() {
    let charset = "abcdefghijklmnopqrstuvwxyzABCDEFGHIJKLMNOPQRSTUVWXYZ0123456789";
    let a = generate_invite_code();
    assert_eq!(a.chars().count(), 8);
    assert!(a.chars().all(|c| charset.contains(c)));
    let b = generate_invite_code();
    assert_ne!(a, b);
}

#[test]
fn expiry_texts() {
    assert_eq!(expiry_after(0, 0).as_deref(), Some("1970-01-01 00:00:00"));
    assert_eq!(expiry_after(1700000000, 3600).as_deref(), Some("2023-11-14 23:13:20"));
    assert_eq!(expiry_after(1704067200, -1).as_deref(), Some("2023-12-31 23:59:59"));
    assert_eq!(expiry_after(i64::MAX, 1), None);
    assert_eq!(expiry_after(i64::MAX, 0), None);
    assert_eq!(expiry_after(253402300799, 0).as_deref(), Some("9999-12-31 23:59:59"));
    assert_eq!(expiry_from_now(3600).map(|s| s.len()), Some(19));
}

#[test]
fn a_written_expiry_reads_back() {
    let created = 1704067200;
    let expires = expiry_after(created, 60).unwrap();
    let inv = invite(Some(&expires), None, 0);
    assert!(check_invitation_usable(&inv, created, 0).is_ok());
    assert!(check_invitation_usable(&inv, created + 60, 0).is_ok());
    assert_eq!(bad_request(check_invitation_usable(&inv, created + 60, 1)), "Cette invitation a expiré");
    assert_eq!(bad_request(check_invitation_usable(&inv, created + 61, 0)), "Cette invitation a expiré");
    let fresh = invite(Some(&expiry_from_now(3600).unwrap()), None, 0);
    assert!(check_invitation_usable_now(&fresh).is_ok());
    let stale = invite(Some(&expiry_from_now(-3600).unwrap()), None, 0);
    assert!(check_invitation_usable_now(&stale).is_err());
}

#[test]
fn retention_cutoff_is_a_day_ago() {
    let cutoff = furachat::archive::retention_cutoff().unwrap();
    let now = expiry_from_now(0).unwrap();
    assert_eq!(cutoff.len(), 19);
    assert!(cutoff < now);
    assert_eq!(furachat::archive::MESSAGE_RETENTION_SECONDS, 86400);
}

#[test]
fn database_path_is_the_data_dir_then_the_file() {
    let c = Config::from_values(Some("srv-data"), None, None, None, None, None, None);
    assert_eq!(c.database_path, format!("srv-data{}furachat.db", std::path::MAIN_SEPARATOR));
}

#[test]
fn every_dated_second_has_an_expiry_text() {
    assert!(expiry_after(0, 8210266876799).is_some());
    assert_eq!(expiry_after(0, 8210266876800), None);
    assert!(expiry_after(0, -8334601228800).is_some());
    assert_eq!(expiry_after(0, -8334601228801), None);
    assert!(expiry_from_now(-8334601228800).is_some());
}
