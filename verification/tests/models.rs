use furachat::channel::{validate_channel_type, ChannelType};
use furachat::error::AppError;
use furachat::message::{check_message_author, effective_message_limit, group_reactions};
use furachat::server::{
    check_can_leave, check_friend_request, check_not_banned, check_role_deletable, check_sticker_deleted,
    validate_server_name,
};

#[test]
fn channel_type_names_round_trip() {
    let all = [
        ChannelType::Text,
        ChannelType::Voice,
        ChannelType::Video,
        ChannelType::Screen,
        ChannelType::Forum,
        ChannelType::Announcement,
        ChannelType::Nsfw,
    ];
    let names = ["text", "voice", "video", "screen", "forum", "announcement", "nsfw"];
    for (t, n) in all.iter().zip(names.iter()) {
        assert_eq!(t.as_str(), *n);
        assert_eq!(ChannelType::from_str(n), Some(*t));
        assert_eq!(ChannelType::from_str(t.as_str()), Some(*t));
    }
    assert_eq!(ChannelType::from_str("Text"), None);
    assert_eq!(ChannelType::from_str(""), None);
}

#[test]
fn channel_type_validation() {
    assert!(validate_channel_type("forum").is_ok());
    match validate_channel_type("stage") {
        Err(AppError::BadRequest(m)) => assert_eq!(m, "Type de salon invalide : stage"),
        other => panic!("unexpected {:?}", other),
    }
}

fn rows(v: &[(&str, &str)]) -> Vec<(String, String)> {
    v.iter().map(|(e, u)| (e.to_string(), u.to_string())).collect()
}

#[test]
fn reactions_group_by_emoji_in_order() {
    let r = group_reactions(&rows(&[("👍", "a"), ("❤", "b"), ("👍", "c"), ("😂", "a"), ("❤", "a")]));
    assert_eq!(r.len(), 3);
    assert_eq!(r[0].emoji, "👍");
    assert_eq!(r[0].users, vec!["a".to_string(), "c".to_string()]);
    assert_eq!(r[1].emoji, "❤");
    assert_eq!(r[1].users, vec!["b".to_string(), "a".to_string()]);
    assert_eq!(r[2].emoji, "😂");
    assert_eq!(r[2].users, vec!["a".to_string()]);
    let total: usize = r.iter().map(|x| x.users.len()).sum();
    assert_eq!(total, 5);
    assert!(group_reactions(&[]).is_empty());
}

#[test]
fn message_page_size() {
    assert_eq!(effective_message_limit(None), 50);
    assert_eq!(effective_message_limit(Some(20)), 20);
    assert_eq!(effective_message_limit(Some(100)), 100);
    assert_eq!(effective_message_limit(Some(500)), 100);
    assert_eq!(effective_message_limit(Some(-3)), -3);
}

fn bad_request(r: Result<(), AppError>) -> String {
    match r {
        Err(AppError::BadRequest(m)) => m,
        other => panic!("expected BadRequest, got {:?}", other),
    }
}

#[test]
fn server_rules() {
    assert!(validate_server_name(" Gaming ").is_ok());
    assert_eq!(bad_request(validate_server_name(" \t\n")), "Le nom du serveur ne peut pas être vide");
    assert_eq!(bad_request(validate_server_name("")), "Le nom du serveur ne peut pas être vide");
    assert_eq!(bad_request(validate_server_name("\u{1680}\u{205f}\u{202f}")), "Le nom du serveur ne peut pas être vide");
    assert!(check_can_leave(false).is_ok());
    assert_eq!(
        bad_request(check_can_leave(true)),
        "Le propriétaire ne peut pas quitter son serveur (supprimez-le à la place)"
    );
    assert!(check_role_deletable(false).is_ok());
    assert_eq!(bad_request(check_role_deletable(true)), "Impossible de supprimer le rôle @everyone");
    assert!(check_not_banned(false).is_ok());
    match check_not_banned(true) {
        Err(AppError::Forbidden(m)) => assert_eq!(m, "Vous êtes banni de ce serveur"),
        other => panic!("unexpected {:?}", other),
    }
    assert!(check_friend_request("a", "b").is_ok());
    assert_eq!(bad_request(check_friend_request("a", "a")), "Impossible de s'ajouter soi-même en ami");
    assert!(check_sticker_deleted(1).is_ok());
    match check_sticker_deleted(0) {
        Err(AppError::NotFound(m)) => assert_eq!(m, "Sticker introuvable ou non autorisé"),
        other => panic!("unexpected {:?}", other),
    }
}

#[test]
fn only_the_author_changes_a_message() {
    assert!(check_message_author(Some("u1"), "u1").is_ok());
    assert_eq!(check_message_author(Some("u2"), "u1"), Err((403, "Non autorisé".to_string())));
    assert_eq!(check_message_author(None, "u1"), Err((403, "Non autorisé".to_string())));
    assert!(check_message_author(Some(""), "u1").is_err());
}
