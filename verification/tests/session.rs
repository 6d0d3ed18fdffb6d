use furachat::session::{ConnectionState, Frame, SessionAction};

#[test]
fn first_frame_must_authenticate() {
    let (st, act) = ConnectionState::new().on_frame(Frame::Event);
    assert!(matches!(st, ConnectionState::Closed));
    match act {
        SessionAction::Reject { message } => assert_eq!(message, "Authentification requise"),
        other => panic!("unexpected {:?}", other),
    }
}

#[test]
fn malformed_or_closing_first_frame_ends_quietly() {
    for f in [Frame::Malformed { reason: "x".to_string() }, Frame::Close, Frame::Other, Frame::End] {
        let (st, act) = ConnectionState::new().on_frame(f);
        assert!(matches!(st, ConnectionState::Closed));
        assert!(matches!(act, SessionAction::Stop { unregister: false }));
    }
}

#[test]
fn full_session() {
    let (st, act) = ConnectionState::new().on_frame(Frame::Auth { token: "tok".to_string() });
    assert!(matches!(st, ConnectionState::Validating));
    match act {
        SessionAction::ValidateToken { token } => assert_eq!(token, "tok"),
        other => panic!("unexpected {:?}", other),
    }
    let (st, act) = st.on_token_checked(Some(("u1".to_string(), "alice".to_string())));
    match act {
        SessionAction::Register { user_id } => assert_eq!(user_id, "u1"),
        other => panic!("unexpected {:?}", other),
    }
    let (st, act) = st.on_initial_data(true);
    assert!(matches!(act, SessionAction::SendAuthOk));
    match &st {
        ConnectionState::Open { user_id, username } => {
            assert_eq!(user_id, "u1");
            assert_eq!(username, "alice");
        }
        other => panic!("unexpected {:?}", other),
    }
    let (st, act) = st.on_frame(Frame::Event);
    assert!(matches!(act, SessionAction::Dispatch));
    let (st, act) = st.on_frame(Frame::Malformed { reason: "missing field".to_string() });
    match act {
        SessionAction::SendError { code, message } => {
            assert_eq!(code, 400);
            assert_eq!(message, "Événement invalide : missing field");
        }
        other => panic!("unexpected {:?}", other),
    }
    let (st, act) = st.on_frame(Frame::Other);
    assert!(matches!(act, SessionAction::Ignore));
    let (st, act) = st.on_frame(Frame::Auth { token: "again".to_string() });
    assert!(matches!(act, SessionAction::Ignore));
    let (st, act) = st.on_frame(Frame::Close);
    assert!(matches!(act, SessionAction::Stop { unregister: true }));
    let (st, act) = st.on_frame(Frame::Event);
    assert!(matches!(st, ConnectionState::Closed));
    assert!(matches!(act, SessionAction::Stop { unregister: false }));
}

#[test]
fn invalid_token_is_rejected() {
    let (st, _) = ConnectionState::new().on_frame(Frame::Auth { token: "bad".to_string() });
    let (st, act) = st.on_token_checked(None);
    assert!(matches!(st, ConnectionState::Closed));
    match act {
        SessionAction::Reject { message } => assert_eq!(message, "Token invalide"),
        other => panic!("unexpected {:?}", other),
    }
}

#[test]
fn unreachable_database_rejects_after_registration() {
    let (st, _) = ConnectionState::new().on_frame(Frame::Auth { token: "t".to_string() });
    let (st, _) = st.on_token_checked(Some(("u".to_string(), "n".to_string())));
    let (st, act) = st.on_initial_data(false);
    assert!(matches!(st, ConnectionState::Closed));
    match act {
        SessionAction::Reject { message } => assert_eq!(message, "Erreur de base de données"),
        other => panic!("unexpected {:?}", other),
    }
}

#[test]
fn stream_end_unregisters_an_open_connection() {
    let (st, _) = ConnectionState::new().on_frame(Frame::Auth { token: "t".to_string() });
    let (st, _) = st.on_token_checked(Some(("u".to_string(), "n".to_string())));
    let (st, _) = st.on_initial_data(true);
    let (st, act) = st.on_frame(Frame::End);
    assert!(matches!(st, ConnectionState::Closed));
    assert!(matches!(act, SessionAction::Stop { unregister: true }));
}

#[test]
fn out_of_order_reports_are_ignored() {
    let (st, act) = ConnectionState::new().on_token_checked(None);
    assert!(matches!(st, ConnectionState::AwaitingAuth));
    assert!(matches!(act, SessionAction::Ignore));
    let (st, act) = st.on_initial_data(true);
    assert!(matches!(st, ConnectionState::AwaitingAuth));
    assert!(matches!(act, SessionAction::Ignore));
}

#[test]
fn empty_subject_is_greeted_then_ended() {
    let (st, _) = ConnectionState::new().on_frame(Frame::Auth { token: "t".to_string() });
    let (st, act) = st.on_token_checked(Some((String::new(), "n".to_string())));
    match act {
        SessionAction::Register { user_id } => assert_eq!(user_id, ""),
        other => panic!("unexpected {:?}", other),
    }
    let (st, act) = st.on_initial_data(true);
    assert!(matches!(st, ConnectionState::Closed));
    match act {
        SessionAction::SendAuthOkAndEnd { user_id, username } => {
            assert_eq!(user_id, "");
            assert_eq!(username, "n");
        }
        other => panic!("unexpected {:?}", other),
    }
    let (st, act) = st.on_frame(Frame::Event);
    assert!(matches!(st, ConnectionState::Closed));
    assert!(matches!(act, SessionAction::Stop { unregister: false }));
}
