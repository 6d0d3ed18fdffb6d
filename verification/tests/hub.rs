use furachat::hub::Hub;

fn sorted(mut v: Vec<String>) -> Vec<String> {
    v.sort();
    v
}

fn s(x: &str) -> String {
    x.to_string()
}

#[test]
fn register_makes_a_user_online() {
    let mut hub = Hub::new();
    assert!(!hub.is_online("alice"));
    hub.register("alice");
    hub.register("alice");
    assert!(hub.is_online("alice"));
    assert!(!hub.is_online("bob"));
}

#[test]
fn broadcast_reaches_online_members_except_the_excluded() {
    let mut hub = Hub::new();
    hub.register("alice");
    hub.register("bob");
    hub.join_server_rooms("alice", &[s("s1"), s("s2")]);
    hub.join_server_rooms("bob", &[s("s1")]);
    hub.join_server_rooms("carol", &[s("s1")]);
    assert_eq!(sorted(hub.broadcast_to_server("s1", None)), vec![s("alice"), s("bob")]);
    assert_eq!(hub.broadcast_to_server("s1", Some("alice")), vec![s("bob")]);
    assert_eq!(hub.broadcast_to_server("s2", None), vec![s("alice")]);
    assert!(hub.broadcast_to_server("nowhere", None).is_empty());
}

#[test]
fn joining_twice_lists_a_member_once() {
    let mut hub = Hub::new();
    hub.register("alice");
    hub.join_server_rooms("alice", &[s("s1"), s("s1")]);
    hub.join_server_rooms("alice", &[s("s1")]);
    assert_eq!(hub.broadcast_to_server("s1", None), vec![s("alice")]);
}

#[test]
fn unregistered_user_receives_nothing() {
    let mut hub = Hub::new();
    hub.register("alice");
    hub.register("bob");
    hub.join_server_rooms("alice", &[s("s1")]);
    hub.join_server_rooms("bob", &[s("s1")]);
    hub.join_voice("v1", "alice");
    hub.join_voice("v1", "bob");
    hub.unregister("alice");
    assert!(!hub.is_online("alice"));
    assert_eq!(hub.broadcast_to_server("s1", None), vec![s("bob")]);
    assert_eq!(hub.broadcast_to_voice_channel("v1", None), vec![s("bob")]);
    assert!(!hub.share_voice_channel("alice", "bob"));
    hub.register("alice");
    assert_eq!(hub.broadcast_to_server("s1", None), vec![s("bob")]);
}

#[test]
fn users_in_the_same_voice_channel_share_it() {
    let mut hub = Hub::new();
    hub.join_voice("v1", "alice");
    hub.join_voice("v1", "bob");
    hub.join_voice("v2", "carol");
    assert!(hub.share_voice_channel("alice", "bob"));
    assert!(hub.share_voice_channel("bob", "alice"));
    assert!(!hub.share_voice_channel("alice", "carol"));
    assert!(hub.share_voice_channel("carol", "carol"));
    assert!(!hub.share_voice_channel("dave", "dave"));
}

#[test]
fn voice_broadcast_needs_a_connection() {
    let mut hub = Hub::new();
    hub.register("bob");
    hub.join_voice("v1", "alice");
    hub.join_voice("v1", "bob");
    assert_eq!(hub.broadcast_to_voice_channel("v1", None), vec![s("bob")]);
    assert!(hub.broadcast_to_voice_channel("v1", Some("bob")).is_empty());
}

#[test]
fn leaving_voice_removes_the_user_and_empty_channels() {
    let mut hub = Hub::new();
    hub.register("alice");
    hub.register("bob");
    hub.join_voice("v1", "alice");
    hub.join_voice("v1", "bob");
    hub.leave_voice("v1", "alice");
    assert_eq!(hub.broadcast_to_voice_channel("v1", None), vec![s("bob")]);
    hub.leave_voice("v1", "bob");
    assert!(hub.broadcast_to_voice_channel("v1", None).is_empty());
    assert!(!hub.share_voice_channel("bob", "bob"));
    hub.leave_voice("v1", "bob");
    hub.leave_voice("missing", "bob");
}

#[test]
fn leaving_undoes_joining() {
    let mut hub = Hub::new();
    hub.register("alice");
    hub.join_voice("v9", "alice");
    assert!(hub.share_voice_channel("alice", "alice"));
    hub.leave_voice("v9", "alice");
    assert!(!hub.share_voice_channel("alice", "alice"));
    assert!(hub.broadcast_to_voice_channel("v9", None).is_empty());
}

#[test]
fn a_direct_event_reaches_its_user_only_when_online() {
    let mut hub = Hub::new();
    assert!(hub.send_to_user("alice").is_empty());
    hub.register("alice");
    assert_eq!(hub.send_to_user("alice"), vec!["alice".to_string()]);
    assert!(hub.send_to_user("bob").is_empty());
    hub.unregister("alice");
    assert!(hub.send_to_user("alice").is_empty());
}
