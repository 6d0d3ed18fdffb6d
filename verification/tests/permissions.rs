use furachat::permissions::{default_true, Permissions};

fn none() -> Permissions {
    Permissions::default()
}

#[test]
fn everyone_defaults_match_the_documented_set() {
    let p = Permissions::default_everyone();
    assert!(!p.manage_server && !p.manage_channels && !p.manage_roles && !p.manage_members);
    assert!(p.send_messages && p.send_files && p.connect_voice && p.speak_voice);
    assert!(p.use_video && p.share_screen);
    assert!(!p.write_announcements && !p.view_audit_log);
}

#[test]
fn all_grants_everything_and_default_nothing() {
    let a = Permissions::all();
    assert!(a.manage_server && a.manage_channels && a.manage_roles && a.manage_members);
    assert!(a.send_messages && a.send_files && a.write_announcements && a.connect_voice);
    assert!(a.speak_voice && a.use_video && a.share_screen && a.view_audit_log);
    let d = Permissions::default();
    assert!(!d.manage_server && !d.send_messages && !d.view_audit_log && !d.share_screen);
    assert!(default_true());
}

#[test]
fn owner_holds_everything_even_when_denied() {
    let deny = Permissions::all();
    let r = Permissions::resolve(true, &none(), &[], None, Some(&deny));
    assert_eq!(r, Permissions::all());
}

#[test]
fn roles_add_up() {
    let mut mods = none();
    mods.manage_members = true;
    let mut auditors = none();
    auditors.view_audit_log = true;
    let r = Permissions::resolve(false, &Permissions::default_everyone(), &[mods, auditors], None, None);
    assert!(r.manage_members && r.view_audit_log && r.send_messages);
    assert!(!r.manage_server);
}

#[test]
fn deny_wins_over_allow_and_roles() {
    let mut role = none();
    role.send_files = true;
    let mut allow = none();
    allow.send_files = true;
    allow.write_announcements = true;
    let mut deny = none();
    deny.send_files = true;
    let r = Permissions::resolve(false, &Permissions::default_everyone(), &[role], Some(&allow), Some(&deny));
    assert!(!r.send_files);
    assert!(r.write_announcements);
    assert!(r.send_messages);
}

#[test]
fn everyone_alone_is_everyone() {
    let e = Permissions::default_everyone();
    assert_eq!(Permissions::resolve(false, &e, &[], None, None), e);
}

#[test]
fn role_order_and_repetition_do_not_matter() {
    let mut a = none();
    a.manage_roles = true;
    let mut b = none();
    b.use_video = false;
    b.manage_channels = true;
    let e = none();
    let r1 = Permissions::resolve(false, &e, &[a, b], None, None);
    let r2 = Permissions::resolve(false, &e, &[b, a, b], None, None);
    assert_eq!(r1, r2);
}

#[test]
fn an_extra_role_never_removes_a_permission() {
    let e = Permissions::default_everyone();
    let mut deny = none();
    deny.speak_voice = true;
    let before = Permissions::resolve(false, &e, &[], None, Some(&deny));
    let after = Permissions::resolve(false, &e, &[none()], None, Some(&deny));
    assert_eq!(before, after);
    assert!(after.send_messages && !after.speak_voice);
}

#[test]
fn merge_and_allow_are_unions() {
    let mut a = none();
    a.manage_server = true;
    let mut b = none();
    b.send_files = true;
    let mut ab = a;
    ab.merge_role(&b);
    let mut ba = b;
    ba.merge_role(&a);
    assert_eq!(ab, ba);
    let mut aa = a;
    aa.merge_role(&a);
    assert_eq!(aa, a);
    let mut allowed = a;
    allowed.apply_allow(&b);
    assert_eq!(allowed, ab);
}

#[test]
fn apply_deny_clears_only_named_flags() {
    let mut p = Permissions::all();
    let mut deny = none();
    deny.manage_server = true;
    deny.view_audit_log = true;
    p.apply_deny(&deny);
    assert!(!p.manage_server && !p.view_audit_log);
    assert!(p.manage_channels && p.send_messages);
}

#[test]
fn granted_names_follow_the_fields() {
    assert_eq!(
        Permissions::default_everyone().granted(),
        vec!["send_messages", "send_files", "connect_voice", "speak_voice", "use_video", "share_screen"]
    );
    assert_eq!(Permissions::all().granted().len(), 12);
    assert_eq!(Permissions::all().granted()[0], "manage_server");
    assert_eq!(Permissions::all().granted()[11], "view_audit_log");
    assert!(Permissions::default().granted().is_empty());
}
