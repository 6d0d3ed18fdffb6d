//! Permission sets and their resolution: @everyone, then the member's roles
//! (granted by any role means granted), then the channel's allow and deny
//! overrides, where a deny always wins. The server owner holds everything.
use vstd::prelude::*;

verus! {

/// The capabilities that a permission set can grant, one per field of
/// [`Permissions`].
#[derive(Debug, Clone, Copy, PartialEq, Eq, Structural)]
pub enum Permission {
    ManageServer,
    ManageChannels,
    ManageRoles,
    ManageMembers,
    SendMessages,
    SendFiles,
    WriteAnnouncements,
    ConnectVoice,
    SpeakVoice,
    UseVideo,
    ShareScreen,
    ViewAuditLog,
}

/// A set of permissions: one flag per capability.
#[derive(Debug, Clone, Copy, PartialEq, Eq, Structural)]
pub struct Permissions {
    pub manage_server: bool,
    pub manage_channels: bool,
    pub manage_roles: bool,
    pub manage_members: bool,
    pub send_messages: bool,
    pub send_files: bool,
    pub write_announcements: bool,
    pub connect_voice: bool,
    pub speak_voice: bool,
    pub use_video: bool,
    pub share_screen: bool,
    pub view_audit_log: bool,
}

/// The permission set with every flag equal to `b`.
pub open spec fn uniform(b: bool) -> Permissions {
    Permissions {
        manage_server: b,
        manage_channels: b,
        manage_roles: b,
        manage_members: b,
        send_messages: b,
        send_files: b,
        write_announcements: b,
        connect_voice: b,
        speak_voice: b,
        use_video: b,
        share_screen: b,
        view_audit_log: b,
    }
}

/// Everything `a` grants together with everything `b` grants.
pub open spec fn union(a: Permissions, b: Permissions) -> Permissions {
    Permissions {
        manage_server: a.manage_server || b.manage_server,
        manage_channels: a.manage_channels || b.manage_channels,
        manage_roles: a.manage_roles || b.manage_roles,
        manage_members: a.manage_members || b.manage_members,
        send_messages: a.send_messages || b.send_messages,
        send_files: a.send_files || b.send_files,
        write_announcements: a.write_announcements || b.write_announcements,
        connect_voice: a.connect_voice || b.connect_voice,
        speak_voice: a.speak_voice || b.speak_voice,
        use_video: a.use_video || b.use_video,
        share_screen: a.share_screen || b.share_screen,
        view_audit_log: a.view_audit_log || b.view_audit_log,
    }
}

/// What `a` grants that `d` does not name.
pub open spec fn without(a: Permissions, d: Permissions) -> Permissions {
    Permissions {
        manage_server: a.manage_server && !d.manage_server,
        manage_channels: a.manage_channels && !d.manage_channels,
        manage_roles: a.manage_roles && !d.manage_roles,
        manage_members: a.manage_members && !d.manage_members,
        send_messages: a.send_messages && !d.send_messages,
        send_files: a.send_files && !d.send_files,
        write_announcements: a.write_announcements && !d.write_announcements,
        connect_voice: a.connect_voice && !d.connect_voice,
        speak_voice: a.speak_voice && !d.speak_voice,
        use_video: a.use_video && !d.use_video,
        share_screen: a.share_screen && !d.share_screen,
        view_audit_log: a.view_audit_log && !d.view_audit_log,
    }
}

/// `base` merged with every role of `roles`, in order.
pub open spec fn union_all(base: Permissions, roles: Seq<Permissions>) -> Permissions
    decreases roles.len(),
{
    if roles.len() == 0 {
        base
    } else {
        union(union_all(base, roles.drop_last()), roles.last())
    }
}

/// The permission set that resolution yields.
pub open spec fn resolved(
    is_owner: bool,
    everyone: Permissions,
    roles: Seq<Permissions>,
    allow: Option<Permissions>,
    deny: Option<Permissions>,
) -> Permissions {
    if is_owner {
        uniform(true)
    } else {
        let merged = union_all(everyone, roles);
        let allowed = match allow {
            Some(a) => union(merged, a),
            None => merged,
        };
        match deny {
            Some(d) => without(allowed, d),
            None => allowed,
        }
    }
}

/// Whether some role of `roles` grants `p`.
pub open spec fn some_role_grants(roles: Seq<Permissions>, p: Permission) -> bool {
    exists|i: int| 0 <= i < roles.len() && (#[trigger] roles[i]).has(p)
}

impl Permissions {
    /// Whether this set grants `p`.
    pub open spec fn has(self, p: Permission) -> bool {
        match p {
            Permission::ManageServer => self.manage_server,
            Permission::ManageChannels => self.manage_channels,
            Permission::ManageRoles => self.manage_roles,
            Permission::ManageMembers => self.manage_members,
            Permission::SendMessages => self.send_messages,
            Permission::SendFiles => self.send_files,
            Permission::WriteAnnouncements => self.write_announcements,
            Permission::ConnectVoice => self.connect_voice,
            Permission::SpeakVoice => self.speak_voice,
            Permission::UseVideo => self.use_video,
            Permission::ShareScreen => self.share_screen,
            Permission::ViewAuditLog => self.view_audit_log,
        }
    }

    /// The defaults of the @everyone role: members may talk, send files,
    /// join voice, speak, use video and share their screen; nothing else.
    pub fn default_everyone() -> (res: Self)
        ensures
            res == (Permissions {
                manage_server: false,
                manage_channels: false,
                manage_roles: false,
                manage_members: false,
                send_messages: true,
                send_files: true,
                write_announcements: false,
                connect_voice: true,
                speak_voice: true,
                use_video: true,
                share_screen: true,
                view_audit_log: false,
            }),
    {
        Self {
            manage_server: false,
            manage_channels: false,
            manage_roles: false,
            manage_members: false,
            send_messages: true,
            send_files: true,
            write_announcements: false,
            connect_voice: true,
            speak_voice: true,
            use_video: true,
            share_screen: true,
            view_audit_log: false,
        }
    }

    /// Every permission (what the server owner holds).
    pub fn all() -> (res: Self)
        ensures
            res == uniform(true),
    {
        Self {
            manage_server: true,
            manage_channels: true,
            manage_roles: true,
            manage_members: true,
            send_messages: true,
            send_files: true,
            write_announcements: true,
            connect_voice: true,
            speak_voice: true,
            use_video: true,
            share_screen: true,
            view_audit_log: true,
        }
    }

    /// Resolves a member's permissions in a channel: the owner holds every
    /// permission; anyone else starts from @everyone, gains what any of their
    /// roles grants, then what the channel's allow override grants, and
    /// finally loses what the channel's deny override names.
    pub fn resolve(
        is_owner: bool,
        everyone_perms: &Permissions,
        role_perms: &[Permissions],
        channel_allow: Option<&Permissions>,
        channel_deny: Option<&Permissions>,
    ) -> (res: Self)
        ensures
            res == resolved(
                is_owner,
                *everyone_perms,
                role_perms@,
                match channel_allow {
                    Some(a) => Some(*a),
                    None => None,
                },
                match channel_deny {
                    Some(d) => Some(*d),
                    None => None,
                },
            ),
    {
        if is_owner {
            return Self::all();
        }
        let mut result = *everyone_perms;
        let mut i: usize = 0;
        while i < role_perms.len()
            invariant
                i <= role_perms@.len(),
                result == union_all(*everyone_perms, role_perms@.subrange(0, i as int)),
            decreases role_perms@.len() - i,
        {
            assert(role_perms@.subrange(0, i + 1).drop_last() =~= role_perms@.subrange(0, i as int));
            result.merge_role(&role_perms[i]);
            i += 1;
        }
        assert(role_perms@.subrange(0, i as int) =~= role_perms@);
        if let Some(allow) = channel_allow {
            result.apply_allow(allow);
        }
        if let Some(deny) = channel_deny {
            result.apply_deny(deny);
        }
        result
    }

    /// Merges a role's permissions into this set (a logical or, flag by flag).
    pub fn merge_role(&mut self, other: &Permissions)
        ensures
            *final(self) == union(*old(self), *other),
    {
        self.manage_server = self.manage_server || other.manage_server;
        self.manage_channels = self.manage_channels || other.manage_channels;
        self.manage_roles = self.manage_roles || other.manage_roles;
        self.manage_members = self.manage_members || other.manage_members;
        self.send_messages = self.send_messages || other.send_messages;
        self.send_files = self.send_files || other.send_files;
        self.write_announcements = self.write_announcements || other.write_announcements;
        self.connect_voice = self.connect_voice || other.connect_voice;
        self.speak_voice = self.speak_voice || other.speak_voice;
        self.use_video = self.use_video || other.use_video;
        self.share_screen = self.share_screen || other.share_screen;
        self.view_audit_log = self.view_audit_log || other.view_audit_log;
    }

    /// Applies a channel's allow override: every flag it sets becomes granted.
    pub fn apply_allow(&mut self, allow: &Permissions)
        ensures
            *final(self) == union(*old(self), *allow),
    {
        if allow.manage_server {
            self.manage_server = true;
        }
        if allow.manage_channels {
            self.manage_channels = true;
        }
        if allow.manage_roles {
            self.manage_roles = true;
        }
        if allow.manage_members {
            self.manage_members = true;
        }
        if allow.send_messages {
            self.send_messages = true;
        }
        if allow.send_files {
            self.send_files = true;
        }
        if allow.write_announcements {
            self.write_announcements = true;
        }
        if allow.connect_voice {
            self.connect_voice = true;
        }
        if allow.speak_voice {
            self.speak_voice = true;
        }
        if allow.use_video {
            self.use_video = true;
        }
        if allow.share_screen {
            self.share_screen = true;
        }
        if allow.view_audit_log {
            self.view_audit_log = true;
        }
    }

    /// Applies a channel's deny override: every flag it sets becomes refused.
    pub fn apply_deny(&mut self, deny: &Permissions)
        ensures
            *final(self) == without(*old(self), *deny),
    {
        if deny.manage_server {
            self.manage_server = false;
        }
        if deny.manage_channels {
            self.manage_channels = false;
        }
        if deny.manage_roles {
            self.manage_roles = false;
        }
        if deny.manage_members {
            self.manage_members = false;
        }
        if deny.send_messages {
            self.send_messages = false;
        }
        if deny.send_files {
            self.send_files = false;
        }
        if deny.write_announcements {
            self.write_announcements = false;
        }
        if deny.connect_voice {
            self.connect_voice = false;
        }
        if deny.speak_voice {
            self.speak_voice = false;
        }
        if deny.use_video {
            self.use_video = false;
        }
        if deny.share_screen {
            self.share_screen = false;
        }
        if deny.view_audit_log {
            self.view_audit_log = false;
        }
    }
}

/// `name` when `flag` is set, nothing otherwise.
pub open spec fn named_if(flag: bool, name: Seq<char>) -> Seq<Seq<char>> {
    if flag {
        seq![name]
    } else {
        Seq::empty()
    }
}

/// The names of the flags that `p` sets, in field order.
pub open spec fn granted_names(p: Permissions) -> Seq<Seq<char>> {
    named_if(p.manage_server, "manage_server"@) + named_if(p.manage_channels, "manage_channels"@)
        + named_if(p.manage_roles, "manage_roles"@) + named_if(p.manage_members, "manage_members"@)
        + named_if(p.send_messages, "send_messages"@) + named_if(p.send_files, "send_files"@)
        + named_if(p.write_announcements, "write_announcements"@) + named_if(
        p.connect_voice,
        "connect_voice"@,
    ) + named_if(p.speak_voice, "speak_voice"@) + named_if(p.use_video, "use_video"@) + named_if(
        p.share_screen,
        "share_screen"@,
    ) + named_if(p.view_audit_log, "view_audit_log"@)
}

/// Appends `name` to `names` when `flag` is set.
fn push_if(names: &mut Vec<&'static str>, flag: bool, name: &'static str)
    ensures
        final(names)@.map_values(|n: &str| n@) == old(names)@.map_values(|n: &str| n@) + named_if(
            flag,
            name@,
        ),
{
    let ghost before = names@;
    if flag {
        names.push(name);
        assert(names@.map_values(|n: &str| n@) =~= before.map_values(|n: &str| n@) + seq![name@]);
    } else {
        assert(names@.map_values(|n: &str| n@) =~= before.map_values(|n: &str| n@) + Seq::empty());
    }
}

impl Permissions {
    /// The names of the permissions this set grants, in field order (the
    /// keys of its JSON form that are `true`).
    pub fn granted(&self) -> (res: Vec<&'static str>)
        ensures
            res@.map_values(|n: &str| n@) == granted_names(*self),
    {
        let mut names: Vec<&'static str> = Vec::new();
        assert(names@.map_values(|n: &str| n@) =~= Seq::<Seq<char>>::empty());
        push_if(&mut names, self.manage_server, "manage_server");
        push_if(&mut names, self.manage_channels, "manage_channels");
        push_if(&mut names, self.manage_roles, "manage_roles");
        push_if(&mut names, self.manage_members, "manage_members");
        push_if(&mut names, self.send_messages, "send_messages");
        push_if(&mut names, self.send_files, "send_files");
        push_if(&mut names, self.write_announcements, "write_announcements");
        push_if(&mut names, self.connect_voice, "connect_voice");
        push_if(&mut names, self.speak_voice, "speak_voice");
        push_if(&mut names, self.use_video, "use_video");
        push_if(&mut names, self.share_screen, "share_screen");
        push_if(&mut names, self.view_audit_log, "view_audit_log");
        proof {
            assert(Seq::<Seq<char>>::empty() + named_if(self.manage_server, "manage_server"@)
                =~= named_if(self.manage_server, "manage_server"@));
        }
        names
    }
}

/// The value that a missing boolean flag takes when it defaults to granted.
pub fn default_true() -> (res: bool)
    ensures
        res,
{
    true
}

impl Default for Permissions {
    /// The empty permission set.
    fn default() -> (res: Self)
        ensures
            res == uniform(false),
    {
        Self {
            manage_server: false,
            manage_channels: false,
            manage_roles: false,
            manage_members: false,
            send_messages: false,
            send_files: false,
            write_announcements: false,
            connect_voice: false,
            speak_voice: false,
            use_video: false,
            share_screen: false,
            view_audit_log: false,
        }
    }
}

/// Two permission sets that grant the same capabilities are equal.
pub proof fn lemma_same_grants_equal(a: Permissions, b: Permissions)
    requires
        forall|p: Permission| a.has(p) == b.has(p),
    ensures
        a == b,
{
    assert(a.has(Permission::ManageServer) == b.has(Permission::ManageServer));
    assert(a.has(Permission::ManageChannels) == b.has(Permission::ManageChannels));
    assert(a.has(Permission::ManageRoles) == b.has(Permission::ManageRoles));
    assert(a.has(Permission::ManageMembers) == b.has(Permission::ManageMembers));
    assert(a.has(Permission::SendMessages) == b.has(Permission::SendMessages));
    assert(a.has(Permission::SendFiles) == b.has(Permission::SendFiles));
    assert(a.has(Permission::WriteAnnouncements) == b.has(Permission::WriteAnnouncements));
    assert(a.has(Permission::ConnectVoice) == b.has(Permission::ConnectVoice));
    assert(a.has(Permission::SpeakVoice) == b.has(Permission::SpeakVoice));
    assert(a.has(Permission::UseVideo) == b.has(Permission::UseVideo));
    assert(a.has(Permission::ShareScreen) == b.has(Permission::ShareScreen));
    assert(a.has(Permission::ViewAuditLog) == b.has(Permission::ViewAuditLog));
}

/// Merging roles grants a capability exactly when the base set or one of
/// the roles grants it.
pub proof fn lemma_union_all_grants(base: Permissions, roles: Seq<Permissions>, p: Permission)
    ensures
        union_all(base, roles).has(p) == (base.has(p) || some_role_grants(roles, p)),
    decreases roles.len(),
{
    if roles.len() > 0 {
        let prefix = roles.drop_last();
        lemma_union_all_grants(base, prefix, p);
        if some_role_grants(prefix, p) {
            let i = choose|i: int| 0 <= i < prefix.len() && (#[trigger] prefix[i]).has(p);
            assert(roles[i] == prefix[i]);
        }
        if some_role_grants(roles, p) {
            let i = choose|i: int| 0 <= i < roles.len() && (#[trigger] roles[i]).has(p);
            if i < roles.len() - 1 {
                assert(prefix[i] == roles[i]);
            }
        }
    }
}

/// Resolution, capability by capability: the owner holds everything; for
/// anyone else a channel deny refuses, else a channel allow grants, else the
/// capability is granted when @everyone or any of the member's roles grants it.
pub proof fn law_resolution_by_capability(
    is_owner: bool,
    everyone: Permissions,
    roles: Seq<Permissions>,
    allow: Option<Permissions>,
    deny: Option<Permissions>,
    p: Permission,
)
    ensures
        resolved(is_owner, everyone, roles, allow, deny).has(p) == if is_owner {
            true
        } else if deny is Some && deny->0.has(p) {
            false
        } else if allow is Some && allow->0.has(p) {
            true
        } else {
            everyone.has(p) || some_role_grants(roles, p)
        },
{
    lemma_union_all_grants(everyone, roles, p);
}

/// The server owner holds every permission, whatever roles and overrides say.
pub proof fn law_owner_holds_everything(
    everyone: Permissions,
    roles: Seq<Permissions>,
    allow: Option<Permissions>,
    deny: Option<Permissions>,
    p: Permission,
)
    ensures
        resolved(true, everyone, roles, allow, deny).has(p),
{
}

/// A channel deny always wins over @everyone, the roles and the allow.
pub proof fn law_deny_always_wins(
    everyone: Permissions,
    roles: Seq<Permissions>,
    allow: Option<Permissions>,
    deny: Permissions,
    p: Permission,
)
    requires
        deny.has(p),
    ensures
        !resolved(false, everyone, roles, allow, Some(deny)).has(p),
{
    law_resolution_by_capability(false, everyone, roles, allow, Some(deny), p);
}

/// A channel allow grants its capabilities unless the deny names them.
pub proof fn law_allow_grants_unless_denied(
    everyone: Permissions,
    roles: Seq<Permissions>,
    allow: Permissions,
    deny: Option<Permissions>,
    p: Permission,
)
    requires
        allow.has(p),
        !(deny is Some && deny->0.has(p)),
    ensures
        resolved(false, everyone, roles, Some(allow), deny).has(p),
{
    law_resolution_by_capability(false, everyone, roles, Some(allow), deny, p);
}

/// Without roles or channel overrides a member holds exactly @everyone.
pub proof fn law_everyone_alone(everyone: Permissions)
    ensures
        resolved(false, everyone, Seq::empty(), None, None) == everyone,
{
}

/// Only which roles a member has matters: their order and repetitions do not.
pub proof fn law_role_order_irrelevant(
    is_owner: bool,
    everyone: Permissions,
    roles1: Seq<Permissions>,
    roles2: Seq<Permissions>,
    allow: Option<Permissions>,
    deny: Option<Permissions>,
)
    requires
        forall|r: Permissions| roles1.contains(r) <==> roles2.contains(r),
    ensures
        resolved(is_owner, everyone, roles1, allow, deny) == resolved(
            is_owner,
            everyone,
            roles2,
            allow,
            deny,
        ),
{
    assert forall|p: Permission|
        resolved(is_owner, everyone, roles1, allow, deny).has(p) == resolved(
            is_owner,
            everyone,
            roles2,
            allow,
            deny,
        ).has(p) by {
        law_resolution_by_capability(is_owner, everyone, roles1, allow, deny, p);
        law_resolution_by_capability(is_owner, everyone, roles2, allow, deny, p);
        if some_role_grants(roles1, p) {
            let i = choose|i: int| 0 <= i < roles1.len() && (#[trigger] roles1[i]).has(p);
            assert(roles1.contains(roles1[i]));
            let j = choose|j: int| 0 <= j < roles2.len() && roles2[j] == roles1[i];
            assert(roles2[j].has(p));
        }
        if some_role_grants(roles2, p) {
            let i = choose|i: int| 0 <= i < roles2.len() && (#[trigger] roles2[i]).has(p);
            assert(roles2.contains(roles2[i]));
            let j = choose|j: int| 0 <= j < roles1.len() && roles1[j] == roles2[i];
            assert(roles1[j].has(p));
        }
    }
    lemma_same_grants_equal(
        resolved(is_owner, everyone, roles1, allow, deny),
        resolved(is_owner, everyone, roles2, allow, deny),
    );
}

/// Giving a member one more role never takes a permission away.
pub proof fn law_extra_role_never_removes(
    is_owner: bool,
    everyone: Permissions,
    roles: Seq<Permissions>,
    extra: Permissions,
    allow: Option<Permissions>,
    deny: Option<Permissions>,
    p: Permission,
)
    requires
        resolved(is_owner, everyone, roles, allow, deny).has(p),
    ensures
        resolved(is_owner, everyone, roles.push(extra), allow, deny).has(p),
{
    law_resolution_by_capability(is_owner, everyone, roles, allow, deny, p);
    law_resolution_by_capability(is_owner, everyone, roles.push(extra), allow, deny, p);
    if some_role_grants(roles, p) {
        let i = choose|i: int| 0 <= i < roles.len() && (#[trigger] roles[i]).has(p);
        assert(roles.push(extra)[i] == roles[i]);
    }
}

/// Merging is commutative, associative and idempotent.
pub proof fn law_merge_is_set_union(a: Permissions, b: Permissions, c: Permissions)
    ensures
        union(a, b) == union(b, a),
        union(union(a, b), c) == union(a, union(b, c)),
        union(a, a) == a,
{
}

} // verus!
