//! Guild members and roles: how member payloads are merged into the cache,
//! which role colours a member's name, and the current user's roles.
use vstd::prelude::*;

use crate::channel::clone_opt_string;
use crate::id_map::{lists_keys_once, IdMap};
use crate::ids::{GuildMarker, Id, RoleMarker, UserMarker};
use crate::presence::PresenceStatus;
use crate::state::{get2, lookup, lookup2, DiscordState, GuildMemberState, RoleState};
use crate::text::str_eq;

verus! {

/// One member as a payload describes it.
#[derive(Clone, Debug)]
pub struct MemberInfo {
    pub user_id: Id<UserMarker>,
    pub display_name: String,
    /// The login handle (`User.name`).
    pub username: Option<String>,
    pub is_bot: bool,
    pub avatar_url: Option<String>,
    pub role_ids: Vec<Id<RoleMarker>>,
}

/// One role as a payload describes it.
#[derive(Clone, Debug)]
pub struct RoleInfo {
    pub id: Id<RoleMarker>,
    pub name: String,
    pub color: Option<u32>,
    pub position: i64,
    pub hoist: bool,
    /// The role's permission bits.
    pub permissions: u64,
}

/// A copy of a list of ids.
pub fn clone_ids<M>(ids: &Vec<Id<M>>) -> (r: Vec<Id<M>>)
    ensures
        r@ == ids@,
{
    let mut out: Vec<Id<M>> = Vec::new();
    let n = ids.len();
    let mut i: usize = 0;
    while i < n
        invariant
            n == ids@.len(),
            i <= n,
            out@ == ids@.subrange(0, i as int),
        decreases n - i,
    {
        out.push(ids[i]);
        proof {
            assert(out@ =~= ids@.subrange(0, i + 1));
        }
        i = i + 1;
    }
    proof {
        assert(ids@.subrange(0, n as int) =~= ids@);
    }
    out
}

/// A member payload that stands in for an identity the gateway did not
/// resolve: no login handle and the name `unknown`.
pub open spec fn is_fallback_spec(username: Option<String>, display_name: Seq<char>) -> bool {
    username is None && display_name == "unknown"@
}

pub fn is_fallback_identity(username: &Option<String>, display_name: &str) -> (r: bool)
    ensures
        r == is_fallback_spec(*username, display_name@),
{
    username.is_none() && str_eq(display_name, "unknown")
}

/// The cached state of a member after a payload: a fallback payload keeps
/// the name, handle and avatar of a complete entry already cached; the
/// status is the one the member had, else unknown.
pub open spec fn merged_member_spec(
    member: MemberInfo,
    existing: Option<GuildMemberState>,
    previous_status: Option<PresenceStatus>,
) -> GuildMemberState {
    let keep = is_fallback_spec(member.username, member.display_name@) && match existing {
        Some(e) => e.username is Some,
        None => false,
    };
    GuildMemberState {
        user_id: member.user_id,
        display_name: if keep {
            existing->0.display_name
        } else {
            member.display_name
        },
        username: if keep {
            existing->0.username
        } else {
            member.username
        },
        is_bot: member.is_bot,
        avatar_url: if keep {
            existing->0.avatar_url
        } else {
            member.avatar_url
        },
        role_ids: member.role_ids,
        status: match previous_status {
            Some(s) => s,
            None => PresenceStatus::Unknown,
        },
    }
}

/// Merges one member payload into a guild's member map.
pub fn upsert_member(map: &mut IdMap<GuildMemberState>, member: MemberInfo, previous_status: Option<PresenceStatus>)
    ensures
        final(map)@ == old(map)@.insert(
            member.user_id@,
            merged_member_spec(member, lookup(old(map)@, member.user_id@), previous_status),
        ),
{
    let status = match previous_status {
        Some(s) => s,
        None => PresenceStatus::Unknown,
    };
    let is_fallback = is_fallback_identity(&member.username, member.display_name.as_str());
    let keep = is_fallback && match map.get(member.user_id.get()) {
        Some(e) => e.username.is_some(),
        None => false,
    };
    let ghost given = member;
    let MemberInfo { user_id, display_name, username, is_bot, avatar_url, role_ids } = member;
    let (display_name, username, avatar_url) = if keep {
        let e = map.get(user_id.get()).unwrap();
        (e.display_name.clone(), clone_opt_string(&e.username), clone_opt_string(&e.avatar_url))
    } else {
        (display_name, username, avatar_url)
    };
    let state = GuildMemberState { user_id, display_name, username, is_bot, avatar_url, role_ids, status };
    proof {
        assert(state == merged_member_spec(given, lookup(old(map)@, given.user_id@), previous_status));
    }
    map.insert(user_id.get(), state);
}

/// A role's cached state.
pub fn role_state(role: &RoleInfo) -> (r: RoleState)
    ensures
        r.id == role.id,
        r.name == role.name,
        r.color == role.color,
        r.position == role.position,
        r.hoist == role.hoist,
        r.permissions == role.permissions,
{
    RoleState {
        id: role.id,
        name: role.name.clone(),
        color: role.color,
        position: role.position,
        hoist: role.hoist,
        permissions: role.permissions,
    }
}

/// A guild's roles keyed by id; of two with one id, the later wins.
pub fn role_map(roles: &Vec<RoleInfo>) -> (r: IdMap<RoleState>)
    ensures
        forall|k: u64| #[trigger] r@.dom().contains(k) <==> exists|i: int| 0 <= i < roles@.len() && (#[trigger] roles@[i]).id@ == k,
        forall|i: int| 0 <= i < roles@.len() && (forall|j: int| i < j < roles@.len() ==> (#[trigger] roles@[j]).id@ != roles@[i].id@)
            ==> r@[(#[trigger] roles@[i]).id@].color == roles@[i].color && r@[roles@[i].id@].position == roles@[i].position
                && r@[roles@[i].id@].id == roles@[i].id && r@[roles@[i].id@].permissions == roles@[i].permissions,
{
    let mut out: IdMap<RoleState> = IdMap::new();
    let n = roles.len();
    let mut i: usize = 0;
    while i < n
        invariant
            n == roles@.len(),
            i <= n,
            forall|k: u64| #[trigger] out@.dom().contains(k) <==> exists|j: int| 0 <= j < i && (#[trigger] roles@[j]).id@ == k,
            forall|j: int| 0 <= j < i && (forall|l: int| j < l < i ==> (#[trigger] roles@[l]).id@ != roles@[j].id@)
                ==> out@[(#[trigger] roles@[j]).id@].color == roles@[j].color && out@[roles@[j].id@].position == roles@[j].position
                    && out@[roles@[j].id@].id == roles@[j].id && out@[roles@[j].id@].permissions == roles@[j].permissions,
        decreases n - i,
    {
        let state = role_state(&roles[i]);
        out.insert(roles[i].id.get(), state);
        proof {
            assert forall|k: u64| #[trigger] out@.dom().contains(k) <==> exists|j: int| 0 <= j < i + 1 && (#[trigger] roles@[j]).id@ == k by {
                if k == roles@[i as int].id@ {
                    assert(roles@[i as int].id@ == k);
                }
            }
        }
        i = i + 1;
    }
    out
}

/// Whether the `i`-th role id names a role of the map with a visible
/// (non-zero) colour.
pub open spec fn colored_role(role_ids: Seq<Id<RoleMarker>>, roles: Map<u64, RoleState>, i: int) -> bool {
    0 <= i < role_ids.len() && roles.dom().contains(role_ids[i]@) && match roles[role_ids[i]@].color {
        Some(c) => c != 0,
        None => false,
    }
}

/// Display order of roles: higher position first, then lower id.
pub open spec fn role_before(a: RoleState, b: RoleState) -> bool {
    a.position > b.position || (a.position == b.position && a.id@ < b.id@)
}

/// The colour a list of roles gives a name: that of the first role in
/// display order among those with a visible colour; none without one.
pub open spec fn selected_color_spec(role_ids: Seq<Id<RoleMarker>>, roles: Map<u64, RoleState>, r: Option<u32>) -> bool {
    match r {
        None => forall|i: int| !colored_role(role_ids, roles, i),
        Some(c) => exists|i: int| {
            &&& colored_role(role_ids, roles, i)
            &&& roles[role_ids[i]@].color == Some(c)
            &&& forall|j: int| colored_role(role_ids, roles, j) ==> !role_before(
                #[trigger] roles[role_ids[j]@],
                roles[role_ids[i]@],
            )
        },
    }
}

/// When each role is stored under its own id, display order ranks any two
/// different stored roles, so a list of roles selects one colour at most.
pub proof fn lemma_selected_color_unique(
    role_ids: Seq<Id<RoleMarker>>,
    roles: Map<u64, RoleState>,
    r1: Option<u32>,
    r2: Option<u32>,
)
    requires
        forall|k: u64| #[trigger] roles.dom().contains(k) ==> roles[k].id@ == k,
        selected_color_spec(role_ids, roles, r1),
        selected_color_spec(role_ids, roles, r2),
    ensures
        r1 == r2,
{
    match r1 {
        Some(c1) => {
            let i1 = choose|i: int| {
                &&& colored_role(role_ids, roles, i)
                &&& roles[role_ids[i]@].color == Some(c1)
                &&& forall|j: int| colored_role(role_ids, roles, j) ==> !role_before(
                    #[trigger] roles[role_ids[j]@],
                    roles[role_ids[i]@],
                )
            };
            match r2 {
                Some(c2) => {
                    let i2 = choose|i: int| {
                        &&& colored_role(role_ids, roles, i)
                        &&& roles[role_ids[i]@].color == Some(c2)
                        &&& forall|j: int| colored_role(role_ids, roles, j) ==> !role_before(
                            #[trigger] roles[role_ids[j]@],
                            roles[role_ids[i]@],
                        )
                    };
                    let a = roles[role_ids[i1]@];
                    let b = roles[role_ids[i2]@];
                    assert(!role_before(a, b));
                    assert(!role_before(b, a));
                    assert(a.id@ == role_ids[i1]@);
                    assert(b.id@ == role_ids[i2]@);
                },
                None => {
                    assert(!colored_role(role_ids, roles, i1));
                },
            }
        },
        None => {
            match r2 {
                Some(c2) => {
                    let i2 = choose|i: int| {
                        &&& colored_role(role_ids, roles, i)
                        &&& roles[role_ids[i]@].color == Some(c2)
                        &&& forall|j: int| colored_role(role_ids, roles, j) ==> !role_before(
                            #[trigger] roles[role_ids[j]@],
                            roles[role_ids[i]@],
                        )
                    };
                    assert(!colored_role(role_ids, roles, i2));
                },
                None => {},
            }
        },
    }
}

fn role_comes_before(a: &RoleState, b: &RoleState) -> (r: bool)
    ensures
        r == role_before(*a, *b),
{
    a.position > b.position || (a.position == b.position && a.id.get() < b.id.get())
}

/// The colour the given roles give a name.
pub fn selected_role_ids_color(role_ids: &Vec<Id<RoleMarker>>, roles: &IdMap<RoleState>) -> (r: Option<u32>)
    ensures
        selected_color_spec(role_ids@, roles@, r),
{
    let mut best: Option<usize> = None;
    let n = role_ids.len();
    let mut i: usize = 0;
    while i < n
        invariant
            n == role_ids@.len(),
            i <= n,
            match best {
                None => forall|j: int| 0 <= j < i ==> !colored_role(role_ids@, roles@, j),
                Some(b) => {
                    &&& b < i
                    &&& colored_role(role_ids@, roles@, b as int)
                    &&& forall|j: int| 0 <= j < i && colored_role(role_ids@, roles@, j) ==> !role_before(
                        #[trigger] roles@[role_ids@[j]@],
                        roles@[role_ids@[b as int]@],
                    )
                },
            },
        decreases n - i,
    {
        match roles.get(role_ids[i].get()) {
            Some(role) => {
                let visible = match role.color {
                    Some(c) => c != 0,
                    None => false,
                };
                if visible {
                    match best {
                        None => {
                            best = Some(i);
                        },
                        Some(b) => {
                            let current = roles.get(role_ids[b].get()).unwrap();
                            if role_comes_before(role, current) {
                                best = Some(i);
                            }
                        },
                    }
                }
            },
            None => {},
        }
        i = i + 1;
    }
    match best {
        None => None,
        Some(b) => {
            let role = roles.get(role_ids[b].get()).unwrap();
            role.color
        },
    }
}

/// The role ids kept for a guild, as a sequence.
pub open spec fn lookup_ids<M>(m: Map<u64, Vec<Id<M>>>, k: u64) -> Option<Seq<Id<M>>> {
    if m.dom().contains(k) {
        Some(m[k]@)
    } else {
        None
    }
}

/// The roles of a member, when both the member and the guild's roles are
/// known.
pub open spec fn member_color_spec(
    members: Map<u64, IdMap<GuildMemberState>>,
    roles: Map<u64, IdMap<RoleState>>,
    guild_id: u64,
    user_id: u64,
    r: Option<u32>,
) -> bool {
    match (lookup2(members, guild_id, user_id), lookup(roles, guild_id)) {
        (Some(member), Some(guild_roles)) => selected_color_spec(member.role_ids@, guild_roles@, r),
        _ => r is None,
    }
}

/// The cached roles as a plain map, for statements that span both levels.
pub open spec fn guild_roles_view(roles: Map<u64, IdMap<RoleState>>, guild_id: u64) -> Map<u64, RoleState> {
    match lookup(roles, guild_id) {
        Some(m) => m@,
        None => Map::empty(),
    }
}

impl DiscordState {
    /// A guild's members by increasing user id.
    pub fn members_for_guild(&self, guild_id: Id<GuildMarker>) -> (r: Vec<&GuildMemberState>)
        ensures
            match lookup(self.members@, guild_id@) {
                Some(m) => r@.len() == m.key_seq().len() && lists_keys_once(m@, m.key_seq()) && forall|i: int|
                    0 <= i < r@.len() ==> *(#[trigger] r@[i]) == m@[m.key_seq()[i]],
                None => r@.len() == 0,
            },
    {
        match self.members.get(guild_id.get()) {
            Some(m) => m.values(),
            None => Vec::new(),
        }
    }

    /// A guild's roles by increasing role id.
    pub fn roles_for_guild(&self, guild_id: Id<GuildMarker>) -> (r: Vec<&RoleState>)
        ensures
            match lookup(self.roles@, guild_id@) {
                Some(m) => r@.len() == m.key_seq().len() && lists_keys_once(m@, m.key_seq()) && forall|i: int|
                    0 <= i < r@.len() ==> *(#[trigger] r@[i]) == m@[m.key_seq()[i]],
                None => r@.len() == 0,
            },
    {
        match self.roles.get(guild_id.get()) {
            Some(m) => m.values(),
            None => Vec::new(),
        }
    }

    pub fn role_for_guild(&self, guild_id: Id<GuildMarker>, role_id: Id<RoleMarker>) -> (r: Option<&RoleState>)
        ensures
            match r {
                Some(role) => lookup2(self.roles@, guild_id@, role_id@) == Some(*role),
                None => lookup2(self.roles@, guild_id@, role_id@) is None,
            },
    {
        get2(&self.roles, guild_id.get(), role_id.get())
    }

    /// The colour of a member's name in a guild.
    pub fn member_role_color(&self, guild_id: Id<GuildMarker>, user_id: Id<UserMarker>) -> (r: Option<u32>)
        ensures
            member_color_spec(self.members@, self.roles@, guild_id@, user_id@, r),
    {
        let member = match get2(&self.members, guild_id.get(), user_id.get()) {
            Some(m) => m,
            None => return None,
        };
        let roles = match self.roles.get(guild_id.get()) {
            Some(r) => r,
            None => return None,
        };
        selected_role_ids_color(&member.role_ids, roles)
    }

    pub fn member_display_name(&self, guild_id: Id<GuildMarker>, user_id: Id<UserMarker>) -> (r: Option<&str>)
        ensures
            match r {
                Some(name) => lookup2(self.members@, guild_id@, user_id@) matches Some(m) && name@ == m.display_name@,
                None => lookup2(self.members@, guild_id@, user_id@) is None,
            },
    {
        match get2(&self.members, guild_id.get(), user_id.get()) {
            Some(m) => Some(m.display_name.as_str()),
            None => None,
        }
    }

    /// Whether the cached member carries a login handle.
    pub fn member_has_known_name(&self, guild_id: Id<GuildMarker>, user_id: Id<UserMarker>) -> (r: bool)
        ensures
            r == (lookup2(self.members@, guild_id@, user_id@) matches Some(m) && m.username is Some),
    {
        match get2(&self.members, guild_id.get(), user_id.get()) {
            Some(m) => m.username.is_some(),
            None => false,
        }
    }

    /// The current user's role ids in a guild: the kept copy, else those of
    /// their cached member entry.
    pub fn current_user_role_ids_for_guild(&self, guild_id: Id<GuildMarker>) -> (r: Option<&Vec<Id<RoleMarker>>>)
        ensures
            match lookup(self.current_user_role_ids@, guild_id@) {
                Some(ids) => r == Some(&ids),
                None => match self.current_user_id {
                    Some(u) => match lookup2(self.members@, guild_id@, u@) {
                        Some(m) => r == Some(&m.role_ids),
                        None => r is None,
                    },
                    None => r is None,
                },
            },
    {
        match self.current_user_role_ids.get(guild_id.get()) {
            Some(ids) => Some(ids),
            None => match self.current_user_id {
                Some(u) => match get2(&self.members, guild_id.get(), u.get()) {
                    Some(m) => Some(&m.role_ids),
                    None => None,
                },
                None => None,
            },
        }
    }

    /// Merges a member payload into a guild's members and reports whether
    /// the member was already cached. For the current user the kept role ids
    /// follow the member, except that a fallback payload without roles keeps
    /// the roles already known.
    pub fn upsert_guild_member(&mut self, guild_id: Id<GuildMarker>, member: MemberInfo) -> (r: bool)
        ensures
            old(self).well_formed() ==> final(self).well_formed(),
            r == (lookup2(old(self).members@, guild_id@, member.user_id@) is Some),
            ({
                let merged = merged_member_spec(
                    member,
                    lookup2(old(self).members@, guild_id@, member.user_id@),
                    match lookup2(old(self).members@, guild_id@, member.user_id@) {
                        Some(m) => Some(m.status),
                        None => None,
                    },
                );
                let is_current = old(self).current_user_id == Some(member.user_id);
                let protected = if is_current && member.role_ids@.len() == 0 && is_fallback_spec(
                    member.username,
                    member.display_name@,
                ) {
                    lookup(old(self).current_user_role_ids@, guild_id@)
                } else {
                    None
                };
                let stored = match protected {
                    Some(ids) => GuildMemberState { role_ids: ids, ..merged },
                    None => merged,
                };
                &&& forall|g: u64, u: u64| #[trigger] lookup2(final(self).members@, g, u) == if g == guild_id@ && u
                    == member.user_id@ {
                    Some(stored)
                } else {
                    lookup2(old(self).members@, g, u)
                }
                &&& if is_current {
                    &&& final(self).current_user_role_ids@.remove(guild_id@) == old(self).current_user_role_ids@.remove(guild_id@)
                    &&& final(self).current_user_role_ids@.dom().contains(guild_id@)
                    &&& final(self).current_user_role_ids@[guild_id@]@ == stored.role_ids@
                } else {
                    final(self).current_user_role_ids@ == old(self).current_user_role_ids@
                }
            }),
            final(self).roles@ == old(self).roles@,
            final(self).current_user_id == old(self).current_user_id,
    {
        let user_id = member.user_id;
        let previous = get2(&self.members, guild_id.get(), user_id.get());
        let was_known = previous.is_some();
        let previous_status = match previous {
            Some(m) => Some(m.status),
            None => None,
        };
        let is_current = match self.current_user_id {
            Some(u) => u.get() == user_id.get(),
            None => false,
        };
        proof {
            if is_current {
                Id::<UserMarker>::lemma_view_injective(self.current_user_id->0, user_id);
            }
            if self.current_user_id == Some(user_id) {
                assert(is_current);
            }
        }
        let preserve = is_current && member.role_ids.len() == 0 && is_fallback_identity(
            &member.username,
            member.display_name.as_str(),
        );
        let protected: Option<Vec<Id<RoleMarker>>> = if preserve {
            self.current_user_role_ids.remove(guild_id.get())
        } else {
            None
        };
        let mut entry = match self.members.remove(guild_id.get()) {
            Some(m) => m,
            None => IdMap::new(),
        };
        upsert_member(&mut entry, member, previous_status);
        if is_current {
            match protected {
                Some(cached) => {
                    let copy = clone_ids(&cached);
                    let mut current = entry.remove(user_id.get()).unwrap();
                    current.role_ids = cached;
                    entry.insert(user_id.get(), current);
                    self.current_user_role_ids.insert(guild_id.get(), copy);
                },
                None => {
                    let ids = clone_ids(&entry.get(user_id.get()).unwrap().role_ids);
                    self.current_user_role_ids.insert(guild_id.get(), ids);
                },
            }
        }
        self.members.insert(guild_id.get(), entry);
        proof {
            assert(final(self).current_user_role_ids@.remove(guild_id@) =~= old(self).current_user_role_ids@.remove(guild_id@)
                || !is_current);
        }
        was_known
    }

    /// Re-reads the current user's role ids from every guild where they are
    /// a cached member.
    pub fn refresh_current_user_role_cache(&mut self)
        ensures
            old(self).well_formed() ==> final(self).well_formed(),
            final(self).members@ == old(self).members@,
            match old(self).current_user_id {
                None => final(self).current_user_role_ids@ == old(self).current_user_role_ids@,
                Some(u) => forall|g: u64| #[trigger] lookup_ids(final(self).current_user_role_ids@, g) == match lookup2(
                    old(self).members@,
                    g,
                    u@,
                ) {
                    Some(m) => Some(m.role_ids@),
                    None => lookup_ids(old(self).current_user_role_ids@, g),
                },
            },
    {
        let user = match self.current_user_id {
            Some(u) => u,
            None => return,
        };
        let guild_ids = self.members.keys();
        let n = guild_ids.len();
        let mut i: usize = 0;
        while i < n
            invariant
                n == guild_ids@.len(),
                i <= n,
                self.members@ == old(self).members@,
                self.current_user_id == old(self).current_user_id,
                self.current_user_id == Some(user),
                self.channels == old(self).channels,
                self.roles == old(self).roles,
                self.pinned_messages == old(self).pinned_messages,
                self.message_gaps == old(self).message_gaps,
                forall|k: u64| old(self).members@.dom().contains(k) <==> guild_ids@.contains(k),
                forall|a: int, b: int| 0 <= a < b < n ==> guild_ids@[a] < guild_ids@[b],
                forall|g: u64| #[trigger] lookup_ids(self.current_user_role_ids@, g) == if (exists|j: int|
                    0 <= j < i && guild_ids@[j] == g) {
                    match lookup2(old(self).members@, g, user@) {
                        Some(m) => Some(m.role_ids@),
                        None => lookup_ids(old(self).current_user_role_ids@, g),
                    }
                } else {
                    lookup_ids(old(self).current_user_role_ids@, g)
                },
            decreases n - i,
        {
            let g = guild_ids[i];
            let ghost before = self.current_user_role_ids@;
            proof {
                assert forall|j: int| 0 <= j < i implies guild_ids@[j] != g by {
                    assert(guild_ids@[j] < guild_ids@[i as int]);
                }
            }
            match get2(&self.members, g, user.get()) {
                Some(m) => {
                    let ids = clone_ids(&m.role_ids);
                    self.current_user_role_ids.insert(g, ids);
                },
                None => {},
            }
            proof {
                assert forall|h: u64| #[trigger] lookup_ids(self.current_user_role_ids@, h) == if (exists|j: int|
                    0 <= j < i + 1 && guild_ids@[j] == h) {
                    match lookup2(old(self).members@, h, user@) {
                        Some(m) => Some(m.role_ids@),
                        None => lookup_ids(old(self).current_user_role_ids@, h),
                    }
                } else {
                    lookup_ids(old(self).current_user_role_ids@, h)
                } by {
                    if h == g {
                        assert(guild_ids@[i as int] == h);
                        if lookup2(old(self).members@, h, user@) is None {
                            assert(!(exists|j: int| 0 <= j < i && guild_ids@[j] == h));
                            assert(lookup_ids(self.current_user_role_ids@, h) == lookup_ids(before, h));
                        }
                    } else {
                        assert(lookup_ids(self.current_user_role_ids@, h) == lookup_ids(before, h));
                        if exists|j: int| 0 <= j < i + 1 && guild_ids@[j] == h {
                            let j = choose|j: int| 0 <= j < i + 1 && guild_ids@[j] == h;
                            assert(j != i);
                        }
                    }
                }
            }
            i = i + 1;
        }
        proof {
            assert forall|g: u64| #[trigger] lookup_ids(self.current_user_role_ids@, g) == match lookup2(
                old(self).members@,
                g,
                user@,
            ) {
                Some(m) => Some(m.role_ids@),
                None => lookup_ids(old(self).current_user_role_ids@, g),
            } by {
                if lookup2(old(self).members@, g, user@) is Some {
                    assert(guild_ids@.contains(g));
                    let j = choose|j: int| 0 <= j < guild_ids@.len() && guild_ids@[j] == g;
                    assert(exists|j: int| 0 <= j < n && guild_ids@[j] == g);
                }
            }
        }
    }
}

/// The colour chosen for a name is that of one of the given roles, and no
/// other visibly coloured role among them comes before it in display order.
pub proof fn lemma_selected_color_is_top_role(
    role_ids: Seq<Id<RoleMarker>>,
    roles: Map<u64, RoleState>,
    c: u32,
)
    requires
        selected_color_spec(role_ids, roles, Some(c)),
    ensures
        c != 0,
        exists|i: int| colored_role(role_ids, roles, i) && roles[role_ids[i]@].color == Some(c),
{
    let i = choose|i: int| {
        &&& colored_role(role_ids, roles, i)
        &&& roles[role_ids[i]@].color == Some(c)
        &&& forall|j: int| colored_role(role_ids, roles, j) ==> !role_before(
            #[trigger] roles[role_ids[j]@],
            roles[role_ids[i]@],
        )
    };
    assert(colored_role(role_ids, roles, i) && roles[role_ids[i]@].color == Some(c));
}

} // verus!
