//! What a server is made of: its roles and channels, and who may do what in it.

use crate::text::{same_ignoring_ascii_case, same_text};
use serenity::all::Permissions;
use std::collections::HashMap;
use vstd::prelude::*;

verus! {

broadcast use vstd::std_specs::hash::group_hash_axioms;

/// The bit of the permission that stands for all others.
pub const ADMINISTRATOR: u64 = 0x8;

/// The bit of the permission to manage channels.
pub const MANAGE_CHANNELS: u64 = 0x10;

/// The bit of the permission to see a channel.
pub const VIEW_CHANNEL: u64 = 0x400;

/// The bit of the permission to write in a channel.
pub const SEND_MESSAGES: u64 = 0x800;

/// `Permissions::MANAGE_CHANNELS` of serenity, as its bits.
#[verifier::external_body]
pub(crate) fn manage_channels() -> (bits: u64)
    ensures
        bits == MANAGE_CHANNELS,
{
    Permissions::MANAGE_CHANNELS.bits()
}

/// `Permissions::VIEW_CHANNEL` of serenity, as its bits.
#[verifier::external_body]
pub(crate) fn view_channel() -> (bits: u64)
    ensures
        bits == VIEW_CHANNEL,
{
    Permissions::VIEW_CHANNEL.bits()
}

/// `Permissions::SEND_MESSAGES` of serenity, as its bits.
#[verifier::external_body]
pub(crate) fn send_messages() -> (bits: u64)
    ensures
        bits == SEND_MESSAGES,
{
    Permissions::SEND_MESSAGES.bits()
}

/// `Permissions::administrator` of serenity, on the permissions with the given bits: whether the
/// bit of the administrator is among them.
#[verifier::external_body]
pub(crate) fn grants_administrator(bits: u64) -> (granted: bool)
    ensures
        granted == (bits & ADMINISTRATOR == ADMINISTRATOR),
{
    Permissions::from_bits_retain(bits).administrator()
}

/// A role of a server.
pub struct GuildRole {
    pub id: u64,
    pub name: String,
}

/// A channel of a server, with the category that it stands in.
pub struct GuildChannel {
    pub id: u64,
    pub parent_id: Option<u64>,
}

/// Who owns a server, and the permission bits of each of its roles.
pub struct Guild {
    pub owner_id: u64,
    pub role_permissions: HashMap<u64, u64>,
}

/// Whether a member may administer a server: as its owner, or through one of their roles.
pub open spec fn may_administer(guild: Guild, user_id: u64, member_roles: Seq<u64>) -> bool {
    guild.owner_id == user_id || exists|i: int|
        0 <= i < member_roles.len() && guild.role_permissions@.contains_key(
            #[trigger] member_roles[i],
        ) && guild.role_permissions@[member_roles[i]] & ADMINISTRATOR == ADMINISTRATOR
}

/// Whether a member may administer a server.
pub fn is_server_admin(guild: &Guild, user_id: u64, member_roles: &Vec<u64>) -> (is_admin: bool)
    ensures
        is_admin == may_administer(*guild, user_id, member_roles@),
{
    if guild.owner_id == user_id {
        return true;
    }
    let mut next: usize = 0;
    while next < member_roles.len()
        invariant
            next <= member_roles.len(),
            guild.owner_id != user_id,
            forall|i: int|
                0 <= i < next ==> !(guild.role_permissions@.contains_key(
                    #[trigger] member_roles@[i],
                ) && guild.role_permissions@[member_roles@[i]] & ADMINISTRATOR == ADMINISTRATOR),
        decreases member_roles.len() - next,
    {
        match guild.role_permissions.get(&member_roles[next]) {
            Some(bits) => {
                if grants_administrator(*bits) {
                    assert(guild.role_permissions@.contains_key(member_roles@[next as int]));
                    return true;
                }
            },
            None => {},
        }
        next = next + 1;
    }
    false
}

/// The id of the first role whose name is the given one, but for the case of ASCII letters.
pub open spec fn first_role_like(roles: Seq<GuildRole>, name: Seq<char>) -> Option<u64>
    decreases roles.len(),
{
    if roles.len() == 0 {
        None
    } else if same_ignoring_ascii_case(roles[0].name@, name) {
        Some(roles[0].id)
    } else {
        first_role_like(roles.skip(1), name)
    }
}

/// The id of the first role with exactly the given name.
pub open spec fn first_role_named(roles: Seq<GuildRole>, name: Seq<char>) -> Option<u64>
    decreases roles.len(),
{
    if roles.len() == 0 {
        None
    } else if roles[0].name@ == name {
        Some(roles[0].id)
    } else {
        first_role_named(roles.skip(1), name)
    }
}

/// Finds a role by its name, whatever the case of its ASCII letters. The first one in the order
/// that is given is taken.
pub fn find_role_like(roles: &Vec<GuildRole>, name: &str) -> (role_id: Option<u64>)
    ensures
        role_id == first_role_like(roles@, name@),
        role_id is Some <==> exists|i: int|
            0 <= i < roles@.len() && same_ignoring_ascii_case(
                (#[trigger] roles@[i]).name@,
                name@,
            ),
        role_id is Some ==> exists|i: int|
            0 <= i < roles@.len() && (#[trigger] roles@[i]).id == role_id->0
                && same_ignoring_ascii_case(roles@[i].name@, name@),
{
    proof {
        law_the_first_role_like_a_name(roles@, name@);
    }
    let mut next: usize = 0;
    assert(roles@.skip(0) =~= roles@);
    while next < roles.len()
        invariant
            next <= roles.len(),
            first_role_like(roles@, name@) == first_role_like(roles@.skip(next as int), name@),
        decreases roles.len() - next,
    {
        assert(roles@.skip(next as int).skip(1) =~= roles@.skip(next + 1));
        if roles[next].name.as_str().eq_ignore_ascii_case(name) {
            return Some(roles[next].id);
        }
        next = next + 1;
    }
    None
}

/// Finds a role by its exact name. The first one in the order that is given is taken.
pub fn find_role_named(roles: &Vec<GuildRole>, name: &str) -> (role_id: Option<u64>)
    ensures
        role_id == first_role_named(roles@, name@),
        role_id is Some <==> exists|i: int|
            0 <= i < roles@.len() && (#[trigger] roles@[i]).name@ == name@,
        role_id is Some ==> exists|i: int|
            0 <= i < roles@.len() && (#[trigger] roles@[i]).id == role_id->0 && roles@[i].name@
                == name@,
{
    proof {
        law_the_first_role_of_a_name(roles@, name@);
    }
    let mut next: usize = 0;
    assert(roles@.skip(0) =~= roles@);
    while next < roles.len()
        invariant
            next <= roles.len(),
            first_role_named(roles@, name@) == first_role_named(roles@.skip(next as int), name@),
        decreases roles.len() - next,
    {
        assert(roles@.skip(next as int).skip(1) =~= roles@.skip(next + 1));
        if same_text(roles[next].name.as_str(), name) {
            return Some(roles[next].id);
        }
        next = next + 1;
    }
    None
}

/// Whom a permission overwrite is for.
#[derive(Debug, Clone, Copy, PartialEq, Eq, Structural)]
pub enum OverwriteTarget {
    Role(u64),
    Member(u64),
}

/// Permissions that are granted or taken in a channel, as bits.
#[derive(Debug, Clone, Copy, PartialEq, Eq, Structural)]
pub struct Overwrite {
    pub allow: u64,
    pub deny: u64,
    pub target: OverwriteTarget,
}

/// The overwrites of which the channels of a project are given some.
#[derive(Debug, Clone, Copy, PartialEq, Eq, Structural)]
pub struct ProjectOverwrites {
    pub deny_everyone: Overwrite,
    pub allow_project: Overwrite,
    pub readonly_project: Overwrite,
    pub allow_pm: Overwrite,
    pub allow_bot: Overwrite,
}

/// The overwrites of a project. The role that everyone has bears the id of the server.
pub open spec fn project_overwrites(
    guild_id: u64,
    project_role_id: u64,
    bot_id: u64,
    pm_id: u64,
) -> ProjectOverwrites {
    ProjectOverwrites {
        deny_everyone: Overwrite {
            allow: 0,
            deny: VIEW_CHANNEL,
            target: OverwriteTarget::Role(guild_id),
        },
        allow_project: Overwrite {
            allow: VIEW_CHANNEL | SEND_MESSAGES,
            deny: 0,
            target: OverwriteTarget::Role(project_role_id),
        },
        readonly_project: Overwrite {
            allow: VIEW_CHANNEL,
            deny: SEND_MESSAGES,
            target: OverwriteTarget::Role(project_role_id),
        },
        allow_pm: Overwrite {
            allow: VIEW_CHANNEL | SEND_MESSAGES,
            deny: 0,
            target: OverwriteTarget::Member(pm_id),
        },
        allow_bot: Overwrite {
            allow: VIEW_CHANNEL | SEND_MESSAGES | MANAGE_CHANNELS,
            deny: 0,
            target: OverwriteTarget::Member(bot_id),
        },
    }
}

/// The overwrites of a project.
pub fn build_permission_overwrites(
    guild_id: u64,
    project_role_id: u64,
    bot_id: u64,
    pm_id: u64,
) -> (overwrites: ProjectOverwrites)
    ensures
        overwrites == project_overwrites(guild_id, project_role_id, bot_id, pm_id),
{
    ProjectOverwrites {
        deny_everyone: Overwrite {
            allow: 0,
            deny: view_channel(),
            target: OverwriteTarget::Role(guild_id),
        },
        allow_project: Overwrite {
            allow: view_channel() | send_messages(),
            deny: 0,
            target: OverwriteTarget::Role(project_role_id),
        },
        readonly_project: Overwrite {
            allow: view_channel(),
            deny: send_messages(),
            target: OverwriteTarget::Role(project_role_id),
        },
        allow_pm: Overwrite {
            allow: view_channel() | send_messages(),
            deny: 0,
            target: OverwriteTarget::Member(pm_id),
        },
        allow_bot: Overwrite {
            allow: view_channel() | send_messages() | manage_channels(),
            deny: 0,
            target: OverwriteTarget::Member(bot_id),
        },
    }
}

/// Whether an overwrite grants a permission.
pub open spec fn grants(overwrite: Overwrite, permission: u64) -> bool {
    overwrite.allow & permission == permission
}

/// Whether an overwrite takes a permission away.
pub open spec fn withholds(overwrite: Overwrite, permission: u64) -> bool {
    overwrite.deny & permission == permission
}

/// Everyone is shut out of the channels of a project; its members, its manager and the bot see
/// them. In a read-only channel the members cannot write. Only the bot manages channels.
pub proof fn law_overwrites_grant_and_withhold(
    guild_id: u64,
    project_role_id: u64,
    bot_id: u64,
    pm_id: u64,
)
    ensures
        ({
            let overwrites = project_overwrites(guild_id, project_role_id, bot_id, pm_id);
            &&& withholds(overwrites.deny_everyone, VIEW_CHANNEL)
            &&& grants(overwrites.allow_project, VIEW_CHANNEL)
            &&& grants(overwrites.allow_project, SEND_MESSAGES)
            &&& grants(overwrites.readonly_project, VIEW_CHANNEL)
            &&& withholds(overwrites.readonly_project, SEND_MESSAGES)
            &&& grants(overwrites.allow_pm, VIEW_CHANNEL)
            &&& grants(overwrites.allow_pm, SEND_MESSAGES)
            &&& grants(overwrites.allow_bot, VIEW_CHANNEL)
            &&& grants(overwrites.allow_bot, SEND_MESSAGES)
            &&& grants(overwrites.allow_bot, MANAGE_CHANNELS)
            &&& !grants(overwrites.allow_project, MANAGE_CHANNELS)
            &&& !grants(overwrites.readonly_project, MANAGE_CHANNELS)
            &&& !grants(overwrites.allow_pm, MANAGE_CHANNELS)
        }),
{
    assert(0x400u64 & 0x400 == 0x400) by (bit_vector);
    assert(0x800u64 & 0x800 == 0x800) by (bit_vector);
    assert((0x400u64 | 0x800) & 0x400 == 0x400) by (bit_vector);
    assert((0x400u64 | 0x800) & 0x800 == 0x800) by (bit_vector);
    assert((0x400u64 | 0x800) & 0x10 != 0x10) by (bit_vector);
    assert(0x400u64 & 0x10 != 0x10) by (bit_vector);
    assert((0x400u64 | 0x800 | 0x10) & 0x400 == 0x400) by (bit_vector);
    assert((0x400u64 | 0x800 | 0x10) & 0x800 == 0x800) by (bit_vector);
    assert((0x400u64 | 0x800 | 0x10) & 0x10 == 0x10) by (bit_vector);
}

/// No overwrite of a project both grants and withholds a permission.
pub proof fn law_overwrites_do_not_clash(
    guild_id: u64,
    project_role_id: u64,
    bot_id: u64,
    pm_id: u64,
)
    ensures
        ({
            let overwrites = project_overwrites(guild_id, project_role_id, bot_id, pm_id);
            &&& overwrites.deny_everyone.allow & overwrites.deny_everyone.deny == 0
            &&& overwrites.allow_project.allow & overwrites.allow_project.deny == 0
            &&& overwrites.readonly_project.allow & overwrites.readonly_project.deny == 0
            &&& overwrites.allow_pm.allow & overwrites.allow_pm.deny == 0
            &&& overwrites.allow_bot.allow & overwrites.allow_bot.deny == 0
        }),
{
    assert(0u64 & 0x400 == 0) by (bit_vector);
    assert((0x400u64 | 0x800) & 0 == 0) by (bit_vector);
    assert(0x400u64 & 0x800 == 0) by (bit_vector);
    assert((0x400u64 | 0x800 | 0x10) & 0 == 0) by (bit_vector);
}

/// The role that is found by a name bears exactly that name, and no role before it does; none is
/// found exactly where no role bears the name.
pub proof fn law_the_first_role_of_a_name(roles: Seq<GuildRole>, name: Seq<char>)
    ensures
        match first_role_named(roles, name) {
            Some(id) => exists|i: int|
                0 <= i < roles.len() && (#[trigger] roles[i]).id == id && roles[i].name@ == name
                    && forall|j: int| 0 <= j < i ==> (#[trigger] roles[j]).name@ != name,
            None => forall|i: int| 0 <= i < roles.len() ==> (#[trigger] roles[i]).name@ != name,
        },
    decreases roles.len(),
{
    if roles.len() > 0 {
        let others = roles.skip(1);
        if roles[0].name@ != name {
            law_the_first_role_of_a_name(others, name);
            assert forall|i: int| 1 <= i < roles.len() implies #[trigger] roles[i] == others[i
                - 1] by {}
            if first_role_named(roles, name) is Some {
                let id = first_role_named(roles, name)->0;
                let i = choose|i: int|
                    0 <= i < others.len() && (#[trigger] others[i]).id == id && others[i].name@
                        == name && forall|j: int|
                        0 <= j < i ==> (#[trigger] others[j]).name@ != name;
                assert(roles[i + 1] == others[i]);
            }
        } else {
            assert(roles[0].id == first_role_named(roles, name)->0);
        }
    }
}

/// The role that is found by a name whatever the case of its ASCII letters bears that name but for
/// the case, and no role before it does; none is found exactly where no role does.
pub proof fn law_the_first_role_like_a_name(roles: Seq<GuildRole>, name: Seq<char>)
    ensures
        match first_role_like(roles, name) {
            Some(id) => exists|i: int|
                0 <= i < roles.len() && (#[trigger] roles[i]).id == id && same_ignoring_ascii_case(
                    roles[i].name@,
                    name,
                ) && forall|j: int|
                    0 <= j < i ==> !same_ignoring_ascii_case((#[trigger] roles[j]).name@, name),
            None => forall|i: int|
                0 <= i < roles.len() ==> !same_ignoring_ascii_case(
                    (#[trigger] roles[i]).name@,
                    name,
                ),
        },
    decreases roles.len(),
{
    if roles.len() > 0 {
        let others = roles.skip(1);
        if !same_ignoring_ascii_case(roles[0].name@, name) {
            law_the_first_role_like_a_name(others, name);
            assert forall|i: int| 1 <= i < roles.len() implies #[trigger] roles[i] == others[i
                - 1] by {}
            if first_role_like(roles, name) is Some {
                let id = first_role_like(roles, name)->0;
                let i = choose|i: int|
                    0 <= i < others.len() && (#[trigger] others[i]).id == id
                        && same_ignoring_ascii_case(others[i].name@, name) && forall|j: int|
                        0 <= j < i ==> !same_ignoring_ascii_case(
                            (#[trigger] others[j]).name@,
                            name,
                        );
                assert(roles[i + 1] == others[i]);
            }
        } else {
            assert(roles[0].id == first_role_like(roles, name)->0);
        }
    }
}

/// A user may administer a server exactly where they own it, or have a role to which the server
/// gives the permission with the bit eight.
pub proof fn law_who_may_administer(guild: Guild, user_id: u64, member_roles: Seq<u64>)
    ensures
        guild.owner_id == user_id ==> may_administer(guild, user_id, member_roles),
        forall|role_id: u64|
            member_roles.contains(role_id) && guild.role_permissions@.contains_key(role_id)
                && #[trigger] guild.role_permissions@[role_id] & 8 == 8 ==> may_administer(
                guild,
                user_id,
                member_roles,
            ),
        may_administer(guild, user_id, member_roles) && guild.owner_id != user_id ==> exists|
            role_id: u64,
        |
            #[trigger] member_roles.contains(role_id) && guild.role_permissions@.contains_key(
                role_id,
            ) && guild.role_permissions@[role_id] & 8 == 8,
{
    assert forall|role_id: u64|
        member_roles.contains(role_id) && guild.role_permissions@.contains_key(role_id)
            && #[trigger] guild.role_permissions@[role_id] & 8 == 8 implies may_administer(
        guild,
        user_id,
        member_roles,
    ) by {
        let i = choose|i: int| 0 <= i < member_roles.len() && member_roles[i] == role_id;
        assert(guild.role_permissions@.contains_key(member_roles[i]));
    }
    if may_administer(guild, user_id, member_roles) && guild.owner_id != user_id {
        let i = choose|i: int|
            0 <= i < member_roles.len() && guild.role_permissions@.contains_key(
                #[trigger] member_roles[i],
            ) && guild.role_permissions@[member_roles[i]] & ADMINISTRATOR == ADMINISTRATOR;
        assert(member_roles.contains(member_roles[i]));
    }
}

/// The overwrites of a project in full: which bits are granted and taken, and for whom.
pub proof fn law_the_overwrites_in_full(
    guild_id: u64,
    project_role_id: u64,
    bot_id: u64,
    pm_id: u64,
)
    ensures
        ({
            let overwrites = project_overwrites(guild_id, project_role_id, bot_id, pm_id);
            &&& overwrites.deny_everyone.target == OverwriteTarget::Role(guild_id)
            &&& overwrites.deny_everyone.allow == 0
            &&& overwrites.deny_everyone.deny == 0x400
            &&& overwrites.allow_project.target == OverwriteTarget::Role(project_role_id)
            &&& overwrites.allow_project.allow == 0xc00
            &&& overwrites.allow_project.deny == 0
            &&& overwrites.readonly_project.target == OverwriteTarget::Role(project_role_id)
            &&& overwrites.readonly_project.allow == 0x400
            &&& overwrites.readonly_project.deny == 0x800
            &&& overwrites.allow_pm.target == OverwriteTarget::Member(pm_id)
            &&& overwrites.allow_pm.allow == 0xc00
            &&& overwrites.allow_pm.deny == 0
            &&& overwrites.allow_bot.target == OverwriteTarget::Member(bot_id)
            &&& overwrites.allow_bot.allow == 0xc10
            &&& overwrites.allow_bot.deny == 0
        }),
{
    assert(0x400u64 | 0x800 == 0xc00) by (bit_vector);
    assert(0x400u64 | 0x800 | 0x10 == 0xc10) by (bit_vector);
}

} // verus!
