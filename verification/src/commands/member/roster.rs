//! Who takes part in a project, and whom a command names.

use crate::commands::option::{arguments, CommandOption, OptionValue};
use crate::integration::notion::member::{member_views, MemberView, NotionMember};
use crate::integration::notion::project::{Project, ProjectView};
use crate::text::{
    convert_string_to_discord_id, decimal, discord_id, law_discord_id_round_trip, same_text,
    to_decimal,
};
use vstd::prelude::*;

verus! {

/// Whether the Discord ids of all who take part in a project can be read.
pub open spec fn is_readable(project: ProjectView) -> bool {
    discord_id(project.pm.discord_id) is Some && forall|i: int|
        0 <= i < project.participants.len() ==> discord_id(
            (#[trigger] project.participants[i]).discord_id,
        ) is Some
}

/// The Discord ids of all who take part in a project, the manager first.
pub open spec fn included_in(project: ProjectView) -> Seq<u64> {
    seq![discord_id(project.pm.discord_id)->0] + Seq::new(
        project.participants.len(),
        |i: int| discord_id(project.participants[i].discord_id)->0,
    )
}

/// The Discord ids of all who take part in a project, the manager first; `None` where one of them
/// cannot be read.
pub fn included_members(project: &Project) -> (included: Option<Vec<u64>>)
    ensures
        included is Some <==> is_readable(project@),
        included is Some ==> included->0@ == included_in(project@),
{
    let pm_id: u64 = match convert_string_to_discord_id(project.pm.discord_id.as_str()) {
        Some(id) => id,
        None => return None,
    };
    let mut included: Vec<u64> = Vec::new();
    included.push(pm_id);
    let mut next: usize = 0;
    while next < project.participants.len()
        invariant
            next <= project.participants.len(),
            included.len() == next + 1,
            discord_id(project@.pm.discord_id) == Some(included@[0]),
            forall|i: int|
                0 <= i < next ==> discord_id(#[trigger] project@.participants[i].discord_id)
                    == Some(included@[i + 1]),
        decreases project.participants.len() - next,
    {
        assert(project@.participants[next as int] == project.participants@[next as int]@);
        match convert_string_to_discord_id(project.participants[next].discord_id.as_str()) {
            Some(id) => included.push(id),
            None => return None,
        }
        next = next + 1;
    }
    assert(included@ =~= included_in(project@)) by {
        assert forall|i: int| 0 <= i < included@.len() implies #[trigger] included@[i]
            == included_in(project@)[i] by {
            if i > 0 {
                assert(discord_id(project@.participants[i - 1].discord_id) == Some(
                    included@[i - 1 + 1],
                ));
            }
        }
    }
    Some(included)
}

/// Whether a user manages a project.
pub open spec fn manages(project: ProjectView, user_id: u64) -> bool {
    discord_id(project.pm.discord_id) == Some(user_id)
}

/// Whether a user manages a project.
pub fn is_project_pm(project: &Project, user_id: u64) -> (is_pm: bool)
    ensures
        is_pm == manages(project@, user_id),
{
    match convert_string_to_discord_id(project.pm.discord_id.as_str()) {
        Some(id) => id == user_id,
        None => false,
    }
}

/// The users among some options, in their order.
pub open spec fn users_among(options: Seq<CommandOption>) -> Seq<u64>
    decreases options.len(),
{
    if options.len() == 0 {
        Seq::empty()
    } else {
        let before = users_among(options.drop_last());
        match options.last().value {
            OptionValue::User(user_id) => before.push(user_id),
            _ => before,
        }
    }
}

/// The users that a subcommand names, in their order.
pub fn extract_target_user_ids(subcommand_option: &CommandOption) -> (user_ids: Vec<u64>)
    ensures
        user_ids@ == users_among(arguments(*subcommand_option)),
{
    let mut user_ids: Vec<u64> = Vec::new();
    match &subcommand_option.value {
        OptionValue::SubCommand(options) => {
            let mut next: usize = 0;
            while next < options.len()
                invariant
                    next <= options.len(),
                    user_ids@ == users_among(options@.take(next as int)),
                decreases options.len() - next,
            {
                assert(options@.take(next + 1).drop_last() =~= options@.take(next as int));
                match &options[next].value {
                    OptionValue::User(user_id) => user_ids.push(*user_id),
                    _ => {},
                }
                next = next + 1;
            }
            assert(options@.take(next as int) =~= options@);
        },
        _ => {},
    }
    user_ids
}

/// The member that is entered for a user.
pub open spec fn new_member(name: Seq<char>, user_id: u64) -> MemberView {
    MemberView { id: Seq::empty(), name, discord_id: decimal(user_id as nat) }
}

/// The members whose Discord id is not the given one, in their order.
pub open spec fn without(members: Seq<MemberView>, user_id: u64) -> Seq<MemberView>
    decreases members.len(),
{
    if members.len() == 0 {
        Seq::empty()
    } else {
        let before = without(members.drop_last(), user_id);
        if members.last().discord_id == decimal(user_id as nat) {
            before
        } else {
            before.push(members.last())
        }
    }
}

/// The members whose Discord ids are none of the given ones, in their order.
pub open spec fn without_all(members: Seq<MemberView>, user_ids: Seq<u64>) -> Seq<MemberView>
    decreases user_ids.len(),
{
    if user_ids.len() == 0 {
        members
    } else {
        without(without_all(members, user_ids.drop_last()), user_ids.last())
    }
}

/// The members that are entered for some users, each under the name at its place.
pub open spec fn new_members(names: Seq<Seq<char>>, user_ids: Seq<u64>) -> Seq<MemberView> {
    Seq::new(user_ids.len(), |i: int| new_member(names[i], user_ids[i]))
}

/// Enters a user among those who take part in a project.
pub fn add_participant(project: &mut Project, name: &str, user_id: u64)
    ensures
        final(project)@ == (ProjectView {
            participants: old(project)@.participants.push(new_member(name@, user_id)),
            ..old(project)@
        }),
{
    let member = NotionMember {
        id: String::new(),
        name: name.to_string(),
        discord_id: to_decimal(user_id),
    };
    project.participants.push(member);
    assert(project@.participants =~= old(project)@.participants.push(new_member(name@, user_id)));
}

/// Strikes a user from those who take part in a project.
pub fn remove_participant(project: &mut Project, user_id: u64)
    ensures
        final(project)@ == (ProjectView {
            participants: without(old(project)@.participants, user_id),
            ..old(project)@
        }),
{
    let text = to_decimal(user_id);
    let mut kept: Vec<NotionMember> = Vec::new();
    let ghost members = project@.participants;
    let mut next: usize = 0;
    assert(member_views(kept@) =~= without(members.take(0), user_id));
    while next < project.participants.len()
        invariant
            next <= project.participants.len(),
            project@ == old(project)@,
            members == project@.participants,
            text@ == decimal(user_id as nat),
            member_views(kept@) == without(members.take(next as int), user_id),
        decreases project.participants.len() - next,
    {
        let ghost before = kept@;
        assert(members.take(next + 1).drop_last() =~= members.take(next as int));
        assert(members[next as int] == project.participants@[next as int]@);
        if !same_text(project.participants[next].discord_id.as_str(), text.as_str()) {
            kept.push(project.participants[next].clone());
            assert(member_views(kept@) =~= member_views(before).push(members[next as int]));
        }
        next = next + 1;
    }
    assert(members.take(next as int) =~= members);
    project.participants = kept;
}

/// Of those who took part, exactly those with another Discord id are left.
pub proof fn law_only_the_removed_go(members: Seq<MemberView>, user_id: u64)
    ensures
        forall|member: MemberView| #[trigger]
            without(members, user_id).contains(member) <==> members.contains(member)
                && member.discord_id != decimal(user_id as nat),
    decreases members.len(),
{
    if members.len() > 0 {
        let fewer = members.drop_last();
        let before = without(fewer, user_id);
        let after = without(members, user_id);
        law_only_the_removed_go(fewer, user_id);
        assert forall|member: MemberView| #[trigger] after.contains(member) <==> members.contains(
            member,
        ) && member.discord_id != decimal(user_id as nat) by {
            if after.contains(member) {
                let k = choose|k: int| 0 <= k < after.len() && after[k] == member;
                if k < before.len() {
                    assert(before[k] == member);
                    assert(before.contains(member));
                    let j = choose|j: int| 0 <= j < fewer.len() && fewer[j] == member;
                    assert(members[j] == member);
                } else {
                    assert(members[members.len() - 1] == member);
                }
            }
            if members.contains(member) && member.discord_id != decimal(user_id as nat) {
                let j = choose|j: int| 0 <= j < members.len() && members[j] == member;
                if j < fewer.len() {
                    assert(fewer[j] == member);
                    assert(before.contains(member));
                    let k = choose|k: int| 0 <= k < before.len() && before[k] == member;
                    assert(after[k] == member);
                } else {
                    assert(after[after.len() - 1] == member);
                }
            }
        }
    }
}

/// Removing a user who was just added leaves those who took part before, where the user was not
/// among them.
pub proof fn law_removing_undoes_adding(members: Seq<MemberView>, name: Seq<char>, user_id: u64)
    requires
        forall|i: int|
            0 <= i < members.len() ==> (#[trigger] members[i]).discord_id != decimal(
                user_id as nat,
            ),
    ensures
        without(members.push(new_member(name, user_id)), user_id) == members,
{
    lemma_without_nobody(members, user_id);
    assert(members.push(new_member(name, user_id)).drop_last() =~= members);
}

/// Nobody goes where nobody has the Discord id.
proof fn lemma_without_nobody(members: Seq<MemberView>, user_id: u64)
    requires
        forall|i: int|
            0 <= i < members.len() ==> (#[trigger] members[i]).discord_id != decimal(
                user_id as nat,
            ),
    ensures
        without(members, user_id) == members,
    decreases members.len(),
{
    if members.len() > 0 {
        assert forall|i: int| 0 <= i < members.len() - 1 implies (
        #[trigger] members.drop_last()[i]).discord_id != decimal(user_id as nat) by {
            assert(members.drop_last()[i] == members[i]);
        }
        lemma_without_nobody(members.drop_last(), user_id);
        assert(members.drop_last().push(members.last()) =~= members);
    } else {
        assert(without(members, user_id) =~= members);
    }
}

/// Whoever is added to a project is found among those who take part in it.
pub proof fn law_the_added_are_included(project: ProjectView, name: Seq<char>, user_id: u64)
    requires
        user_id != 0,
        is_readable(project),
    ensures
        ({
            let after = ProjectView {
                participants: project.participants.push(new_member(name, user_id)),
                ..project
            };
            is_readable(after) && included_in(after) == included_in(project).push(user_id)
        }),
{
    law_discord_id_round_trip(user_id);
    let after = ProjectView {
        participants: project.participants.push(new_member(name, user_id)),
        ..project
    };
    assert forall|i: int| 0 <= i < after.participants.len() implies discord_id(
        (#[trigger] after.participants[i]).discord_id,
    ) is Some by {
        if i < project.participants.len() {
            assert(after.participants[i] == project.participants[i]);
        }
    }
    assert(included_in(after) =~= included_in(project).push(user_id));
}

/// Whoever is removed from a project no longer takes part in it, where Discord ids are written
/// down without plus signs and leading zeros.
pub proof fn law_the_removed_are_gone(members: Seq<MemberView>, user_id: u64)
    requires
        forall|i: int|
            0 <= i < members.len() && discord_id((#[trigger] members[i]).discord_id) == Some(
                user_id,
            ) ==> members[i].discord_id == decimal(user_id as nat),
    ensures
        forall|i: int|
            0 <= i < without(members, user_id).len() ==> discord_id(
                (#[trigger] without(members, user_id)[i]).discord_id,
            ) != Some(user_id),
{
    law_only_the_removed_go(members, user_id);
    let left = without(members, user_id);
    assert forall|i: int| 0 <= i < left.len() implies discord_id(
        (#[trigger] left[i]).discord_id,
    ) != Some(user_id) by {
        assert(left.contains(left[i]));
        let j = choose|j: int| 0 <= j < members.len() && members[j] == left[i];
        assert(members[j].discord_id != decimal(user_id as nat));
    }
}

/// What is left of two groups is what is left of the one and of the other.
proof fn lemma_without_parts(one: Seq<MemberView>, other: Seq<MemberView>, user_id: u64)
    ensures
        without(one + other, user_id) == without(one, user_id) + without(other, user_id),
    decreases other.len(),
{
    if other.len() == 0 {
        assert(one + other =~= one);
        assert(without(one, user_id) + without(other, user_id) =~= without(one, user_id));
    } else {
        lemma_without_parts(one, other.drop_last(), user_id);
        assert((one + other).drop_last() =~= one + other.drop_last());
        assert((one + other).last() == other.last());
        assert(without(one + other, user_id) =~= without(one, user_id) + without(other, user_id));
    }
}

/// What is left of two groups is what is left of the one and of the other.
proof fn lemma_without_all_parts(
    one: Seq<MemberView>,
    other: Seq<MemberView>,
    user_ids: Seq<u64>,
)
    ensures
        without_all(one + other, user_ids) == without_all(one, user_ids) + without_all(
            other,
            user_ids,
        ),
    decreases user_ids.len(),
{
    if user_ids.len() > 0 {
        let fewer = user_ids.drop_last();
        lemma_without_all_parts(one, other, fewer);
        lemma_without_parts(
            without_all(one, fewer),
            without_all(other, fewer),
            user_ids.last(),
        );
    }
}

/// Nobody goes where nobody has one of the Discord ids.
proof fn lemma_without_all_nobody(members: Seq<MemberView>, user_ids: Seq<u64>)
    requires
        forall|i: int, j: int|
            0 <= i < members.len() && 0 <= j < user_ids.len() ==> (
            #[trigger] members[i]).discord_id != decimal((#[trigger] user_ids[j]) as nat),
    ensures
        without_all(members, user_ids) == members,
    decreases user_ids.len(),
{
    if user_ids.len() > 0 {
        let fewer = user_ids.drop_last();
        assert forall|i: int, j: int|
            0 <= i < members.len() && 0 <= j < fewer.len() implies (
        #[trigger] members[i]).discord_id != decimal((#[trigger] fewer[j]) as nat) by {
            assert(fewer[j] == user_ids[j]);
        }
        lemma_without_all_nobody(members, fewer);
        assert(user_ids.last() == user_ids[user_ids.len() - 1]);
        lemma_without_nobody(members, user_ids.last());
    }
}

/// Whoever is left was there before and has none of the Discord ids.
proof fn lemma_left_over(members: Seq<MemberView>, user_ids: Seq<u64>, member: MemberView)
    requires
        without_all(members, user_ids).contains(member),
    ensures
        members.contains(member),
        forall|j: int|
            0 <= j < user_ids.len() ==> member.discord_id != decimal(
                (#[trigger] user_ids[j]) as nat,
            ),
    decreases user_ids.len(),
{
    if user_ids.len() > 0 {
        let fewer = user_ids.drop_last();
        law_only_the_removed_go(without_all(members, fewer), user_ids.last());
        lemma_left_over(members, fewer, member);
        assert forall|j: int| 0 <= j < user_ids.len() implies member.discord_id != decimal(
            (#[trigger] user_ids[j]) as nat,
        ) by {
            if j < fewer.len() {
                assert(fewer[j] == user_ids[j]);
            }
        }
    }
}

/// Removing all users who were just added, and whoever else did not take part before, leaves those
/// who took part before, in their order.
pub proof fn law_removing_more_undoes_adding(
    members: Seq<MemberView>,
    names: Seq<Seq<char>>,
    added: Seq<u64>,
    removed: Seq<u64>,
)
    requires
        forall|i: int| 0 <= i < added.len() ==> removed.contains(#[trigger] added[i]),
        forall|i: int, j: int|
            0 <= i < members.len() && 0 <= j < removed.len() ==> (
            #[trigger] members[i]).discord_id != decimal((#[trigger] removed[j]) as nat),
    ensures
        without_all(members + new_members(names, added), removed) == members,
{
    let entered = new_members(names, added);
    let left = without_all(entered, removed);
    lemma_without_all_parts(members, entered, removed);
    lemma_without_all_nobody(members, removed);
    if left.len() > 0 {
        assert(left.contains(left[0]));
        lemma_left_over(entered, removed, left[0]);
        let i = choose|i: int| 0 <= i < entered.len() && entered[i] == left[0];
        assert(removed.contains(added[i]));
        let j = choose|j: int| 0 <= j < removed.len() && removed[j] == added[i];
        assert(left[0].discord_id != decimal(removed[j] as nat));
    }
    assert(members + left =~= members);
}

/// Removing all users who were just added leaves those who took part before, in their order, where
/// none of the users was among them.
pub proof fn law_removing_all_undoes_adding_all(
    members: Seq<MemberView>,
    names: Seq<Seq<char>>,
    user_ids: Seq<u64>,
)
    requires
        forall|i: int, j: int|
            0 <= i < members.len() && 0 <= j < user_ids.len() ==> (
            #[trigger] members[i]).discord_id != decimal((#[trigger] user_ids[j]) as nat),
    ensures
        without_all(members + new_members(names, user_ids), user_ids) == members,
{
    law_removing_more_undoes_adding(members, names, user_ids, user_ids);
}

/// Those who take part in a project are its manager and then its participants, in their order, each
/// by their own Discord id.
pub proof fn law_who_takes_part(project: ProjectView)
    requires
        is_readable(project),
    ensures
        included_in(project).len() == project.participants.len() + 1,
        discord_id(project.pm.discord_id) == Some(included_in(project)[0]),
        forall|i: int|
            0 <= i < project.participants.len() ==> discord_id(
                (#[trigger] project.participants[i]).discord_id,
            ) == Some(included_in(project)[i + 1]),
{
}

/// A project can be read exactly where the Discord id of its manager and that of each participant
/// can.
pub proof fn law_which_projects_can_be_read(project: ProjectView)
    ensures
        is_readable(project) <==> discord_id(project.pm.discord_id) is Some && forall|i: int|
            0 <= i < project.participants.len() ==> discord_id(
                (#[trigger] project.participants[i]).discord_id,
            ) is Some,
{
}

/// Exactly the user whose Discord id the manager of a project has manages it.
pub proof fn law_who_manages(project: ProjectView, user_id: u64)
    ensures
        manages(project, user_id) <==> discord_id(project.pm.discord_id) == Some(user_id),
{
}

/// The users that options name are taken one by one, in their order; other options name nobody.
pub proof fn law_which_users_are_named(front: Seq<CommandOption>, option: CommandOption)
    ensures
        users_among(Seq::empty()).len() == 0,
        option.value matches OptionValue::User(user_id) ==> users_among(front.push(option))
            == users_among(front).push(user_id),
        !(option.value is User) ==> users_among(front.push(option)) == users_among(front),
{
    assert(front.push(option).drop_last() =~= front);
}

/// A user is entered without a Notion id, under the name that was found and with their Discord id
/// in decimal notation.
pub proof fn law_how_a_user_is_entered(names: Seq<Seq<char>>, user_ids: Seq<u64>)
    ensures
        new_members(names, user_ids).len() == user_ids.len(),
        forall|i: int|
            0 <= i < user_ids.len() ==> {
                &&& (#[trigger] new_members(names, user_ids)[i]).id.len() == 0
                &&& new_members(names, user_ids)[i].name == names[i]
                &&& new_members(names, user_ids)[i].discord_id == decimal(user_ids[i] as nat)
            },
        forall|name: Seq<char>, user_id: u64|
            (#[trigger] new_member(name, user_id)) == (MemberView {
                id: Seq::empty(),
                name,
                discord_id: decimal(user_id as nat),
            }),
{
}

/// Those who are left are taken one by one, in their order: each stays as they are, unless their
/// Discord id is the one that is removed.
pub proof fn law_who_is_left(front: Seq<MemberView>, member: MemberView, user_id: u64)
    ensures
        without(Seq::empty(), user_id).len() == 0,
        member.discord_id == decimal(user_id as nat) ==> without(front.push(member), user_id)
            == without(front, user_id),
        member.discord_id != decimal(user_id as nat) ==> without(front.push(member), user_id)
            == without(front, user_id).push(member),
{
    assert(front.push(member).drop_last() =~= front);
}

/// Several users are removed one after the other.
pub proof fn law_users_are_removed_one_by_one(
    members: Seq<MemberView>,
    front: Seq<u64>,
    user_id: u64,
)
    ensures
        without_all(members, Seq::empty()) == members,
        without_all(members, front.push(user_id)) == without(without_all(members, front), user_id),
{
    assert(front.push(user_id).drop_last() =~= front);
}

} // verus!
