//! How a member command goes on when something has come back.

use crate::commands::event::Event;
use crate::commands::guild::{find_role_named, first_role_named, is_server_admin, may_administer, Guild};
use crate::commands::member::message::{
    is_lenient, list_head, list_line, push_list_line, refusal_is_lenient, render_list_head,
    MemberRefusal,
};
use crate::commands::member::roster::{
    add_participant, extract_target_user_ids, included_in, included_members, is_readable,
    new_member, remove_participant, users_among, without,
};
use crate::commands::member::state::{purpose_of, MemberCommand, MemberState, Purpose};
use crate::commands::option::{arguments, CommandOption};
use crate::commands::project::state::optional_view;
use crate::integration::notion::project::{Project, ProjectView};
use crate::text::same_text;
use vstd::prelude::*;

verus! {

/// Whether a member command has something to do for a user: whoever takes part already is not
/// added, and whoever does not is not removed.
pub open spec fn is_concerned(purpose: Purpose, included: Seq<u64>, user_id: u64) -> bool {
    if purpose == Purpose::Add {
        !included.contains(user_id)
    } else {
        included.contains(user_id)
    }
}

/// The place of the first user, from a place on, for whom there is something to do; the number of
/// users where there is none.
pub open spec fn next_concerned(
    purpose: Purpose,
    included: Seq<u64>,
    targets: Seq<u64>,
    from: int,
) -> int
    decreases targets.len() - from,
{
    if from >= targets.len() {
        targets.len() as int
    } else if is_concerned(purpose, included, targets[from]) {
        from
    } else {
        next_concerned(purpose, included, targets, from + 1)
    }
}

/// Where a command goes when it has dealt with the users before a place.
pub open spec fn next_target(
    purpose: Purpose,
    included: Seq<u64>,
    targets: Seq<u64>,
    from: int,
    processed: Seq<u64>,
    role_id: u64,
) -> MemberState {
    let index = next_concerned(purpose, included, targets, from);
    if index < targets.len() {
        if purpose == Purpose::Add {
            MemberState::FindTarget { role_id, index: index as usize }
        } else {
            MemberState::Revoke { role_id, index: index as usize }
        }
    } else if processed.len() == 0 {
        MemberState::Refuse(MemberRefusal::NothingChanged)
    } else {
        MemberState::Report
    }
}

/// Where a command goes when its project has been found.
pub open spec fn opening(purpose: Purpose, category_id: u64, included: Seq<u64>) -> MemberState {
    match purpose {
        Purpose::List => if included.len() == 0 {
            MemberState::ShowList
        } else {
            MemberState::LookUp { index: 0 }
        },
        Purpose::Add => MemberState::CheckAdmin { category_id },
        Purpose::Remove => MemberState::CheckAdmin { category_id },
        Purpose::Unknown => MemberState::Finished,
    }
}

/// Whether the server, where it could be fetched, says that the user may administer it.
pub open spec fn admin_in(command: MemberCommand, event: Event) -> bool {
    match event {
        Event::Guild(guild) => may_administer(
            guild,
            command.user_id,
            match command.member_roles {
                Some(roles) => roles@,
                None => Seq::empty(),
            },
        ),
        _ => false,
    }
}

/// The role that belongs to the project, where the roles could be fetched.
pub open spec fn role_in(command: MemberCommand, event: Event) -> Option<u64> {
    match event {
        Event::Roles(roles) => first_role_named(roles@, command.project->0.name@),
        _ => None,
    }
}

/// Where a command goes when something has come back.
pub open spec fn next_state(command: MemberCommand, event: Event) -> MemberState {
    let purpose = purpose_of(command.option);
    match command.state {
        MemberState::Defer => if !(event is Done) {
            MemberState::Failed
        } else if command.guild_id is None {
            MemberState::Refuse(MemberRefusal::NotInServer)
        } else {
            MemberState::Locate
        },
        MemberState::Refuse(refusal) => if event is Done || is_lenient(refusal) {
            MemberState::Finished
        } else {
            MemberState::Failed
        },
        MemberState::Locate => match event {
            Event::Category(Some(category_id)) => if command.option is None {
                MemberState::Refuse(MemberRefusal::NoSubcommand)
            } else {
                MemberState::FetchName { category_id }
            },
            _ => MemberState::Refuse(MemberRefusal::OutsideCategory),
        },
        MemberState::FetchName { category_id } => match event {
            Event::ChannelName(Some(_)) => MemberState::FindProject { category_id },
            _ => MemberState::Failed,
        },
        MemberState::FindProject { category_id } => match event {
            Event::Project(Some(project)) => opening(purpose, category_id, included_in(project@)),
            _ => MemberState::Finished,
        },
        MemberState::LookUp { index } => if index + 1 < command.included@.len() {
            MemberState::LookUp { index: (index + 1) as usize }
        } else {
            MemberState::ShowList
        },
        MemberState::ShowList => if event is Done {
            MemberState::Finished
        } else {
            MemberState::Failed
        },
        MemberState::CheckAdmin { category_id } => MemberState::CheckManager {
            category_id,
            is_admin: admin_in(command, event),
        },
        MemberState::CheckManager { category_id, is_admin } => if is_admin || event
            == Event::Manager(true) {
            MemberState::FetchRoles
        } else {
            MemberState::Refuse(MemberRefusal::NotAllowed)
        },
        MemberState::FetchRoles => match role_in(command, event) {
            Some(role_id) => next_target(
                purpose,
                command.included@,
                command.targets@,
                0,
                command.processed@,
                role_id,
            ),
            None => MemberState::Refuse(MemberRefusal::NoRole),
        },
        MemberState::FindTarget { role_id, index } => match event {
            Event::Member(Some(_)) => MemberState::Grant { role_id, index },
            _ => next_target(
                purpose,
                command.included@,
                command.targets@,
                index + 1,
                command.processed@,
                role_id,
            ),
        },
        MemberState::Grant { role_id, index } => next_target(
            purpose,
            command.included@,
            command.targets@,
            index + 1,
            processed_after(command, event),
            role_id,
        ),
        MemberState::Revoke { role_id, index } => next_target(
            purpose,
            command.included@,
            command.targets@,
            index + 1,
            processed_after(command, event),
            role_id,
        ),
        MemberState::Report => if event is Done {
            MemberState::Update
        } else {
            MemberState::Finished
        },
        MemberState::Update => MemberState::Finished,
        MemberState::Finished => MemberState::Finished,
        MemberState::Failed => MemberState::Failed,
    }
}

/// The name of the category, as far as the command knows it.
pub open spec fn project_name_after(command: MemberCommand, event: Event) -> Seq<char> {
    match (command.state, event) {
        (MemberState::FetchName { .. }, Event::ChannelName(Some(name))) => name@,
        _ => command.project_name@,
    }
}

/// The project with the changes that have been made. A user who has been given the role is
/// entered; one from whom it has been taken is struck.
pub open spec fn project_after(command: MemberCommand, event: Event) -> Option<ProjectView> {
    match (command.state, event) {
        (MemberState::FindProject { .. }, Event::Project(project)) => optional_view(project),
        (MemberState::Grant { role_id: _, index }, Event::Done) => match command.project {
            Some(project) => Some(
                ProjectView {
                    participants: project@.participants.push(
                        new_member(command.target_name@, command.targets@[index as int]),
                    ),
                    ..project@
                },
            ),
            None => None,
        },
        (MemberState::Revoke { role_id: _, index }, Event::Done) => match command.project {
            Some(project) => Some(
                ProjectView {
                    participants: without(
                        project@.participants,
                        command.targets@[index as int],
                    ),
                    ..project@
                },
            ),
            None => None,
        },
        _ => optional_view(command.project),
    }
}

/// Who takes part in the project, as far as the command knows it.
pub open spec fn included_after(command: MemberCommand, event: Event) -> Seq<u64> {
    match (command.state, event) {
        (MemberState::FindProject { .. }, Event::Project(Some(project))) => included_in(project@),
        _ => command.included@,
    }
}

/// Whom the command names, as far as it knows.
pub open spec fn targets_after(command: MemberCommand, event: Event) -> Seq<u64> {
    match (command.state, event, command.option) {
        (
            MemberState::FindProject { .. },
            Event::Project(Some(_)),
            Some(option),
        ) => users_among(arguments(option)),
        _ => command.targets@,
    }
}

/// For whom the command has been carried out.
pub open spec fn processed_after(command: MemberCommand, event: Event) -> Seq<u64> {
    match (command.state, event) {
        (MemberState::Grant { role_id: _, index }, Event::Done) => command.processed@.push(
            command.targets@[index as int],
        ),
        (MemberState::Revoke { role_id: _, index }, Event::Done) => command.processed@.push(
            command.targets@[index as int],
        ),
        _ => command.processed@,
    }
}

/// The list as far as it has been written.
pub open spec fn list_after(command: MemberCommand, event: Event) -> Seq<char> {
    match (command.state, event) {
        (MemberState::FindProject { .. }, Event::Project(Some(project))) => list_head(
            command.project_name@,
            included_in(project@).len() == 0,
        ),
        (MemberState::LookUp { .. }, Event::Member(Some(member))) => command.list@ + list_line(
            member.name@,
        ),
        _ => command.list@,
    }
}

/// The name of the user who is being added.
pub open spec fn target_name_after(command: MemberCommand, event: Event) -> Seq<char> {
    match (command.state, event) {
        (MemberState::FindTarget { .. }, Event::Member(Some(member))) => member.name@,
        _ => command.target_name@,
    }
}

/// Whether `after` is what a command becomes when something has come back.
pub open spec fn member_step(before: MemberCommand, event: Event, after: MemberCommand) -> bool {
    &&& after.state == next_state(before, event)
    &&& after.project_name@ == project_name_after(before, event)
    &&& optional_view(after.project) == project_after(before, event)
    &&& after.included@ == included_after(before, event)
    &&& after.targets@ == targets_after(before, event)
    &&& after.processed@ == processed_after(before, event)
    &&& after.list@ == list_after(before, event)
    &&& after.target_name@ == target_name_after(before, event)
    &&& after.guild_id == before.guild_id
    &&& after.user_id == before.user_id
    &&& after.member_roles == before.member_roles
    &&& after.option == before.option
}

/// What is asked of an event that is handed to a command: the category is a channel of the server,
/// and of a project that has been found all Discord ids can be read.
pub open spec fn is_acceptable(command: MemberCommand, event: Event) -> bool {
    match (command.state, event) {
        (MemberState::FetchName { .. }, Event::ChannelName(name)) => name is Some,
        (MemberState::FindProject { .. }, Event::Project(Some(project))) => is_readable(project@),
        _ => true,
    }
}

/// What a subcommand is for.
fn find_purpose(option: &Option<CommandOption>) -> (purpose: Purpose)
    ensures
        purpose == purpose_of(*option),
{
    match option {
        None => Purpose::Unknown,
        Some(option) => if same_text(option.name.as_str(), "list") {
            Purpose::List
        } else if same_text(option.name.as_str(), "add") {
            Purpose::Add
        } else if same_text(option.name.as_str(), "remove") {
            Purpose::Remove
        } else {
            Purpose::Unknown
        },
    }
}

/// Whether a user is among some.
fn is_among(user_ids: &Vec<u64>, user_id: u64) -> (among: bool)
    ensures
        among == user_ids@.contains(user_id),
{
    let mut next: usize = 0;
    while next < user_ids.len()
        invariant
            next <= user_ids.len(),
            forall|i: int| 0 <= i < next ==> user_ids@[i] != user_id,
        decreases user_ids.len() - next,
    {
        if user_ids[next] == user_id {
            assert(user_ids@[next as int] == user_id);
            return true;
        }
        next = next + 1;
    }
    false
}

/// Finds the next user for whom there is something to do, and where the command goes then.
fn go_to_target(
    purpose: Purpose,
    included: &Vec<u64>,
    targets: &Vec<u64>,
    from: usize,
    processed: &Vec<u64>,
    role_id: u64,
) -> (state: MemberState)
    requires
        from <= targets@.len(),
    ensures
        state == next_target(purpose, included@, targets@, from as int, processed@, role_id),
        state is FindTarget ==> state->FindTarget_index < targets@.len(),
        state is Revoke ==> state->Revoke_index < targets@.len(),
        state is FindTarget || state is Revoke || state is Report || state
            == MemberState::Refuse(MemberRefusal::NothingChanged),
{
    let mut index: usize = from;
    while index < targets.len()
        invariant
            from <= index <= targets@.len(),
            next_concerned(purpose, included@, targets@, from as int) == next_concerned(
                purpose,
                included@,
                targets@,
                index as int,
            ),
        decreases targets.len() - index,
    {
        let among = is_among(included, targets[index]);
        let concerned = match purpose {
            Purpose::Add => !among,
            _ => among,
        };
        if concerned {
            return match purpose {
                Purpose::Add => MemberState::FindTarget { role_id, index },
                _ => MemberState::Revoke { role_id, index },
            };
        }
        index = index + 1;
    }
    if processed.len() == 0 {
        MemberState::Refuse(MemberRefusal::NothingChanged)
    } else {
        MemberState::Report
    }
}

/// Takes over the project that was found, and starts on what the command is for.
fn handle_member_command(command: &mut MemberCommand, category_id: u64, project: Project)
    requires
        old(command).state == (MemberState::FindProject { category_id }),
        is_readable(project@),
    ensures
        member_step(*old(command), Event::Project(Some(project)), *final(command)),
        final(command).well_formed(),
{
    let included = match included_members(&project) {
        Some(included) => included,
        None => Vec::new(),
    };
    match &command.option {
        Some(option) => {
            command.targets = extract_target_user_ids(option);
        },
        None => {},
    }
    command.list = render_list_head(command.project_name.as_str(), included.len() == 0);
    command.state = match find_purpose(&command.option) {
        Purpose::List => if included.len() == 0 {
            MemberState::ShowList
        } else {
            MemberState::LookUp { index: 0 }
        },
        Purpose::Add => MemberState::CheckAdmin { category_id },
        Purpose::Remove => MemberState::CheckAdmin { category_id },
        Purpose::Unknown => MemberState::Finished,
    };
    command.included = included;
    command.project = Some(project);
}

/// Goes on with listing those who take part in a project.
fn member_list(command: &mut MemberCommand, index: usize, event: Event)
    requires
        old(command).state == (MemberState::LookUp { index }),
        old(command).well_formed(),
    ensures
        member_step(*old(command), event, *final(command)),
        final(command).well_formed(),
{
    match event {
        Event::Member(Some(member)) => {
            push_list_line(&mut command.list, member.name.as_str());
        },
        _ => {},
    }
    let count: usize = command.included.len();
    command.state = if index + 1 < count {
        MemberState::LookUp { index: index + 1 }
    } else {
        MemberState::ShowList
    };
}

/// Decides whether the user may change who takes part in a project.
fn check_pm_or_admin(command: &mut MemberCommand, is_admin: bool, event: Event)
    requires
        old(command).state is CheckManager,
        old(command).state->CheckManager_is_admin == is_admin,
        old(command).well_formed(),
    ensures
        member_step(*old(command), event, *final(command)),
        final(command).well_formed(),
{
    let is_pm = match event {
        Event::Manager(true) => true,
        _ => false,
    };
    command.state = if !is_pm && !is_admin {
        MemberState::Refuse(MemberRefusal::NotAllowed)
    } else {
        MemberState::FetchRoles
    };
}

/// Finds the role that belongs to a project, and starts on the users whom the command names.
fn get_target_role_id(command: &mut MemberCommand, event: Event)
    requires
        old(command).state == MemberState::FetchRoles,
        old(command).well_formed(),
    ensures
        member_step(*old(command), event, *final(command)),
        final(command).well_formed(),
{
    let role = match (&event, &command.project) {
        (Event::Roles(roles), Some(project)) => find_role_named(roles, project.name.as_str()),
        _ => None,
    };
    command.state = match role {
        Some(role_id) => go_to_target(
            find_purpose(&command.option),
            &command.included,
            &command.targets,
            0,
            &command.processed,
            role_id,
        ),
        None => MemberState::Refuse(MemberRefusal::NoRole),
    };
}

/// Goes on with adding a user who has been looked up.
fn find_target(command: &mut MemberCommand, role_id: u64, index: usize, event: Event)
    requires
        old(command).state == (MemberState::FindTarget { role_id, index }),
        old(command).well_formed(),
    ensures
        member_step(*old(command), event, *final(command)),
        final(command).well_formed(),
{
    match event {
        Event::Member(Some(member)) => {
            command.target_name = member.name;
            command.state = MemberState::Grant { role_id, index };
        },
        _ => {
            assert(index < command.targets.len());
            command.state = go_to_target(
                find_purpose(&command.option),
                &command.included,
                &command.targets,
                index + 1,
                &command.processed,
                role_id,
            );
        },
    }
}

/// Goes on with adding a user once the role has been given, or has not.
fn member_add(command: &mut MemberCommand, role_id: u64, index: usize, event: Event)
    requires
        old(command).state == (MemberState::Grant { role_id, index }),
        old(command).well_formed(),
    ensures
        member_step(*old(command), event, *final(command)),
        final(command).well_formed(),
{
    let user_id: u64 = command.targets[index];
    match event {
        Event::Done => {
            command.processed.push(user_id);
            command.project = match command.project.take() {
                Some(found) => {
                    let mut project = found;
                    add_participant(&mut project, command.target_name.as_str(), user_id);
                    Some(project)
                },
                None => None,
            };
        },
        _ => {},
    }
    assert(index < command.targets.len());
    command.state = go_to_target(
        find_purpose(&command.option),
        &command.included,
        &command.targets,
        index + 1,
        &command.processed,
        role_id,
    );
}

/// Goes on with removing a user once the role has been taken, or has not.
fn member_remove(command: &mut MemberCommand, role_id: u64, index: usize, event: Event)
    requires
        old(command).state == (MemberState::Revoke { role_id, index }),
        old(command).well_formed(),
    ensures
        member_step(*old(command), event, *final(command)),
        final(command).well_formed(),
{
    let user_id: u64 = command.targets[index];
    match event {
        Event::Done => {
            command.processed.push(user_id);
            command.project = match command.project.take() {
                Some(found) => {
                    let mut project = found;
                    remove_participant(&mut project, user_id);
                    Some(project)
                },
                None => None,
            };
        },
        _ => {},
    }
    assert(index < command.targets.len());
    command.state = go_to_target(
        find_purpose(&command.option),
        &command.included,
        &command.targets,
        index + 1,
        &command.processed,
        role_id,
    );
}

/// Goes on with a member command when something has come back. What is to be done next follows
/// from where the command then stands.
pub fn run_member_command(command: &mut MemberCommand, event: Event)
    requires
        old(command).well_formed(),
        is_acceptable(*old(command), event),
    ensures
        member_step(*old(command), event, *final(command)),
        final(command).well_formed(),
{
    match command.state {
        MemberState::Defer => {
            command.state = match event {
                Event::Done => if command.guild_id.is_none() {
                    MemberState::Refuse(MemberRefusal::NotInServer)
                } else {
                    MemberState::Locate
                },
                _ => MemberState::Failed,
            };
        },
        MemberState::Refuse(refusal) => {
            let delivered = match event {
                Event::Done => true,
                _ => false,
            };
            command.state = if delivered || refusal_is_lenient(refusal) {
                MemberState::Finished
            } else {
                MemberState::Failed
            };
        },
        MemberState::Locate => {
            command.state = match event {
                Event::Category(Some(category_id)) => if command.option.is_none() {
                    MemberState::Refuse(MemberRefusal::NoSubcommand)
                } else {
                    MemberState::FetchName { category_id }
                },
                _ => MemberState::Refuse(MemberRefusal::OutsideCategory),
            };
        },
        MemberState::FetchName { category_id } => {
            match event {
                Event::ChannelName(Some(name)) => {
                    command.project_name = name;
                    command.state = MemberState::FindProject { category_id };
                },
                _ => {
                    command.state = MemberState::Failed;
                },
            }
        },
        MemberState::FindProject { category_id } => {
            match event {
                Event::Project(Some(project)) => {
                    handle_member_command(command, category_id, project);
                },
                Event::Project(None) => {
                    command.project = None;
                    command.state = MemberState::Finished;
                },
                _ => {
                    command.state = MemberState::Finished;
                },
            }
        },
        MemberState::LookUp { index } => member_list(command, index, event),
        MemberState::ShowList => {
            command.state = match event {
                Event::Done => MemberState::Finished,
                _ => MemberState::Failed,
            };
        },
        MemberState::CheckAdmin { category_id } => {
            let is_admin = match event {
                Event::Guild(guild) => match &command.member_roles {
                    Some(roles) => is_server_admin(&guild, command.user_id, roles),
                    None => {
                        let roles: Vec<u64> = Vec::new();
                        is_server_admin(&guild, command.user_id, &roles)
                    },
                },
                _ => false,
            };
            command.state = MemberState::CheckManager { category_id, is_admin };
        },
        MemberState::CheckManager { category_id: _, is_admin } => {
            check_pm_or_admin(command, is_admin, event);
        },
        MemberState::FetchRoles => get_target_role_id(command, event),
        MemberState::FindTarget { role_id, index } => {
            find_target(command, role_id, index, event);
        },
        MemberState::Grant { role_id, index } => member_add(command, role_id, index, event),
        MemberState::Revoke { role_id, index } => member_remove(command, role_id, index, event),
        MemberState::Report => {
            command.state = match event {
                Event::Done => MemberState::Update,
                _ => MemberState::Finished,
            };
        },
        MemberState::Update => {
            command.state = MemberState::Finished;
        },
        MemberState::Finished => {},
        MemberState::Failed => {},
    }
}

} // verus!
