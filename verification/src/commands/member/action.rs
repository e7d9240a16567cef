//! What a member command asks to be done where it stands.

use crate::commands::action::{replies, updates, Action};
use crate::commands::member::message::{
    added_text, refusal_text, removed_text, render_added, render_refusal, render_removed,
};
use crate::commands::member::state::{purpose_of, MemberCommand, MemberState, Purpose};
use crate::commands::option::CommandOption;
use crate::text::same_text;
use vstd::prelude::*;

verus! {

/// The name of the project, empty where it has not been found.
pub open spec fn found_name(command: MemberCommand) -> Seq<char> {
    match command.project {
        Some(project) => project.name@,
        None => Seq::empty(),
    }
}

/// What is said when the command has been carried out.
pub open spec fn report_text(command: MemberCommand) -> Seq<char> {
    if purpose_of(command.option) == Purpose::Add {
        added_text(command.processed@, found_name(command))
    } else {
        removed_text(command.processed@, found_name(command))
    }
}

/// Whether an action is what a command calls for where it stands.
pub open spec fn calls_for(command: MemberCommand, action: Action) -> bool {
    match command.state {
        MemberState::Defer => action == Action::Defer,
        MemberState::Refuse(refusal) => replies(
            action,
            refusal_text(refusal, found_name(command)),
        ),
        MemberState::Locate => action == Action::LocateCategory,
        MemberState::FetchName { category_id } => action == (Action::FetchChannelName {
            channel_id: category_id,
        }),
        MemberState::FindProject { .. } => action is FindProject && action->FindProject_name@
            == command.project_name@,
        MemberState::LookUp { index } => action == (Action::FindMember {
            user_id: command.included@[index as int],
        }),
        MemberState::ShowList => replies(action, command.list@),
        MemberState::CheckAdmin { .. } => action == Action::FetchGuild,
        MemberState::CheckManager { category_id, is_admin: _ } => action
            == (Action::CheckManager { category_id }),
        MemberState::FetchRoles => action == Action::FetchRoles,
        MemberState::FindTarget { role_id: _, index } => action == (Action::FindMember {
            user_id: command.targets@[index as int],
        }),
        MemberState::Grant { role_id, index } => action == (Action::GrantRole {
            user_id: command.targets@[index as int],
            role_id,
        }),
        MemberState::Revoke { role_id, index } => action == (Action::RevokeRole {
            user_id: command.targets@[index as int],
            role_id,
        }),
        MemberState::Report => replies(action, report_text(command)),
        MemberState::Update => updates(action, command.project->0.id@, command.project->0@),
        MemberState::Finished => action == Action::Stop,
        MemberState::Failed => action == Action::Fail,
    }
}

/// The name of the project, empty where it has not been found.
fn name_of_found(command: &MemberCommand) -> (name: String)
    ensures
        name@ == found_name(*command),
{
    match &command.project {
        Some(project) => project.name.clone(),
        None => String::new(),
    }
}

/// Whether a command adds members.
fn adds_members(option: &Option<CommandOption>) -> (adds: bool)
    ensures
        adds == (purpose_of(*option) == Purpose::Add),
{
    proof {
        reveal_strlit("list");
        reveal_strlit("add");
        assert("list"@.len() != "add"@.len());
    }
    match option {
        Some(option) => same_text(option.name.as_str(), "add"),
        None => false,
    }
}

/// What a command calls for where it stands.
pub fn next_action(command: &MemberCommand) -> (action: Action)
    requires
        command.well_formed(),
    ensures
        calls_for(*command, action),
{
    match command.state {
        MemberState::Defer => Action::Defer,
        MemberState::Refuse(refusal) => Action::Reply {
            text: render_refusal(refusal, name_of_found(command).as_str()),
        },
        MemberState::Locate => Action::LocateCategory,
        MemberState::FetchName { category_id } => Action::FetchChannelName {
            channel_id: category_id,
        },
        MemberState::FindProject { .. } => Action::FindProject {
            name: command.project_name.clone(),
        },
        MemberState::LookUp { index } => Action::FindMember { user_id: command.included[index] },
        MemberState::ShowList => Action::Reply { text: command.list.clone() },
        MemberState::CheckAdmin { .. } => Action::FetchGuild,
        MemberState::CheckManager { category_id, is_admin: _ } => Action::CheckManager {
            category_id,
        },
        MemberState::FetchRoles => Action::FetchRoles,
        MemberState::FindTarget { role_id: _, index } => Action::FindMember {
            user_id: command.targets[index],
        },
        MemberState::Grant { role_id, index } => Action::GrantRole {
            user_id: command.targets[index],
            role_id,
        },
        MemberState::Revoke { role_id, index } => Action::RevokeRole {
            user_id: command.targets[index],
            role_id,
        },
        MemberState::Report => {
            let name = name_of_found(command);
            if adds_members(&command.option) {
                Action::Reply { text: render_added(&command.processed, name.as_str()) }
            } else {
                Action::Reply { text: render_removed(&command.processed, name.as_str()) }
            }
        },
        MemberState::Update => match &command.project {
            Some(project) => Action::UpdateProject {
                project_id: project.id.clone(),
                project: project.clone(),
            },
            None => Action::Stop,
        },
        MemberState::Finished => Action::Stop,
        MemberState::Failed => Action::Fail,
    }
}

} // verus!
