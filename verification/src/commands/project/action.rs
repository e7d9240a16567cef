//! What a project command asks to be done where it stands.

use crate::commands::action::{enters, makes, replies, trashes, updates, Action};
use crate::commands::guild::{build_permission_overwrites, project_overwrites};
use crate::commands::project::channel::{
    build_category, build_channel, pause_after, project_category, project_channel,
};
use crate::commands::project::message::{
    cleanup_text, ready_text, refusal_text, renamed_text, render_cleanup, render_ready,
    render_refusal, render_renamed, render_setup, setup_text,
};
use crate::commands::project::state::{
    DeleteStep, GenerateStep, ProjectCommand, ProjectState, RenameStep,
};
use vstd::prelude::*;

verus! {

/// Whether an action is what the set-up of a project calls for.
pub open spec fn generate_calls_for(
    command: ProjectCommand,
    step: GenerateStep,
    action: Action,
) -> bool {
    match step {
        GenerateStep::Announce => replies(action, setup_text(command.name@)),
        GenerateStep::FetchBot => action == Action::FetchBot,
        GenerateStep::CreateRole { .. } => action is CreateRole && action->CreateRole_name@
            == command.name@,
        GenerateStep::GrantRole { bot_id: _, role_id } => action == (Action::GrantRole {
            user_id: command.user_id,
            role_id,
        }),
        GenerateStep::CreateCategory { bot_id, role_id } => makes(
            action,
            project_category(
                command.name@,
                project_overwrites(command.guild_id->0, role_id, bot_id, command.user_id),
            ),
            0,
        ),
        GenerateStep::CreateChannel { bot_id, role_id, category_id, index } => makes(
            action,
            project_channel(
                index as int,
                category_id,
                project_overwrites(command.guild_id->0, role_id, bot_id, command.user_id),
            ),
            pause_after(index as int),
        ),
        GenerateStep::AnnounceReady { .. } => replies(action, ready_text(command.user_id)),
        GenerateStep::FindManager { .. } => action == (Action::FindMember {
            user_id: command.user_id,
        }),
        GenerateStep::Enter => enters(action, command.project->0@),
    }
}

/// Whether an action is what the renaming of a project calls for.
pub open spec fn rename_calls_for(
    command: ProjectCommand,
    step: RenameStep,
    action: Action,
) -> bool {
    match step {
        RenameStep::FindProject { .. } => action is FindProject && action->FindProject_name@
            == command.old_name@,
        RenameStep::RenameCategory { category_id } => action is RenameChannel
            && action->RenameChannel_channel_id == category_id && action->RenameChannel_name@
            == command.name@,
        RenameStep::FetchRoles => action == Action::FetchRoles,
        RenameStep::RenameRole { role_id } => action is RenameRole && action->RenameRole_role_id
            == role_id && action->RenameRole_name@ == command.name@,
        RenameStep::Report { role_renamed } => replies(
            action,
            renamed_text(command.name@, role_renamed),
        ),
        RenameStep::Update => updates(action, command.project->0.id@, command.project->0@),
    }
}

/// Whether an action is what the deletion of a project calls for.
pub open spec fn delete_calls_for(
    command: ProjectCommand,
    step: DeleteStep,
    action: Action,
) -> bool {
    match step {
        DeleteStep::FetchName { category_id } => action == (Action::FetchChannelName {
            channel_id: category_id,
        }),
        DeleteStep::Announce { .. } => replies(action, cleanup_text()),
        DeleteStep::FetchChannels { .. } => action == Action::FetchChannels,
        DeleteStep::DeleteChannel { category_id: _, index } => action
            == (Action::DeleteChannel {
            channel_id: command.doomed@[index as int],
            pause_ms: 10,
        }),
        DeleteStep::DeleteCategory { category_id } => action == (Action::DeleteChannel {
            channel_id: category_id,
            pause_ms: 0,
        }),
        DeleteStep::FetchRoles => action == Action::FetchRoles,
        DeleteStep::DeleteRole { role_id } => action == (Action::DeleteRole { role_id }),
        DeleteStep::FindProject => action is FindProjectId && action->FindProjectId_name@
            == command.old_name@,
        DeleteStep::Trash => trashes(action, command.project_id@),
    }
}

/// Whether an action is what a command calls for where it stands.
pub open spec fn calls_for(command: ProjectCommand, action: Action) -> bool {
    match command.state {
        ProjectState::Defer => action == Action::Defer,
        ProjectState::Refuse(refusal) => replies(
            action,
            refusal_text(refusal, command.name@, command.error@),
        ),
        ProjectState::LocateToRename => action == Action::LocateCategory,
        ProjectState::CheckManager { category_id } => action == (Action::CheckManager {
            category_id,
        }),
        ProjectState::FetchOldName { category_id } => action == (Action::FetchChannelName {
            channel_id: category_id,
        }),
        ProjectState::FetchGuild => action == Action::FetchGuild,
        ProjectState::LocateToDelete { .. } => action == Action::LocateCategory,
        ProjectState::Generate(step) => generate_calls_for(command, step, action),
        ProjectState::Rename(step) => rename_calls_for(command, step, action),
        ProjectState::Delete(step) => delete_calls_for(command, step, action),
        ProjectState::Finished => action == Action::Stop,
        ProjectState::Failed => action == Action::Fail,
    }
}

/// What the set-up of a project calls for.
fn generate_action(command: &ProjectCommand, step: GenerateStep) -> (action: Action)
    requires
        command.well_formed(),
        command.state == ProjectState::Generate(step),
    ensures
        generate_calls_for(*command, step, action),
{
    let guild_id: u64 = command.guild_id.unwrap();
    match step {
        GenerateStep::Announce => Action::Reply {
            text: render_setup(command.name.as_str()),
        },
        GenerateStep::FetchBot => Action::FetchBot,
        GenerateStep::CreateRole { .. } => Action::CreateRole {
            name: command.name.clone(),
        },
        GenerateStep::GrantRole { bot_id: _, role_id } => Action::GrantRole {
            user_id: command.user_id,
            role_id,
        },
        GenerateStep::CreateCategory { bot_id, role_id } => {
            let overwrites = build_permission_overwrites(
                guild_id,
                role_id,
                bot_id,
                command.user_id,
            );
            Action::CreateChannel {
                channel: build_category(command.name.as_str(), &overwrites),
                pause_ms: 0,
            }
        },
        GenerateStep::CreateChannel { bot_id, role_id, category_id, index } => {
            let overwrites = build_permission_overwrites(
                guild_id,
                role_id,
                bot_id,
                command.user_id,
            );
            Action::CreateChannel {
                channel: build_channel(index, category_id, &overwrites),
                pause_ms: if index == 8 {
                    0
                } else {
                    10
                },
            }
        },
        GenerateStep::AnnounceReady { .. } => Action::Reply {
            text: render_ready(command.user_id),
        },
        GenerateStep::FindManager { .. } => Action::FindMember { user_id: command.user_id },
        GenerateStep::Enter => match &command.project {
            Some(project) => Action::EnterProject { project: project.clone() },
            None => Action::Stop,
        },
    }
}

/// What the renaming of a project calls for.
fn rename_action(command: &ProjectCommand, step: RenameStep) -> (action: Action)
    requires
        command.well_formed(),
        command.state == ProjectState::Rename(step),
    ensures
        rename_calls_for(*command, step, action),
{
    match step {
        RenameStep::FindProject { .. } => Action::FindProject {
            name: command.old_name.clone(),
        },
        RenameStep::RenameCategory { category_id } => Action::RenameChannel {
            channel_id: category_id,
            name: command.name.clone(),
        },
        RenameStep::FetchRoles => Action::FetchRoles,
        RenameStep::RenameRole { role_id } => Action::RenameRole {
            role_id,
            name: command.name.clone(),
        },
        RenameStep::Report { role_renamed } => Action::Reply {
            text: render_renamed(command.name.as_str(), role_renamed),
        },
        RenameStep::Update => match &command.project {
            Some(project) => Action::UpdateProject {
                project_id: project.id.clone(),
                project: project.clone(),
            },
            None => Action::Stop,
        },
    }
}

/// What the deletion of a project calls for.
fn delete_action(command: &ProjectCommand, step: DeleteStep) -> (action: Action)
    requires
        command.well_formed(),
        command.state == ProjectState::Delete(step),
    ensures
        delete_calls_for(*command, step, action),
{
    match step {
        DeleteStep::FetchName { category_id } => Action::FetchChannelName {
            channel_id: category_id,
        },
        DeleteStep::Announce { .. } => Action::Reply { text: render_cleanup() },
        DeleteStep::FetchChannels { .. } => Action::FetchChannels,
        DeleteStep::DeleteChannel { category_id: _, index } => Action::DeleteChannel {
            channel_id: command.doomed[index],
            pause_ms: 10,
        },
        DeleteStep::DeleteCategory { category_id } => Action::DeleteChannel {
            channel_id: category_id,
            pause_ms: 0,
        },
        DeleteStep::FetchRoles => Action::FetchRoles,
        DeleteStep::DeleteRole { role_id } => Action::DeleteRole { role_id },
        DeleteStep::FindProject => Action::FindProjectId { name: command.old_name.clone() },
        DeleteStep::Trash => Action::TrashProject { project_id: command.project_id.clone() },
    }
}

/// What a command calls for where it stands.
pub fn next_action(command: &ProjectCommand) -> (action: Action)
    requires
        command.well_formed(),
    ensures
        calls_for(*command, action),
{
    match command.state {
        ProjectState::Defer => Action::Defer,
        ProjectState::Refuse(refusal) => Action::Reply {
            text: render_refusal(refusal, command.name.as_str(), command.error.as_str()),
        },
        ProjectState::LocateToRename => Action::LocateCategory,
        ProjectState::CheckManager { category_id } => Action::CheckManager { category_id },
        ProjectState::FetchOldName { category_id } => Action::FetchChannelName {
            channel_id: category_id,
        },
        ProjectState::FetchGuild => Action::FetchGuild,
        ProjectState::LocateToDelete { .. } => Action::LocateCategory,
        ProjectState::Generate(step) => generate_action(command, step),
        ProjectState::Rename(step) => rename_action(command, step),
        ProjectState::Delete(step) => delete_action(command, step),
        ProjectState::Finished => Action::Stop,
        ProjectState::Failed => Action::Fail,
    }
}

} // verus!
