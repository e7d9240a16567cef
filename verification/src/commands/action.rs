//! What a command can ask to be done.

use crate::commands::project::channel::{NewChannel, NewChannelView};
use crate::integration::notion::project::{Project, ProjectView};
use vstd::prelude::*;

verus! {

/// Something to be done, after which the command goes on with what came back.
pub enum Action {
    /// Tell Discord that an answer will follow.
    Defer,
    /// Answer the command; a later answer takes the place of an earlier one.
    Reply { text: String },
    /// Find the category of the channel in which the command was given.
    LocateCategory,
    /// Find out whether the user manages the project of a category.
    CheckManager { category_id: u64 },
    FetchChannelName { channel_id: u64 },
    FetchGuild,
    FetchBot,
    CreateRole { name: String },
    GrantRole { user_id: u64, role_id: u64 },
    RevokeRole { user_id: u64, role_id: u64 },
    /// Make a channel, then wait.
    CreateChannel { channel: NewChannel, pause_ms: u64 },
    RenameChannel { channel_id: u64, name: String },
    /// Delete a channel, then wait.
    DeleteChannel { channel_id: u64, pause_ms: u64 },
    FetchChannels,
    FetchRoles,
    RenameRole { role_id: u64, name: String },
    DeleteRole { role_id: u64 },
    /// Look up a member in the cache.
    FindMember { user_id: u64 },
    /// Look up a project in the cache.
    FindProject { name: String },
    /// Look up the id of a project in the cache.
    FindProjectId { name: String },
    /// Enter a project in Notion.
    EnterProject { project: Project },
    /// Bring a page of Notion up to date with a project.
    UpdateProject { project_id: String, project: Project },
    /// Move a page of Notion to the trash.
    TrashProject { project_id: String },
    /// The command is done.
    Stop,
    /// The command breaks off with the error that Discord last gave.
    Fail,
}

/// Whether an action answers the command with a text.
pub open spec fn replies(action: Action, text: Seq<char>) -> bool {
    action is Reply && action->text@ == text
}

/// Whether an action makes a channel and then waits for a time.
pub open spec fn makes(action: Action, channel: NewChannelView, pause_ms: u64) -> bool {
    action is CreateChannel && action->channel@ == channel && action->CreateChannel_pause_ms
        == pause_ms
}

/// Whether an action enters a project in Notion.
pub open spec fn enters(action: Action, project: ProjectView) -> bool {
    action is EnterProject && action->EnterProject_project@ == project
}

/// Whether an action brings a page of Notion up to date with a project.
pub open spec fn updates(action: Action, project_id: Seq<char>, project: ProjectView) -> bool {
    action is UpdateProject && action->UpdateProject_project_id@ == project_id
        && action->UpdateProject_project@ == project
}

/// Whether an action moves a page of Notion to the trash.
pub open spec fn trashes(action: Action, project_id: Seq<char>) -> bool {
    action is TrashProject && action->TrashProject_project_id@ == project_id
}

} // verus!
