//! Where a project command stands, what it waits for and what it has learnt so far.

use crate::commands::option::CommandOption;
use crate::commands::project::channel::PROJECT_CHANNELS;
use crate::commands::project::message::Refusal;
use crate::integration::notion::project::{Project, ProjectView};
use vstd::prelude::*;

verus! {

/// The steps of setting up a project.
#[derive(Debug, Clone, Copy, PartialEq, Eq, Structural)]
pub enum GenerateStep {
    Announce,
    FetchBot,
    CreateRole { bot_id: u64 },
    GrantRole { bot_id: u64, role_id: u64 },
    CreateCategory { bot_id: u64, role_id: u64 },
    CreateChannel { bot_id: u64, role_id: u64, category_id: u64, index: usize },
    AnnounceReady { category_id: u64 },
    FindManager { category_id: u64 },
    Enter,
}

/// The steps of renaming a project.
#[derive(Debug, Clone, Copy, PartialEq, Eq, Structural)]
pub enum RenameStep {
    FindProject { category_id: u64 },
    RenameCategory { category_id: u64 },
    FetchRoles,
    RenameRole { role_id: u64 },
    Report { role_renamed: bool },
    Update,
}

/// The steps of deleting a project.
#[derive(Debug, Clone, Copy, PartialEq, Eq, Structural)]
pub enum DeleteStep {
    FetchName { category_id: u64 },
    Announce { category_id: u64 },
    FetchChannels { category_id: u64 },
    DeleteChannel { category_id: u64, index: usize },
    DeleteCategory { category_id: u64 },
    FetchRoles,
    DeleteRole { role_id: u64 },
    FindProject,
    Trash,
}

/// Where a project command stands.
#[derive(Debug, Clone, Copy, PartialEq, Eq, Structural)]
pub enum ProjectState {
    /// Discord is told that an answer will follow.
    Defer,
    /// The command goes no further, and says why.
    Refuse(Refusal),
    /// The category to be renamed is looked for.
    LocateToRename,
    CheckManager { category_id: u64 },
    FetchOldName { category_id: u64 },
    FetchGuild,
    /// The category to be deleted is looked for.
    LocateToDelete { is_admin: bool },
    Generate(GenerateStep),
    Rename(RenameStep),
    Delete(DeleteStep),
    Finished,
    /// The command broke off because Discord could not be reached.
    Failed,
}

/// A project command on its way.
pub struct ProjectCommand {
    /// The server in which the command was given.
    pub guild_id: Option<u64>,
    pub user_id: u64,
    pub channel_id: u64,
    /// The roles of the user, where the user is a member of the server.
    pub member_roles: Option<Vec<u64>>,
    /// The first option of the command: the subcommand.
    pub option: Option<CommandOption>,
    /// The name that the project is to have.
    pub name: String,
    /// The name that it has.
    pub old_name: String,
    /// What went wrong when the category was renamed.
    pub error: String,
    /// The channels to be deleted.
    pub doomed: Vec<u64>,
    /// The project as it is to be written to Notion.
    pub project: Option<Project>,
    /// The page to be moved to the trash.
    pub project_id: String,
    pub state: ProjectState,
}

/// Whether a command stands at its end.
pub open spec fn is_over(state: ProjectState) -> bool {
    state == ProjectState::Finished || state == ProjectState::Failed
}

/// What a project that may be there holds.
pub open spec fn optional_view(project: Option<Project>) -> Option<ProjectView> {
    match project {
        Some(found) => Some(found@),
        None => None,
    }
}

impl ProjectCommand {
    /// Whether what the command has learnt fits where it stands.
    pub open spec fn well_formed(self) -> bool {
        match self.state {
            ProjectState::Generate(step) => self.guild_id is Some && match step {
                GenerateStep::CreateChannel { index, .. } => index < PROJECT_CHANNELS,
                GenerateStep::Enter => self.project is Some,
                _ => true,
            },
            ProjectState::Rename(step) => step is FindProject || self.project is Some,
            ProjectState::Delete(DeleteStep::DeleteChannel { category_id: _, index }) => index
                < self.doomed@.len(),
            _ => true,
        }
    }

    /// A command as it has come in.
    pub fn new(
        guild_id: Option<u64>,
        user_id: u64,
        channel_id: u64,
        member_roles: Option<Vec<u64>>,
        option: Option<CommandOption>,
    ) -> (command: Self)
        ensures
            command.well_formed(),
            command.guild_id == guild_id,
            command.user_id == user_id,
            command.channel_id == channel_id,
            command.member_roles == member_roles,
            command.option == option,
            command.name@ == Seq::<char>::empty(),
            command.old_name@ == Seq::<char>::empty(),
            command.error@ == Seq::<char>::empty(),
            command.doomed@ == Seq::<u64>::empty(),
            command.project is None,
            command.project_id@ == Seq::<char>::empty(),
            command.state == ProjectState::Defer,
    {
        ProjectCommand {
            guild_id,
            user_id,
            channel_id,
            member_roles,
            option,
            name: String::new(),
            old_name: String::new(),
            error: String::new(),
            doomed: Vec::new(),
            project: None,
            project_id: String::new(),
            state: ProjectState::Defer,
        }
    }
}

} // verus!
