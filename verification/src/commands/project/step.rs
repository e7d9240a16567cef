//! How a project command goes on when something has come back.

use crate::cache::BotCache;
use crate::commands::event::Event;
use crate::commands::guild::{find_role_like, first_role_like, is_server_admin, may_administer};
use crate::commands::option::{get_string_arg, string_arg, CommandOption};
use crate::commands::project::channel::{doomed_channels, find_doomed_channels, PROJECT_CHANNELS};
use crate::commands::project::message::{is_lenient, refusal_is_lenient, Refusal};
use crate::commands::project::state::{
    optional_view, DeleteStep, GenerateStep, ProjectCommand, ProjectState, RenameStep,
};
use crate::integration::notion::member::{member_or_unknown, MemberView, NotionMember};
use crate::integration::notion::project::{Project, ProjectView};
use crate::text::{decimal, same_text, to_decimal};
use vstd::prelude::*;

verus! {

/// Where a command goes once Discord has been told to wait.
pub open spec fn opening(command: ProjectCommand, cache: BotCache) -> ProjectState {
    if command.guild_id is None {
        ProjectState::Refuse(Refusal::NotInServer)
    } else {
        match command.option {
            None => ProjectState::Refuse(Refusal::NoSubcommand),
            Some(option) => if option.name@ == "generate"@ {
                match string_arg(option, "name"@) {
                    None => ProjectState::Refuse(Refusal::NoProjectName),
                    Some(name) => if cache.project_id_by_name(name) is Some {
                        ProjectState::Refuse(Refusal::NameTaken)
                    } else {
                        ProjectState::Generate(GenerateStep::Announce)
                    },
                }
            } else if option.name@ == "rename"@ {
                if string_arg(option, "new_name"@) is None {
                    ProjectState::Refuse(Refusal::NoNewName)
                } else {
                    ProjectState::LocateToRename
                }
            } else if option.name@ == "delete"@ {
                ProjectState::FetchGuild
            } else {
                ProjectState::Finished
            },
        }
    }
}

/// The project name that a subcommand asks for.
pub open spec fn requested_name(option: CommandOption) -> Option<Seq<char>> {
    if option.name@ == "generate"@ {
        string_arg(option, "name"@)
    } else if option.name@ == "rename"@ {
        string_arg(option, "new_name"@)
    } else {
        None
    }
}

/// Where the set-up of a project goes from a step.
pub open spec fn next_generate(step: GenerateStep, event: Event) -> ProjectState {
    match step {
        GenerateStep::Announce => if event is Done {
            ProjectState::Generate(GenerateStep::FetchBot)
        } else {
            ProjectState::Failed
        },
        GenerateStep::FetchBot => match event {
            Event::Id(bot_id) => ProjectState::Generate(GenerateStep::CreateRole { bot_id }),
            _ => ProjectState::Refuse(Refusal::NoBotUser),
        },
        GenerateStep::CreateRole { bot_id } => match event {
            Event::Id(role_id) => ProjectState::Generate(
                GenerateStep::GrantRole { bot_id, role_id },
            ),
            _ => ProjectState::Refuse(Refusal::RoleNotCreated),
        },
        GenerateStep::GrantRole { bot_id, role_id } => ProjectState::Generate(
            GenerateStep::CreateCategory { bot_id, role_id },
        ),
        GenerateStep::CreateCategory { bot_id, role_id } => match event {
            Event::Id(category_id) => ProjectState::Generate(
                GenerateStep::CreateChannel { bot_id, role_id, category_id, index: 0 },
            ),
            _ => ProjectState::Refuse(Refusal::CategoryNotCreated),
        },
        GenerateStep::CreateChannel { bot_id, role_id, category_id, index } => if index + 1
            < PROJECT_CHANNELS {
            ProjectState::Generate(
                GenerateStep::CreateChannel {
                    bot_id,
                    role_id,
                    category_id,
                    index: (index + 1) as usize,
                },
            )
        } else {
            ProjectState::Generate(GenerateStep::AnnounceReady { category_id })
        },
        GenerateStep::AnnounceReady { category_id } => if event is Done {
            ProjectState::Generate(GenerateStep::FindManager { category_id })
        } else {
            ProjectState::Failed
        },
        GenerateStep::FindManager { category_id } => ProjectState::Generate(GenerateStep::Enter),
        GenerateStep::Enter => ProjectState::Finished,
    }
}

/// Where the renaming of a project goes from a step.
pub open spec fn next_rename(
    step: RenameStep,
    old_name: Seq<char>,
    event: Event,
) -> ProjectState {
    match step {
        RenameStep::FindProject { category_id } => match event {
            Event::Project(Some(_)) => ProjectState::Rename(
                RenameStep::RenameCategory { category_id },
            ),
            _ => ProjectState::Finished,
        },
        RenameStep::RenameCategory { category_id } => if event is Done {
            if old_name.len() == 0 {
                ProjectState::Rename(RenameStep::Report { role_renamed: false })
            } else {
                ProjectState::Rename(RenameStep::FetchRoles)
            }
        } else {
            ProjectState::Refuse(Refusal::CategoryNotRenamed)
        },
        RenameStep::FetchRoles => match event {
            Event::Roles(roles) => match first_role_like(roles@, old_name) {
                Some(role_id) => ProjectState::Rename(RenameStep::RenameRole { role_id }),
                None => ProjectState::Rename(RenameStep::Report { role_renamed: false }),
            },
            _ => ProjectState::Rename(RenameStep::Report { role_renamed: false }),
        },
        RenameStep::RenameRole { role_id } => ProjectState::Rename(
            RenameStep::Report { role_renamed: event is Done },
        ),
        RenameStep::Report { role_renamed } => if event is Done {
            ProjectState::Rename(RenameStep::Update)
        } else {
            ProjectState::Failed
        },
        RenameStep::Update => ProjectState::Finished,
    }
}

/// Where the deletion of a project goes once its category is gone.
pub open spec fn after_category(name: Seq<char>) -> ProjectState {
    if name.len() == 0 {
        ProjectState::Delete(DeleteStep::FindProject)
    } else {
        ProjectState::Delete(DeleteStep::FetchRoles)
    }
}

/// Where the deletion of a project goes from a step. `name` is the name of the project and
/// `doomed` the number of channels to be deleted.
pub open spec fn next_delete(
    step: DeleteStep,
    name: Seq<char>,
    doomed: nat,
    event: Event,
) -> ProjectState {
    match step {
        DeleteStep::FetchName { category_id } => ProjectState::Delete(
            DeleteStep::Announce { category_id },
        ),
        DeleteStep::Announce { category_id } => if event is Done {
            ProjectState::Delete(DeleteStep::FetchChannels { category_id })
        } else {
            ProjectState::Failed
        },
        DeleteStep::FetchChannels { category_id } => if event is Channels {
            ProjectState::Delete(DeleteStep::DeleteChannel { category_id, index: 0 })
        } else {
            ProjectState::Delete(DeleteStep::DeleteCategory { category_id })
        },
        DeleteStep::DeleteChannel { category_id, index } => if index + 1 < doomed {
            ProjectState::Delete(
                DeleteStep::DeleteChannel { category_id, index: (index + 1) as usize },
            )
        } else {
            ProjectState::Delete(DeleteStep::DeleteCategory { category_id })
        },
        DeleteStep::DeleteCategory { category_id } => after_category(name),
        DeleteStep::FetchRoles => match event {
            Event::Roles(roles) => match first_role_like(roles@, name) {
                Some(role_id) => ProjectState::Delete(DeleteStep::DeleteRole { role_id }),
                None => ProjectState::Delete(DeleteStep::FindProject),
            },
            _ => ProjectState::Delete(DeleteStep::FindProject),
        },
        DeleteStep::DeleteRole { role_id } => ProjectState::Delete(DeleteStep::FindProject),
        DeleteStep::FindProject => match event {
            Event::ProjectId(Some(_)) => ProjectState::Delete(DeleteStep::Trash),
            _ => ProjectState::Finished,
        },
        DeleteStep::Trash => ProjectState::Finished,
    }
}

/// Where a command goes when something has come back.
pub open spec fn next_state(
    command: ProjectCommand,
    cache: BotCache,
    event: Event,
) -> ProjectState {
    match command.state {
        ProjectState::Defer => if event is Done {
            opening(command, cache)
        } else {
            ProjectState::Failed
        },
        ProjectState::Refuse(refusal) => if event is Done || is_lenient(refusal) {
            ProjectState::Finished
        } else {
            ProjectState::Failed
        },
        ProjectState::LocateToRename => match event {
            Event::Category(Some(category_id)) => ProjectState::CheckManager { category_id },
            _ => ProjectState::Refuse(Refusal::OutsideCategoryToRename),
        },
        ProjectState::CheckManager { category_id } => if event == Event::Manager(true) {
            ProjectState::FetchOldName { category_id }
        } else {
            ProjectState::Refuse(Refusal::NotManager)
        },
        ProjectState::FetchOldName { category_id } => if cache.project_id_by_name(
            command.name@,
        ) is Some {
            ProjectState::Refuse(Refusal::NameTaken)
        } else {
            ProjectState::Rename(RenameStep::FindProject { category_id })
        },
        ProjectState::FetchGuild => match (event, command.member_roles) {
            (Event::Guild(guild), Some(roles)) => ProjectState::LocateToDelete {
                is_admin: may_administer(guild, command.user_id, roles@),
            },
            (Event::Guild(_), None) => ProjectState::Finished,
            _ => ProjectState::Failed,
        },
        ProjectState::LocateToDelete { is_admin } => match event {
            Event::Category(Some(category_id)) => if is_admin {
                ProjectState::Delete(DeleteStep::FetchName { category_id })
            } else {
                ProjectState::Refuse(Refusal::NotAdministrator)
            },
            _ => ProjectState::Refuse(Refusal::OutsideCategoryToDelete),
        },
        ProjectState::Generate(step) => next_generate(step, event),
        ProjectState::Rename(step) => next_rename(step, command.old_name@, event),
        ProjectState::Delete(step) => next_delete(
            step,
            command.old_name@,
            command.doomed@.len(),
            event,
        ),
        ProjectState::Finished => ProjectState::Finished,
        ProjectState::Failed => ProjectState::Failed,
    }
}

/// The name of a channel, empty where it could not be had.
pub open spec fn channel_name_in(event: Event) -> Seq<char> {
    match event {
        Event::ChannelName(Some(name)) => name@,
        _ => Seq::empty(),
    }
}

/// The project that is entered for a new category.
pub open spec fn new_project(name: Seq<char>, pm: MemberView, category_id: u64) -> ProjectView {
    ProjectView { name, pm, category_id: decimal(category_id as nat), ..ProjectView::unknown() }
}

/// The member that was looked for, unknown where none was found.
pub open spec fn member_in(event: Event) -> MemberView {
    match event {
        Event::Member(member) => member_or_unknown(member),
        _ => MemberView::unknown(),
    }
}

/// The name that the project is to have, as far as the command knows it.
pub open spec fn name_after(command: ProjectCommand, event: Event) -> Seq<char> {
    if command.state == ProjectState::Defer && event is Done && command.guild_id is Some
        && command.option is Some && requested_name(command.option->0) is Some {
        requested_name(command.option->0)->0
    } else {
        command.name@
    }
}

/// The name that the project has, as far as the command knows it.
pub open spec fn old_name_after(command: ProjectCommand, event: Event) -> Seq<char> {
    match command.state {
        ProjectState::FetchOldName { .. } => channel_name_in(event),
        ProjectState::Delete(DeleteStep::FetchName { .. }) => channel_name_in(event),
        _ => command.old_name@,
    }
}

/// What went wrong when the category was renamed, as far as the command knows it.
pub open spec fn error_after(command: ProjectCommand, event: Event) -> Seq<char> {
    match (command.state, event) {
        (ProjectState::Rename(RenameStep::RenameCategory { .. }), Event::Failed(error)) => {
            error@
        },
        _ => command.error@,
    }
}

/// The channels to be deleted, as far as the command knows them.
pub open spec fn doomed_after(command: ProjectCommand, event: Event) -> Seq<u64> {
    match (command.state, event) {
        (
            ProjectState::Delete(DeleteStep::FetchChannels { category_id }),
            Event::Channels(channels),
        ) => doomed_channels(channels@, category_id, command.channel_id),
        _ => command.doomed@,
    }
}

/// The project to be written to Notion, as far as the command knows it.
pub open spec fn project_after(command: ProjectCommand, event: Event) -> Option<ProjectView> {
    match (command.state, event) {
        (ProjectState::Generate(GenerateStep::FindManager { category_id }), _) => Some(
            new_project(command.name@, member_in(event), category_id),
        ),
        (
            ProjectState::Rename(RenameStep::FindProject { .. }),
            Event::Project(project),
        ) => optional_view(project),
        (
            ProjectState::Rename(RenameStep::RenameCategory { .. }),
            Event::Done,
        ) => match optional_view(command.project) {
            Some(project) => Some(ProjectView { name: command.name@, ..project }),
            None => None,
        },
        _ => optional_view(command.project),
    }
}

/// The page to be moved to the trash, as far as the command knows it.
pub open spec fn project_id_after(command: ProjectCommand, event: Event) -> Seq<char> {
    match (command.state, event) {
        (ProjectState::Delete(DeleteStep::FindProject), Event::ProjectId(Some(id))) => id@,
        _ => command.project_id@,
    }
}

/// Whether `after` knows what a command knows once something has come back.
pub open spec fn has_learnt(
    before: ProjectCommand,
    event: Event,
    after: ProjectCommand,
) -> bool {
    &&& after.name@ == name_after(before, event)
    &&& after.old_name@ == old_name_after(before, event)
    &&& after.error@ == error_after(before, event)
    &&& after.doomed@ == doomed_after(before, event)
    &&& optional_view(after.project) == project_after(before, event)
    &&& after.project_id@ == project_id_after(before, event)
    &&& after.guild_id == before.guild_id
    &&& after.user_id == before.user_id
    &&& after.channel_id == before.channel_id
    &&& after.member_roles == before.member_roles
    &&& after.option == before.option
}

/// Whether `after` is what a command becomes when something has come back.
pub open spec fn project_step(
    before: ProjectCommand,
    cache: BotCache,
    event: Event,
    after: ProjectCommand,
) -> bool {
    after.state == next_state(before, cache, event) && has_learnt(before, event, after)
}

/// Starts a command once Discord has been told to wait.
fn open_command(command: &mut ProjectCommand, cache: &BotCache)
    requires
        old(command).state == ProjectState::Defer,
        cache.projects_indexed(),
    ensures
        project_step(*old(command), *cache, Event::Done, *final(command)),
        final(command).well_formed(),
{
    if command.guild_id.is_none() {
        command.state = ProjectState::Refuse(Refusal::NotInServer);
        return;
    }
    let (is_generate, is_rename, is_delete, name) = match &command.option {
        None => {
            command.state = ProjectState::Refuse(Refusal::NoSubcommand);
            return;
        },
        Some(option) => {
            let is_generate = same_text(option.name.as_str(), "generate");
            let is_rename = same_text(option.name.as_str(), "rename");
            let is_delete = same_text(option.name.as_str(), "delete");
            let name = if is_generate {
                get_string_arg(option, "name")
            } else if is_rename {
                get_string_arg(option, "new_name")
            } else {
                None
            };
            (is_generate, is_rename, is_delete, name)
        },
    };
    if is_generate {
        match name {
            None => {
                command.state = ProjectState::Refuse(Refusal::NoProjectName);
            },
            Some(name) => {
                command.state = if cache.knows_project(name.as_str()) {
                    ProjectState::Refuse(Refusal::NameTaken)
                } else {
                    ProjectState::Generate(GenerateStep::Announce)
                };
                command.name = name;
            },
        }
    } else if is_rename {
        match name {
            None => {
                command.state = ProjectState::Refuse(Refusal::NoNewName);
            },
            Some(name) => {
                command.state = ProjectState::LocateToRename;
                command.name = name;
            },
        }
    } else if is_delete {
        command.state = ProjectState::FetchGuild;
    } else {
        command.state = ProjectState::Finished;
    }
}

/// Goes on with setting up a project.
fn generate_project(command: &mut ProjectCommand, step: GenerateStep, event: Event)
    requires
        old(command).state == ProjectState::Generate(step),
        old(command).well_formed(),
    ensures
        final(command).state == next_generate(step, event),
        has_learnt(*old(command), event, *final(command)),
        final(command).well_formed(),
{
    match step {
        GenerateStep::Announce => {
            command.state = match event {
                Event::Done => ProjectState::Generate(GenerateStep::FetchBot),
                _ => ProjectState::Failed,
            };
        },
        GenerateStep::FetchBot => {
            command.state = match event {
                Event::Id(bot_id) => ProjectState::Generate(
                    GenerateStep::CreateRole { bot_id },
                ),
                _ => ProjectState::Refuse(Refusal::NoBotUser),
            };
        },
        GenerateStep::CreateRole { bot_id } => {
            command.state = match event {
                Event::Id(role_id) => ProjectState::Generate(
                    GenerateStep::GrantRole { bot_id, role_id },
                ),
                _ => ProjectState::Refuse(Refusal::RoleNotCreated),
            };
        },
        GenerateStep::GrantRole { bot_id, role_id } => {
            command.state = ProjectState::Generate(
                GenerateStep::CreateCategory { bot_id, role_id },
            );
        },
        GenerateStep::CreateCategory { bot_id, role_id } => {
            command.state = match event {
                Event::Id(category_id) => ProjectState::Generate(
                    GenerateStep::CreateChannel { bot_id, role_id, category_id, index: 0 },
                ),
                _ => ProjectState::Refuse(Refusal::CategoryNotCreated),
            };
        },
        GenerateStep::CreateChannel { bot_id, role_id, category_id, index } => {
            command.state = if index + 1 < PROJECT_CHANNELS {
                ProjectState::Generate(
                    GenerateStep::CreateChannel { bot_id, role_id, category_id, index: index + 1 },
                )
            } else {
                ProjectState::Generate(GenerateStep::AnnounceReady { category_id })
            };
        },
        GenerateStep::AnnounceReady { category_id } => {
            command.state = match event {
                Event::Done => ProjectState::Generate(
                    GenerateStep::FindManager { category_id },
                ),
                _ => ProjectState::Failed,
            };
        },
        GenerateStep::FindManager { category_id } => {
            let pm = match event {
                Event::Member(Some(member)) => member,
                _ => NotionMember::default(),
            };
            let mut project = <Project as Default>::default();
            project.name = command.name.clone();
            project.pm = pm;
            project.category_id = to_decimal(category_id);
            command.project = Some(project);
            command.state = ProjectState::Generate(GenerateStep::Enter);
        },
        GenerateStep::Enter => {
            command.state = ProjectState::Finished;
        },
    }
}

/// Goes on with renaming a project.
fn rename_project(command: &mut ProjectCommand, step: RenameStep, event: Event)
    requires
        old(command).state == ProjectState::Rename(step),
        old(command).well_formed(),
    ensures
        final(command).state == next_rename(step, old(command).old_name@, event),
        has_learnt(*old(command), event, *final(command)),
        final(command).well_formed(),
{
    match step {
        RenameStep::FindProject { category_id } => {
            match event {
                Event::Project(Some(project)) => {
                    command.project = Some(project);
                    command.state = ProjectState::Rename(
                        RenameStep::RenameCategory { category_id },
                    );
                },
                Event::Project(None) => {
                    command.project = None;
                    command.state = ProjectState::Finished;
                },
                _ => {
                    command.state = ProjectState::Finished;
                },
            }
        },
        RenameStep::RenameCategory { category_id } => {
            match event {
                Event::Done => {
                    command.project = match command.project.take() {
                        Some(found) => {
                            let mut project = found;
                            project.name = command.name.clone();
                            Some(project)
                        },
                        None => None,
                    };
                    command.state = if command.old_name.as_str().is_empty() {
                        ProjectState::Rename(RenameStep::Report { role_renamed: false })
                    } else {
                        ProjectState::Rename(RenameStep::FetchRoles)
                    };
                },
                Event::Failed(error) => {
                    command.error = error;
                    command.state = ProjectState::Refuse(Refusal::CategoryNotRenamed);
                },
                _ => {
                    command.state = ProjectState::Refuse(Refusal::CategoryNotRenamed);
                },
            }
        },
        RenameStep::FetchRoles => {
            let role = match event {
                Event::Roles(roles) => find_role_like(&roles, command.old_name.as_str()),
                _ => None,
            };
            command.state = match role {
                Some(role_id) => ProjectState::Rename(RenameStep::RenameRole { role_id }),
                None => ProjectState::Rename(RenameStep::Report { role_renamed: false }),
            };
        },
        RenameStep::RenameRole { role_id } => {
            let role_renamed = match event {
                Event::Done => true,
                _ => false,
            };
            command.state = ProjectState::Rename(RenameStep::Report { role_renamed });
        },
        RenameStep::Report { role_renamed } => {
            command.state = match event {
                Event::Done => ProjectState::Rename(RenameStep::Update),
                _ => ProjectState::Failed,
            };
        },
        RenameStep::Update => {
            command.state = ProjectState::Finished;
        },
    }
}

/// The name of a channel, empty where it could not be had.
fn take_channel_name(event: Event) -> (name: String)
    ensures
        name@ == channel_name_in(event),
{
    match event {
        Event::ChannelName(Some(name)) => name,
        _ => String::new(),
    }
}

/// Goes on with deleting a project.
fn delete_project(command: &mut ProjectCommand, step: DeleteStep, event: Event)
    requires
        old(command).state == ProjectState::Delete(step),
        old(command).well_formed(),
    ensures
        final(command).state == next_delete(
            step,
            old(command).old_name@,
            old(command).doomed@.len(),
            event,
        ),
        has_learnt(*old(command), event, *final(command)),
        final(command).well_formed(),
{
    match step {
        DeleteStep::FetchName { category_id } => {
            command.old_name = take_channel_name(event);
            command.state = ProjectState::Delete(DeleteStep::Announce { category_id });
        },
        DeleteStep::Announce { category_id } => {
            command.state = match event {
                Event::Done => ProjectState::Delete(
                    DeleteStep::FetchChannels { category_id },
                ),
                _ => ProjectState::Failed,
            };
        },
        DeleteStep::FetchChannels { category_id } => {
            match event {
                Event::Channels(channels) => {
                    command.doomed = find_doomed_channels(
                        &channels,
                        category_id,
                        command.channel_id,
                    );
                    command.state = ProjectState::Delete(
                        DeleteStep::DeleteChannel { category_id, index: 0 },
                    );
                },
                _ => {
                    command.state = ProjectState::Delete(
                        DeleteStep::DeleteCategory { category_id },
                    );
                },
            }
        },
        DeleteStep::DeleteChannel { category_id, index } => {
            let doomed: usize = command.doomed.len();
            command.state = if index + 1 < doomed {
                ProjectState::Delete(DeleteStep::DeleteChannel { category_id, index: index + 1 })
            } else {
                ProjectState::Delete(DeleteStep::DeleteCategory { category_id })
            };
        },
        DeleteStep::DeleteCategory { category_id } => {
            command.state = if command.old_name.as_str().is_empty() {
                ProjectState::Delete(DeleteStep::FindProject)
            } else {
                ProjectState::Delete(DeleteStep::FetchRoles)
            };
        },
        DeleteStep::FetchRoles => {
            let role = match event {
                Event::Roles(roles) => find_role_like(&roles, command.old_name.as_str()),
                _ => None,
            };
            command.state = match role {
                Some(role_id) => ProjectState::Delete(DeleteStep::DeleteRole { role_id }),
                None => ProjectState::Delete(DeleteStep::FindProject),
            };
        },
        DeleteStep::DeleteRole { role_id } => {
            command.state = ProjectState::Delete(DeleteStep::FindProject);
        },
        DeleteStep::FindProject => {
            match event {
                Event::ProjectId(Some(id)) => {
                    command.project_id = id;
                    command.state = ProjectState::Delete(DeleteStep::Trash);
                },
                _ => {
                    command.state = ProjectState::Finished;
                },
            }
        },
        DeleteStep::Trash => {
            command.state = ProjectState::Finished;
        },
    }
}

/// Goes on with a project command when something has come back. What is to be done next follows
/// from where the command then stands.
pub fn run_project_command(command: &mut ProjectCommand, cache: &BotCache, event: Event)
    requires
        old(command).well_formed(),
        cache.projects_indexed(),
    ensures
        project_step(*old(command), *cache, event, *final(command)),
        final(command).well_formed(),
{
    match command.state {
        ProjectState::Defer => {
            match event {
                Event::Done => open_command(command, cache),
                _ => {
                    command.state = ProjectState::Failed;
                },
            }
        },
        ProjectState::Refuse(refusal) => {
            let delivered = match event {
                Event::Done => true,
                _ => false,
            };
            command.state = if delivered || refusal_is_lenient(refusal) {
                ProjectState::Finished
            } else {
                ProjectState::Failed
            };
        },
        ProjectState::LocateToRename => {
            command.state = match event {
                Event::Category(Some(category_id)) => ProjectState::CheckManager {
                    category_id,
                },
                _ => ProjectState::Refuse(Refusal::OutsideCategoryToRename),
            };
        },
        ProjectState::CheckManager { category_id } => {
            command.state = match event {
                Event::Manager(true) => ProjectState::FetchOldName { category_id },
                _ => ProjectState::Refuse(Refusal::NotManager),
            };
        },
        ProjectState::FetchOldName { category_id } => {
            command.old_name = take_channel_name(event);
            command.state = if cache.knows_project(command.name.as_str()) {
                ProjectState::Refuse(Refusal::NameTaken)
            } else {
                ProjectState::Rename(RenameStep::FindProject { category_id })
            };
        },
        ProjectState::FetchGuild => {
            command.state = match event {
                Event::Guild(guild) => match &command.member_roles {
                    Some(roles) => ProjectState::LocateToDelete {
                        is_admin: is_server_admin(&guild, command.user_id, roles),
                    },
                    None => ProjectState::Finished,
                },
                _ => ProjectState::Failed,
            };
        },
        ProjectState::LocateToDelete { is_admin } => {
            command.state = match event {
                Event::Category(Some(category_id)) => if is_admin {
                    ProjectState::Delete(DeleteStep::FetchName { category_id })
                } else {
                    ProjectState::Refuse(Refusal::NotAdministrator)
                },
                _ => ProjectState::Refuse(Refusal::OutsideCategoryToDelete),
            };
        },
        ProjectState::Generate(step) => generate_project(command, step, event),
        ProjectState::Rename(step) => rename_project(command, step, event),
        ProjectState::Delete(step) => delete_project(command, step, event),
        ProjectState::Finished => {},
        ProjectState::Failed => {},
    }
}

} // verus!
