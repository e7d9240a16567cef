//! The course that project commands take: what follows on what, and what is asked for where.

use crate::cache::{law_which_id_belongs_to_a_name, BotCache};
use crate::commands::action::Action;
use crate::commands::event::Event;
use crate::commands::guild::{
    first_role_like, law_the_first_role_like_a_name, may_administer, project_overwrites, GuildRole,
};
use crate::commands::option::string_arg;
use crate::commands::project::action::calls_for;
use crate::commands::project::channel::{
    doomed_channels, pause_after, project_category, project_channel,
};
use crate::commands::project::law::{is_run, law_renaming_changes_the_name_only};
use crate::commands::project::message::{
    cleanup_text, law_which_refusals_are_lenient, ready_text, refusal_text, renamed_text,
    setup_text, Refusal,
};
use crate::commands::project::state::{
    optional_view, DeleteStep, GenerateStep, ProjectCommand, ProjectState, RenameStep,
};
use crate::commands::project::step::project_step;
use crate::integration::notion::member::MemberView;
use crate::integration::notion::project::{Project, ProjectView, Status};
use crate::text::{decimal, same_ignoring_ascii_case};
use vstd::prelude::*;

verus! {

/// Whether a project that is held in the cache has a name.
pub open spec fn is_held(cache: BotCache, name: Seq<char>) -> bool {
    exists|i: int|
        0 <= i < cache.all_projects@.len() && (#[trigger] cache.all_projects@[i]).name@ == name
}

/// The subcommands have different names.
proof fn lemma_subcommands_differ()
    ensures
        "generate"@ != "rename"@,
        "generate"@ != "delete"@,
        "rename"@ != "delete"@,
{
    reveal_strlit("generate");
    reveal_strlit("rename");
    reveal_strlit("delete");
    assert("generate"@.len() == 8);
    assert("rename"@.len() == 6);
    assert("delete"@.len() == 6);
    assert("rename"@[0] != "delete"@[0]);
}

/// A command that could not be deferred breaks off. One that was is refused outside a server and
/// without a subcommand, in that order.
pub proof fn law_a_command_is_deferred_in_a_server_with_a_subcommand(
    before: ProjectCommand,
    cache: BotCache,
    event: Event,
    after: ProjectCommand,
)
    requires
        before.state == ProjectState::Defer,
        project_step(before, cache, event, after),
    ensures
        event != Event::Done ==> after.state == ProjectState::Failed,
        event == Event::Done && before.guild_id is None ==> after.state == ProjectState::Refuse(
            Refusal::NotInServer,
        ),
        event == Event::Done && before.guild_id is Some && before.option is None ==> after.state
            == ProjectState::Refuse(Refusal::NoSubcommand),
        event == Event::Done && before.guild_id is Some && before.option is Some
            && before.option->0.name@ != "generate"@ && before.option->0.name@ != "rename"@
            && before.option->0.name@ != "delete"@ ==> after.state == ProjectState::Finished,
{
}

/// A project is set up where a name is given that no project in the cache has; without a name, or
/// with one that is taken, the command is refused.
pub proof fn law_setting_up_needs_a_free_name(
    before: ProjectCommand,
    cache: BotCache,
    after: ProjectCommand,
)
    requires
        before.state == ProjectState::Defer,
        before.guild_id is Some,
        before.option is Some,
        before.option->0.name@ == "generate"@,
        project_step(before, cache, Event::Done, after),
    ensures
        match string_arg(before.option->0, "name"@) {
            None => after.state == ProjectState::Refuse(Refusal::NoProjectName),
            Some(name) => {
                &&& after.name@ == name
                &&& is_held(cache, name) ==> after.state == ProjectState::Refuse(Refusal::NameTaken)
                &&& !is_held(cache, name) ==> after.state == ProjectState::Generate(
                    GenerateStep::Announce,
                )
            },
        },
{
    if string_arg(before.option->0, "name"@) is Some {
        law_which_id_belongs_to_a_name(
            cache,
            string_arg(before.option->0, "name"@)->0,
        );
    }
}

/// A renaming starts with looking for the category where a name is given, and is refused without
/// one.
pub proof fn law_renaming_needs_a_name(
    before: ProjectCommand,
    cache: BotCache,
    after: ProjectCommand,
)
    requires
        before.state == ProjectState::Defer,
        before.guild_id is Some,
        before.option is Some,
        before.option->0.name@ == "rename"@,
        project_step(before, cache, Event::Done, after),
    ensures
        match string_arg(before.option->0, "new_name"@) {
            None => after.state == ProjectState::Refuse(Refusal::NoNewName),
            Some(name) => after.name@ == name && after.state == ProjectState::LocateToRename,
        },
{
    lemma_subcommands_differ();
}

/// A deletion starts with fetching the server.
pub proof fn law_deleting_starts_with_the_server(
    before: ProjectCommand,
    cache: BotCache,
    after: ProjectCommand,
)
    requires
        before.state == ProjectState::Defer,
        before.guild_id is Some,
        before.option is Some,
        before.option->0.name@ == "delete"@,
        project_step(before, cache, Event::Done, after),
    ensures
        after.state == ProjectState::FetchGuild,
{
    lemma_subcommands_differ();
}

/// A refusal that was delivered ends the command well. One that was not ends it well only where it
/// says that a name is taken or that the command was not given inside a category.
pub proof fn law_how_a_refusal_ends(
    before: ProjectCommand,
    cache: BotCache,
    refusal: Refusal,
    event: Event,
    after: ProjectCommand,
)
    requires
        before.state == ProjectState::Refuse(refusal),
        project_step(before, cache, event, after),
    ensures
        event == Event::Done || refusal == Refusal::NameTaken || refusal
            == Refusal::OutsideCategoryToRename || refusal == Refusal::OutsideCategoryToDelete
            ==> after.state == ProjectState::Finished,
        event != Event::Done && refusal != Refusal::NameTaken && refusal
            != Refusal::OutsideCategoryToRename && refusal != Refusal::OutsideCategoryToDelete
            ==> after.state == ProjectState::Failed,
{
    law_which_refusals_are_lenient(refusal);
}

/// Before a renaming begins, the category is found, the user is found to manage its project, its
/// name is taken as the old one, and the new one is found to be free; in that order, and with the
/// same category throughout.
pub proof fn law_how_a_renaming_is_admitted(
    before: ProjectCommand,
    cache: BotCache,
    event: Event,
    after: ProjectCommand,
    category_id: u64,
)
    requires
        project_step(before, cache, event, after),
    ensures
        before.state == ProjectState::LocateToRename ==> after.state == match event {
            Event::Category(Some(found)) => ProjectState::CheckManager { category_id: found },
            _ => ProjectState::Refuse(Refusal::OutsideCategoryToRename),
        },
        before.state == (ProjectState::CheckManager { category_id }) ==> after.state == match event {
            Event::Manager(true) => ProjectState::FetchOldName { category_id },
            _ => ProjectState::Refuse(Refusal::NotManager),
        },
        before.state == (ProjectState::FetchOldName { category_id }) ==> {
            &&& after.old_name@ == match event {
                Event::ChannelName(Some(name)) => name@,
                _ => Seq::empty(),
            }
            &&& is_held(cache, before.name@) ==> after.state == ProjectState::Refuse(
                Refusal::NameTaken,
            )
            &&& !is_held(cache, before.name@) ==> after.state == ProjectState::Rename(
                RenameStep::FindProject { category_id },
            )
        },
{
    law_which_id_belongs_to_a_name(cache, before.name@);
}

/// Before a deletion begins, the server is fetched, the category is found, and the user is found to
/// administer the server.
pub proof fn law_how_a_deletion_is_admitted(
    before: ProjectCommand,
    cache: BotCache,
    event: Event,
    after: ProjectCommand,
    is_admin: bool,
)
    requires
        project_step(before, cache, event, after),
    ensures
        before.state == ProjectState::FetchGuild ==> match event {
            Event::Guild(guild) => match before.member_roles {
                Some(roles) => after.state == (ProjectState::LocateToDelete {
                    is_admin: may_administer(guild, before.user_id, roles@),
                }),
                None => after.state == ProjectState::Finished,
            },
            _ => after.state == ProjectState::Failed,
        },
        before.state == (ProjectState::LocateToDelete { is_admin }) ==> match event {
            Event::Category(Some(category_id)) => {
                &&& is_admin ==> after.state == ProjectState::Delete(
                    DeleteStep::FetchName { category_id },
                )
                &&& !is_admin ==> after.state == ProjectState::Refuse(Refusal::NotAdministrator)
            },
            _ => after.state == ProjectState::Refuse(Refusal::OutsideCategoryToDelete),
        },
{
}

/// How the set-up of a project goes on: the announcement must be delivered; without the bot's
/// account, the role or the category it is refused; whether the role could be given and whether a
/// channel could be made does not matter; and every id that came back is kept for what follows.
pub proof fn law_how_setting_up_goes_on(
    before: ProjectCommand,
    cache: BotCache,
    event: Event,
    after: ProjectCommand,
    step: GenerateStep,
)
    requires
        before.state == ProjectState::Generate(step),
        before.well_formed(),
        project_step(before, cache, event, after),
    ensures
        match step {
            GenerateStep::Announce => {
                &&& event == Event::Done ==> after.state == ProjectState::Generate(
                    GenerateStep::FetchBot,
                )
                &&& event != Event::Done ==> after.state == ProjectState::Failed
            },
            GenerateStep::FetchBot => match event {
                Event::Id(bot_id) => after.state == ProjectState::Generate(
                    GenerateStep::CreateRole { bot_id },
                ),
                _ => after.state == ProjectState::Refuse(Refusal::NoBotUser),
            },
            GenerateStep::CreateRole { bot_id } => match event {
                Event::Id(role_id) => after.state == ProjectState::Generate(
                    GenerateStep::GrantRole { bot_id, role_id },
                ),
                _ => after.state == ProjectState::Refuse(Refusal::RoleNotCreated),
            },
            GenerateStep::GrantRole { bot_id, role_id } => after.state == ProjectState::Generate(
                GenerateStep::CreateCategory { bot_id, role_id },
            ),
            GenerateStep::CreateCategory { bot_id, role_id } => match event {
                Event::Id(category_id) => after.state == ProjectState::Generate(
                    GenerateStep::CreateChannel { bot_id, role_id, category_id, index: 0 },
                ),
                _ => after.state == ProjectState::Refuse(Refusal::CategoryNotCreated),
            },
            GenerateStep::CreateChannel { bot_id, role_id, category_id, index } => {
                &&& index < 8 ==> after.state == ProjectState::Generate(
                    GenerateStep::CreateChannel {
                        bot_id,
                        role_id,
                        category_id,
                        index: (index + 1) as usize,
                    },
                )
                &&& index == 8 ==> after.state == ProjectState::Generate(
                    GenerateStep::AnnounceReady { category_id },
                )
            },
            GenerateStep::AnnounceReady { category_id } => {
                &&& event == Event::Done ==> after.state == ProjectState::Generate(
                    GenerateStep::FindManager { category_id },
                )
                &&& event != Event::Done ==> after.state == ProjectState::Failed
            },
            GenerateStep::FindManager { category_id } => {
                &&& after.state == ProjectState::Generate(GenerateStep::Enter)
                &&& after.project is Some
                &&& after.project->0@ == (ProjectView {
                    id: Seq::empty(),
                    name: before.name@,
                    status: Status::NotStarted,
                    github: Seq::empty(),
                    pm: match event {
                        Event::Member(Some(member)) => MemberView {
                            id: member.id@,
                            name: member.name@,
                            discord_id: member.discord_id@,
                        },
                        _ => MemberView {
                            id: Seq::empty(),
                            name: Seq::empty(),
                            discord_id: Seq::empty(),
                        },
                    },
                    participants: Seq::empty(),
                    category_id: decimal(category_id as nat),
                })
            },
            GenerateStep::Enter => after.state == ProjectState::Finished,
        },
{
}

/// How a renaming goes on: an unknown project ends it; a category that could not be renamed is
/// reported with the reason; the role is looked for only where the old name is known, and whether it
/// was renamed is reported as it was; the page is brought up to date once the report is delivered.
pub proof fn law_how_renaming_goes_on(
    before: ProjectCommand,
    cache: BotCache,
    event: Event,
    after: ProjectCommand,
    step: RenameStep,
)
    requires
        before.state == ProjectState::Rename(step),
        before.well_formed(),
        project_step(before, cache, event, after),
    ensures
        match step {
            RenameStep::FindProject { category_id } => match event {
                Event::Project(Some(found)) => after.state == ProjectState::Rename(
                    RenameStep::RenameCategory { category_id },
                ) && after.project is Some && after.project->0@ == found@,
                _ => after.state == ProjectState::Finished,
            },
            RenameStep::RenameCategory { category_id } => match event {
                Event::Done => {
                    &&& before.old_name@.len() == 0 ==> after.state == ProjectState::Rename(
                        RenameStep::Report { role_renamed: false },
                    )
                    &&& before.old_name@.len() > 0 ==> after.state == ProjectState::Rename(
                        RenameStep::FetchRoles,
                    )
                    &&& after.project is Some
                    &&& after.project->0@ == (ProjectView {
                        name: before.name@,
                        ..before.project->0@
                    })
                },
                Event::Failed(error) => after.state == ProjectState::Refuse(
                    Refusal::CategoryNotRenamed,
                ) && after.error@ == error@,
                _ => after.state == ProjectState::Refuse(Refusal::CategoryNotRenamed),
            },
            RenameStep::FetchRoles => match event {
                Event::Roles(roles) => {
                    &&& is_nowhere(roles@, before.old_name@) ==> after.state
                        == ProjectState::Rename(RenameStep::Report { role_renamed: false })
                    &&& !is_nowhere(roles@, before.old_name@) ==> exists|i: int|
                        is_first(roles@, before.old_name@, i) && after.state
                            == ProjectState::Rename(
                            RenameStep::RenameRole { role_id: (#[trigger] roles@[i]).id },
                        )
                },
                _ => after.state == ProjectState::Rename(
                    RenameStep::Report { role_renamed: false },
                ),
            },
            RenameStep::RenameRole { role_id } => {
                &&& event == Event::Done ==> after.state == ProjectState::Rename(
                    RenameStep::Report { role_renamed: true },
                )
                &&& event != Event::Done ==> after.state == ProjectState::Rename(
                    RenameStep::Report { role_renamed: false },
                )
            },
            RenameStep::Report { role_renamed } => {
                &&& event == Event::Done ==> after.state == ProjectState::Rename(
                    RenameStep::Update,
                )
                &&& event != Event::Done ==> after.state == ProjectState::Failed
            },
            RenameStep::Update => after.state == ProjectState::Finished,
        },
{
    match (step, event) {
        (RenameStep::FetchRoles, Event::Roles(roles)) => {
            lemma_first_or_nowhere(roles@, before.old_name@);
        },
        _ => {},
    }
}

/// Whether no role bears a name, whatever the case of its ASCII letters.
pub open spec fn is_nowhere(roles: Seq<GuildRole>, name: Seq<char>) -> bool {
    forall|i: int|
        0 <= i < roles.len() ==> !same_ignoring_ascii_case((#[trigger] roles[i]).name@, name)
}

/// Whether the role at a place is the first that bears a name, whatever the case of its ASCII
/// letters.
pub open spec fn is_first(roles: Seq<GuildRole>, name: Seq<char>, i: int) -> bool {
    &&& 0 <= i < roles.len()
    &&& same_ignoring_ascii_case(roles[i].name@, name)
    &&& forall|j: int| 0 <= j < i ==> !same_ignoring_ascii_case((#[trigger] roles[j]).name@, name)
}

/// A role is found exactly where one bears the name, and it is the first that does.
proof fn lemma_first_or_nowhere(roles: Seq<GuildRole>, name: Seq<char>)
    ensures
        is_nowhere(roles, name) <==> first_role_like(roles, name) is None,
        !is_nowhere(roles, name) ==> exists|i: int|
            is_first(roles, name, i) && first_role_like(roles, name)
                == Some((#[trigger] roles[i]).id),
{
    law_the_first_role_like_a_name(roles, name);
    if first_role_like(roles, name) is Some {
        let id = first_role_like(roles, name)->0;
        let i = choose|i: int|
            0 <= i < roles.len() && (#[trigger] roles[i]).id == id && same_ignoring_ascii_case(
                roles[i].name@,
                name,
            ) && forall|j: int|
                0 <= j < i ==> !same_ignoring_ascii_case((#[trigger] roles[j]).name@, name);
        assert(is_first(roles, name, i));
    }
}

/// How a deletion goes on: once its announcement is delivered nothing stops it. All channels go,
/// then the category, then the first role that bears the name of the project, and then, whatever
/// came back, the page is looked for and moved to the trash where it is found.
pub proof fn law_how_deleting_goes_on(
    before: ProjectCommand,
    cache: BotCache,
    event: Event,
    after: ProjectCommand,
    step: DeleteStep,
)
    requires
        before.state == ProjectState::Delete(step),
        before.well_formed(),
        project_step(before, cache, event, after),
    ensures
        match step {
            DeleteStep::FetchName { category_id } => {
                &&& after.state == ProjectState::Delete(DeleteStep::Announce { category_id })
                &&& after.old_name@ == match event {
                    Event::ChannelName(Some(name)) => name@,
                    _ => Seq::empty(),
                }
            },
            DeleteStep::Announce { category_id } => {
                &&& event == Event::Done ==> after.state == ProjectState::Delete(
                    DeleteStep::FetchChannels { category_id },
                )
                &&& event != Event::Done ==> after.state == ProjectState::Failed
            },
            DeleteStep::FetchChannels { category_id } => match event {
                Event::Channels(channels) => after.state == ProjectState::Delete(
                    DeleteStep::DeleteChannel { category_id, index: 0 },
                ) && after.doomed@ == doomed_channels(channels@, category_id, before.channel_id),
                _ => after.state == ProjectState::Delete(
                    DeleteStep::DeleteCategory { category_id },
                ),
            },
            DeleteStep::DeleteChannel { category_id, index } => {
                &&& index + 1 < before.doomed@.len() ==> after.state == ProjectState::Delete(
                    DeleteStep::DeleteChannel { category_id, index: (index + 1) as usize },
                )
                &&& index + 1 == before.doomed@.len() ==> after.state == ProjectState::Delete(
                    DeleteStep::DeleteCategory { category_id },
                )
            },
            DeleteStep::DeleteCategory { category_id } => {
                &&& before.old_name@.len() == 0 ==> after.state == ProjectState::Delete(
                    DeleteStep::FindProject,
                )
                &&& before.old_name@.len() > 0 ==> after.state == ProjectState::Delete(
                    DeleteStep::FetchRoles,
                )
            },
            DeleteStep::FetchRoles => match event {
                Event::Roles(roles) => {
                    &&& is_nowhere(roles@, before.old_name@) ==> after.state
                        == ProjectState::Delete(DeleteStep::FindProject)
                    &&& !is_nowhere(roles@, before.old_name@) ==> exists|i: int|
                        is_first(roles@, before.old_name@, i) && after.state
                            == ProjectState::Delete(
                            DeleteStep::DeleteRole { role_id: (#[trigger] roles@[i]).id },
                        )
                },
                _ => after.state == ProjectState::Delete(DeleteStep::FindProject),
            },
            DeleteStep::DeleteRole { role_id } => after.state == ProjectState::Delete(
                DeleteStep::FindProject,
            ),
            DeleteStep::FindProject => match event {
                Event::ProjectId(Some(id)) => after.state == ProjectState::Delete(
                    DeleteStep::Trash,
                ) && after.project_id@ == id@,
                _ => after.state == ProjectState::Finished,
            },
            DeleteStep::Trash => after.state == ProjectState::Finished,
        },
{
    match (step, event) {
        (DeleteStep::FetchRoles, Event::Roles(roles)) => {
            lemma_first_or_nowhere(roles@, before.old_name@);
        },
        _ => {},
    }
}

/// What a command has learnt stays as it is: the new name once it is deferred, the old name but when
/// the name of the category comes in, the channels to go but when they are listed, the page but when
/// it is found, and the project but when it is found, renamed or made up.
pub proof fn law_what_was_learnt_is_kept(
    before: ProjectCommand,
    cache: BotCache,
    event: Event,
    after: ProjectCommand,
)
    requires
        project_step(before, cache, event, after),
    ensures
        before.state != ProjectState::Defer ==> after.name@ == before.name@,
        !(before.state is FetchOldName) && !(before.state is Delete
            && before.state->Delete_0 is FetchName) ==> after.old_name@ == before.old_name@,
        !(before.state is Delete && before.state->Delete_0 is FetchChannels) ==> after.doomed@
            == before.doomed@,
        !(before.state is Delete && before.state->Delete_0 is FindProject) ==> after.project_id@
            == before.project_id@,
        !(before.state is Rename && before.state->Rename_0 is RenameCategory) ==> after.error@
            == before.error@,
        !(before.state is Rename && (before.state->Rename_0 is FindProject
            || before.state->Rename_0 is RenameCategory)) && !(before.state is Generate
            && before.state->Generate_0 is FindManager) ==> optional_view(after.project)
            == optional_view(before.project),
        after.guild_id == before.guild_id,
        after.user_id == before.user_id,
        after.channel_id == before.channel_id,
        after.member_roles == before.member_roles,
        after.option == before.option,
        before.state == ProjectState::Finished ==> after.state == ProjectState::Finished,
        before.state == ProjectState::Failed ==> after.state == ProjectState::Failed,
        before.project matches Some(project) ==> optional_view(before.project) == Some(project@),
        before.project is None ==> optional_view(before.project) is None,
{
}

/// What is asked for before a command is admitted, and at its end. A refusal is answered with its
/// own text, the name that was asked for and the reason that was given.
pub proof fn law_what_is_asked_for_around(command: ProjectCommand, action: Action)
    requires
        calls_for(command, action),
    ensures
        match command.state {
            ProjectState::Defer => action == Action::Defer,
            ProjectState::Refuse(refusal) => action is Reply && action->text@ == refusal_text(
                refusal,
                command.name@,
                command.error@,
            ),
            ProjectState::LocateToRename => action == Action::LocateCategory,
            ProjectState::CheckManager { category_id } => action == (Action::CheckManager {
                category_id,
            }),
            ProjectState::FetchOldName { category_id } => action == (Action::FetchChannelName {
                channel_id: category_id,
            }),
            ProjectState::FetchGuild => action == Action::FetchGuild,
            ProjectState::LocateToDelete { .. } => action == Action::LocateCategory,
            ProjectState::Finished => action == Action::Stop,
            ProjectState::Failed => action == Action::Fail,
            _ => true,
        },
{
}

/// What the set-up of a project asks for: each step in terms of the ids that came back, of the user
/// who gave the command and of the name that they asked for.
pub proof fn law_what_setting_up_asks_for(
    command: ProjectCommand,
    step: GenerateStep,
    action: Action,
)
    requires
        command.well_formed(),
        command.state == ProjectState::Generate(step),
        calls_for(command, action),
    ensures
        match step {
            GenerateStep::Announce => action is Reply && action->text@ == setup_text(command.name@),
            GenerateStep::FetchBot => action == Action::FetchBot,
            GenerateStep::CreateRole { bot_id } => action is CreateRole && action->CreateRole_name@
                == command.name@,
            GenerateStep::GrantRole { bot_id, role_id } => action == (Action::GrantRole {
                user_id: command.user_id,
                role_id,
            }),
            GenerateStep::CreateCategory { bot_id, role_id } => {
                &&& action is CreateChannel
                &&& action->channel@ == project_category(
                    command.name@,
                    project_overwrites(command.guild_id->0, role_id, bot_id, command.user_id),
                )
                &&& action->CreateChannel_pause_ms == 0
            },
            GenerateStep::CreateChannel { bot_id, role_id, category_id, index } => {
                &&& action is CreateChannel
                &&& action->channel@ == project_channel(
                    index as int,
                    category_id,
                    project_overwrites(command.guild_id->0, role_id, bot_id, command.user_id),
                )
                &&& action->CreateChannel_pause_ms == pause_after(index as int)
            },
            GenerateStep::AnnounceReady { category_id } => action is Reply && action->text@
                == ready_text(command.user_id),
            GenerateStep::FindManager { category_id } => action == (Action::FindMember {
                user_id: command.user_id,
            }),
            GenerateStep::Enter => action is EnterProject && action->EnterProject_project@
                == command.project->0@,
        },
{
}

/// What a renaming asks for: the project is found under the old name, and the category, the role
/// and the page get the new one.
pub proof fn law_what_renaming_asks_for(command: ProjectCommand, step: RenameStep, action: Action)
    requires
        command.well_formed(),
        command.state == ProjectState::Rename(step),
        calls_for(command, action),
    ensures
        match step {
            RenameStep::FindProject { category_id } => action is FindProject
                && action->FindProject_name@ == command.old_name@,
            RenameStep::RenameCategory { category_id } => action is RenameChannel
                && action->RenameChannel_channel_id == category_id && action->RenameChannel_name@
                == command.name@,
            RenameStep::FetchRoles => action == Action::FetchRoles,
            RenameStep::RenameRole { role_id } => action is RenameRole
                && action->RenameRole_role_id == role_id && action->RenameRole_name@
                == command.name@,
            RenameStep::Report { role_renamed } => action is Reply && action->text@ == renamed_text(
                command.name@,
                role_renamed,
            ),
            RenameStep::Update => action is UpdateProject && action->UpdateProject_project_id@
                == command.project->0@.id && action->UpdateProject_project@ == command.project->0@,
        },
{
}

/// What a deletion asks for: the channels and the category that were found go, and the page that
/// was found under the name of the category.
pub proof fn law_what_deleting_asks_for(command: ProjectCommand, step: DeleteStep, action: Action)
    requires
        command.well_formed(),
        command.state == ProjectState::Delete(step),
        calls_for(command, action),
    ensures
        match step {
            DeleteStep::FetchName { category_id } => action == (Action::FetchChannelName {
                channel_id: category_id,
            }),
            DeleteStep::Announce { category_id } => action is Reply && action->text@
                == cleanup_text(),
            DeleteStep::FetchChannels { category_id } => action == Action::FetchChannels,
            DeleteStep::DeleteChannel { category_id, index } => action == (Action::DeleteChannel {
                channel_id: command.doomed@[index as int],
                pause_ms: 10,
            }),
            DeleteStep::DeleteCategory { category_id } => action == (Action::DeleteChannel {
                channel_id: category_id,
                pause_ms: 0,
            }),
            DeleteStep::FetchRoles => action == Action::FetchRoles,
            DeleteStep::DeleteRole { role_id } => action == (Action::DeleteRole { role_id }),
            DeleteStep::FindProject => action is FindProjectId && action->FindProjectId_name@
                == command.old_name@,
            DeleteStep::Trash => action is TrashProject && action->TrashProject_project_id@
                == command.project_id@,
        },
{
}

/// What a renaming writes is the project that was found with nothing changed but its name, on the
/// page of that project.
pub proof fn law_what_a_renaming_writes(
    run: Seq<ProjectCommand>,
    caches: Seq<BotCache>,
    events: Seq<Event>,
    found: Project,
    k: int,
    action: Action,
)
    requires
        is_run(run, caches, events),
        run[0].state is Rename,
        run[0].state->Rename_0 is FindProject,
        0 <= k < run.len(),
        run[k].state == ProjectState::Rename(RenameStep::Update),
        events[0] == Event::Project(Some(found)),
        calls_for(run[k], action),
    ensures
        action is UpdateProject,
        action->UpdateProject_project_id@ == found.id@,
        action->UpdateProject_project@.id == found.id@,
        action->UpdateProject_project@.name == run[0].name@,
        action->UpdateProject_project@.status == found.status,
        action->UpdateProject_project@.github == found.github@,
        action->UpdateProject_project@.pm == found.pm@,
        action->UpdateProject_project@.participants.len() == found.participants@.len(),
        forall|i: int|
            0 <= i < found.participants@.len() ==> action->UpdateProject_project@.participants[i]
                == (#[trigger] found.participants@[i])@,
        action->UpdateProject_project@.category_id == found.category_id@,
{
    law_renaming_changes_the_name_only(run, caches, events, found, k);
}

/// Whether a deletion in this state still has to look for the page.
pub open spec fn is_before_page(state: ProjectState) -> bool {
    state is Delete && match state->Delete_0 {
        DeleteStep::FetchChannels { .. } => true,
        DeleteStep::DeleteChannel { .. } => true,
        DeleteStep::DeleteCategory { .. } => true,
        DeleteStep::FetchRoles => true,
        DeleteStep::DeleteRole { .. } => true,
        DeleteStep::FindProject => true,
        _ => false,
    }
}

/// A deletion that was announced still has to look for the page, or has looked for it.
proof fn lemma_the_page_comes(
    run: Seq<ProjectCommand>,
    caches: Seq<BotCache>,
    events: Seq<Event>,
    from: int,
    k: int,
) -> (at: int)
    requires
        is_run(run, caches, events),
        0 <= from <= k < run.len(),
        run[from].state is Delete,
        run[from].state->Delete_0 is FetchChannels,
    ensures
        is_before_page(run[k].state) || from <= at < k && run[at].state == ProjectState::Delete(
            DeleteStep::FindProject,
        ),
    decreases k - from,
{
    if from == k {
        from
    } else {
        let at = lemma_the_page_comes(run, caches, events, from, k - 1);
        assert(project_step(run[k - 1], caches[k - 1], events[k - 1], run[k]));
        if run[k - 1].state == ProjectState::Delete(DeleteStep::FindProject) {
            k - 1
        } else {
            at
        }
    }
}

/// A deletion that was announced ends only after the page was looked for under the name of the
/// category; and where a page came back, it ends only after that very page was moved to the trash.
pub proof fn law_a_deletion_reaches_the_page(
    run: Seq<ProjectCommand>,
    caches: Seq<BotCache>,
    events: Seq<Event>,
    from: int,
    k: int,
) -> (at: int)
    requires
        is_run(run, caches, events),
        0 <= from < k < run.len(),
        run[from].state is Delete,
        run[from].state->Delete_0 is FetchChannels,
        run[k].state == ProjectState::Finished || run[k].state == ProjectState::Failed,
    ensures
        run[k].state == ProjectState::Finished,
        from < at < k,
        forall|action: Action| #[trigger]
            calls_for(run[at], action) ==> action is FindProjectId && action->FindProjectId_name@
                == run[from].old_name@,
        events[at] matches Event::ProjectId(Some(id)) ==> {
            &&& at + 1 < k
            &&& forall|action: Action| #[trigger]
                calls_for(run[at + 1], action) ==> action is TrashProject
                    && action->TrashProject_project_id@ == id@
        },
{
    let at = lemma_the_page_comes(run, caches, events, from, k);
    assert(run[at].state == ProjectState::Delete(DeleteStep::FindProject));
    lemma_old_name_stays(run, caches, events, from, at);
    assert(project_step(run[at], caches[at], events[at], run[at + 1]));
    lemma_after_the_page(run, caches, events, at, k);
    at
}

/// Nothing but the trash comes after looking for the page.
proof fn lemma_after_the_page(
    run: Seq<ProjectCommand>,
    caches: Seq<BotCache>,
    events: Seq<Event>,
    at: int,
    k: int,
)
    requires
        is_run(run, caches, events),
        0 <= at < k < run.len(),
        run[at].state == ProjectState::Delete(DeleteStep::FindProject),
    ensures
        run[k].state == ProjectState::Delete(DeleteStep::Trash) || run[k].state
            == ProjectState::Finished,
        run[k].state == ProjectState::Delete(DeleteStep::Trash) ==> k == at + 1,
    decreases k,
{
    assert(project_step(run[k - 1], caches[k - 1], events[k - 1], run[k]));
    if at < k - 1 {
        lemma_after_the_page(run, caches, events, at, k - 1);
    }
}

/// From the list of the channels on, a deletion keeps the name of the category.
proof fn lemma_old_name_stays(
    run: Seq<ProjectCommand>,
    caches: Seq<BotCache>,
    events: Seq<Event>,
    from: int,
    k: int,
)
    requires
        is_run(run, caches, events),
        0 <= from <= k < run.len(),
        run[from].state is Delete,
        run[from].state->Delete_0 is FetchChannels,
    ensures
        run[k].old_name@ == run[from].old_name@,
        run[k].state is Delete && !(run[k].state->Delete_0 is FetchName)
            && !(run[k].state->Delete_0 is Announce) || run[k].state == ProjectState::Finished,
    decreases k - from,
{
    if from < k {
        lemma_old_name_stays(run, caches, events, from, k - 1);
        assert(project_step(run[k - 1], caches[k - 1], events[k - 1], run[k]));
    }
}

/// How a set-up goes on from its category.
proof fn lemma_the_category_stays(
    run: Seq<ProjectCommand>,
    caches: Seq<BotCache>,
    events: Seq<Event>,
    category_id: u64,
    k: int,
)
    requires
        is_run(run, caches, events),
        run[0].state is Generate,
        run[0].state->Generate_0 is CreateCategory,
        events[0] == Event::Id(category_id),
        1 <= k < run.len(),
    ensures
        run[k].name@ == run[0].name@,
        match run[k].state {
            ProjectState::Generate(GenerateStep::CreateChannel { category_id: kept, .. }) => kept
                == category_id,
            ProjectState::Generate(GenerateStep::AnnounceReady { category_id: kept }) => kept
                == category_id,
            ProjectState::Generate(GenerateStep::FindManager { category_id: kept }) => kept
                == category_id,
            ProjectState::Generate(GenerateStep::Enter) => run[k - 1].state
                == ProjectState::Generate(GenerateStep::FindManager { category_id }),
            ProjectState::Finished => true,
            ProjectState::Failed => true,
            _ => false,
        },
    decreases k,
{
    assert(project_step(run[k - 1], caches[k - 1], events[k - 1], run[k]));
    if k > 1 {
        lemma_the_category_stays(run, caches, events, category_id, k - 1);
    }
}

/// What a set-up enters is a project that has just begun, under the name that was asked for, with
/// the category that was made, managed by the member who was found for the user.
pub proof fn law_what_setting_up_enters(
    run: Seq<ProjectCommand>,
    caches: Seq<BotCache>,
    events: Seq<Event>,
    category_id: u64,
    k: int,
    action: Action,
)
    requires
        is_run(run, caches, events),
        run[0].state is Generate,
        run[0].state->Generate_0 is CreateCategory,
        events[0] == Event::Id(category_id),
        0 <= k < run.len(),
        run[k].state == ProjectState::Generate(GenerateStep::Enter),
        calls_for(run[k], action),
    ensures
        action is EnterProject,
        action->EnterProject_project@.name == run[0].name@,
        action->EnterProject_project@.category_id == decimal(category_id as nat),
        action->EnterProject_project@.status == Status::NotStarted,
        action->EnterProject_project@.participants.len() == 0,
        events[k - 1] matches Event::Member(Some(member)) ==> action->EnterProject_project@.pm
            == member@,
{
    lemma_the_category_stays(run, caches, events, category_id, k);
    lemma_the_category_stays(run, caches, events, category_id, k - 1);
    assert(project_step(run[k - 1], caches[k - 1], events[k - 1], run[k]));
}

} // verus!
