//! What holds of every project command, whatever comes back from what it asks to be done.

use crate::cache::BotCache;
use crate::commands::action::{makes, Action};
use crate::commands::event::Event;
use crate::commands::guild::{first_role_like, may_administer, project_overwrites, GuildRole};
use crate::commands::option::string_arg;
use crate::commands::project::action::calls_for;
use crate::commands::project::channel::{pause_after, project_channel, PROJECT_CHANNELS};
use crate::commands::project::message::Refusal;
use crate::commands::project::register::project_command;
use crate::commands::project::state::{
    is_over, optional_view, DeleteStep, GenerateStep, ProjectCommand, ProjectState, RenameStep,
};
use crate::commands::project::step::{new_project, opening, project_step, requested_name};
use crate::integration::notion::member::MemberView;
use crate::integration::notion::project::{Project, ProjectView};
use crate::text::{discord_id, law_discord_id_round_trip, same_ignoring_ascii_case};
use vstd::prelude::*;

verus! {

/// Whether a sequence of commands is one command on its way: each is what the one before it
/// becomes when `events` come back, with what the cache then holds.
pub open spec fn is_run(
    run: Seq<ProjectCommand>,
    caches: Seq<BotCache>,
    events: Seq<Event>,
) -> bool {
    &&& run.len() == events.len() + 1
    &&& caches.len() == events.len()
    &&& forall|i: int|
        0 <= i < events.len() ==> project_step(run[i], caches[i], #[trigger] events[i], run[i + 1])
}

/// How far a command is from its end: the states that it can still go through.
pub open spec fn states_left(state: ProjectState) -> nat {
    match state {
        ProjectState::Defer => 40,
        ProjectState::LocateToRename => 38,
        ProjectState::CheckManager { .. } => 37,
        ProjectState::FetchOldName { .. } => 36,
        ProjectState::Rename(step) => match step {
            RenameStep::FindProject { .. } => 35,
            RenameStep::RenameCategory { .. } => 34,
            RenameStep::FetchRoles => 33,
            RenameStep::RenameRole { .. } => 32,
            RenameStep::Report { .. } => 31,
            RenameStep::Update => 30,
        },
        ProjectState::FetchGuild => 29,
        ProjectState::LocateToDelete { .. } => 28,
        ProjectState::Delete(step) => match step {
            DeleteStep::FetchName { .. } => 27,
            DeleteStep::Announce { .. } => 26,
            DeleteStep::FetchChannels { .. } => 25,
            DeleteStep::DeleteChannel { .. } => 24,
            DeleteStep::DeleteCategory { .. } => 23,
            DeleteStep::FetchRoles => 22,
            DeleteStep::DeleteRole { .. } => 21,
            DeleteStep::FindProject => 20,
            DeleteStep::Trash => 19,
        },
        ProjectState::Generate(step) => match step {
            GenerateStep::Announce => 18,
            GenerateStep::FetchBot => 17,
            GenerateStep::CreateRole { .. } => 16,
            GenerateStep::GrantRole { .. } => 15,
            GenerateStep::CreateCategory { .. } => 14,
            GenerateStep::CreateChannel { .. } => 13,
            GenerateStep::AnnounceReady { .. } => 12,
            GenerateStep::FindManager { .. } => 11,
            GenerateStep::Enter => 10,
        },
        ProjectState::Refuse(_) => 1,
        ProjectState::Finished => 0,
        ProjectState::Failed => 0,
    }
}

/// How many channels a command still has to go through.
pub open spec fn channels_left(command: ProjectCommand) -> int {
    match command.state {
        ProjectState::Generate(GenerateStep::CreateChannel { index, .. }) => PROJECT_CHANNELS
            - index,
        ProjectState::Delete(DeleteStep::DeleteChannel { index, .. }) => command.doomed@.len()
            - index,
        _ => 0,
    }
}

/// Every command ends, whatever comes back: with each event it goes on to a later state, or to the
/// next channel, until it is over; and then it stays so.
pub proof fn law_every_command_ends(
    before: ProjectCommand,
    cache: BotCache,
    event: Event,
    after: ProjectCommand,
)
    requires
        before.well_formed(),
        project_step(before, cache, event, after),
    ensures
        after.well_formed(),
        is_over(before.state) ==> after.state == before.state,
        !is_over(before.state) ==> states_left(after.state) < states_left(before.state) || (
        states_left(after.state) == states_left(before.state) && 0 <= channels_left(after)
            < channels_left(before)),
{
    assert(before.doomed.len() == before.doomed@.len());
}

/// A command that refuses does nothing but say so: the refusal is the last thing that it asks for.
pub proof fn law_a_refusal_is_final(
    before: ProjectCommand,
    cache: BotCache,
    event: Event,
    after: ProjectCommand,
    action: Action,
)
    requires
        before.state is Refuse,
        calls_for(before, action),
        project_step(before, cache, event, after),
    ensures
        action is Reply,
        is_over(after.state),
{
}

/// Whether a command in this state has not yet asked for anything to be changed.
pub open spec fn is_preliminary(state: ProjectState) -> bool {
    match state {
        ProjectState::Defer => true,
        ProjectState::LocateToRename => true,
        ProjectState::CheckManager { .. } => true,
        ProjectState::FetchOldName { .. } => true,
        ProjectState::FetchGuild => true,
        ProjectState::LocateToDelete { .. } => true,
        _ => false,
    }
}

/// Whether a refusal says that the command should not have been given, rather than that something
/// went wrong in carrying it out.
pub open spec fn is_objection(refusal: Refusal) -> bool {
    match refusal {
        Refusal::NoBotUser => false,
        Refusal::RoleNotCreated => false,
        Refusal::CategoryNotCreated => false,
        Refusal::CategoryNotRenamed => false,
        _ => true,
    }
}

/// What comes before a preliminary state is preliminary too.
proof fn lemma_preliminary_before(
    run: Seq<ProjectCommand>,
    caches: Seq<BotCache>,
    events: Seq<Event>,
    k: int,
    i: int,
)
    requires
        is_run(run, caches, events),
        0 <= i <= k < run.len(),
        is_preliminary(run[k].state),
    ensures
        is_preliminary(run[i].state),
    decreases k - i,
{
    if i < k {
        assert(project_step(run[k - 1], caches[k - 1], events[k - 1], run[k]));
        lemma_preliminary_before(run, caches, events, k - 1, i);
    }
}

/// A command to which there is an objection has changed nothing: up to the refusal it has only
/// asked questions.
pub proof fn law_objections_come_first(
    run: Seq<ProjectCommand>,
    caches: Seq<BotCache>,
    events: Seq<Event>,
    k: int,
    i: int,
)
    requires
        is_run(run, caches, events),
        run[0].state == ProjectState::Defer,
        0 <= i < k < run.len(),
        run[k].state is Refuse,
        is_objection(run[k].state->Refuse_0),
    ensures
        is_preliminary(run[i].state),
{
    assert(project_step(run[k - 1], caches[k - 1], events[k - 1], run[k]));
    lemma_preliminary_before(run, caches, events, k - 1, i);
}

/// In a preliminary state a command asks only to tell Discord to wait or to look something up.
pub proof fn law_preliminaries_change_nothing(command: ProjectCommand, action: Action)
    requires
        is_preliminary(command.state),
        calls_for(command, action),
    ensures
        action is Defer || action is LocateCategory || action is CheckManager
            || action is FetchChannelName || action is FetchGuild,
{
}

/// Who gave a command, and where, does not change on its way.
proof fn lemma_origin_stays(
    run: Seq<ProjectCommand>,
    caches: Seq<BotCache>,
    events: Seq<Event>,
    k: int,
)
    requires
        is_run(run, caches, events),
        0 <= k < run.len(),
    ensures
        run[k].user_id == run[0].user_id,
        run[k].member_roles == run[0].member_roles,
        run[k].guild_id == run[0].guild_id,
        run[k].channel_id == run[0].channel_id,
    decreases k,
{
    if k > 0 {
        lemma_origin_stays(run, caches, events, k - 1);
        assert(project_step(run[k - 1], caches[k - 1], events[k - 1], run[k]));
    }
}

/// A project is deleted only for a user who may administer the server: before the deletion begins
/// the server has been fetched, and it has the user as its owner or grants them the permission of
/// an administrator through one of their roles.
pub proof fn law_only_administrators_delete(
    run: Seq<ProjectCommand>,
    caches: Seq<BotCache>,
    events: Seq<Event>,
    k: int,
)
    requires
        is_run(run, caches, events),
        run[0].state == ProjectState::Defer,
        0 <= k < run.len(),
        run[k].state is Delete,
    ensures
        run[0].member_roles is Some,
        exists|i: int|
            0 <= i < k && (#[trigger] events[i]) is Guild && may_administer(
                events[i]->Guild_0,
                run[0].user_id,
                run[0].member_roles->0@,
            ),
    decreases k,
{
    assert(project_step(run[k - 1], caches[k - 1], events[k - 1], run[k]));
    if run[k - 1].state is Delete {
        law_only_administrators_delete(run, caches, events, k - 1);
    } else {
        assert(run[k - 1].state == ProjectState::LocateToDelete { is_admin: true });
        assert(project_step(run[k - 2], caches[k - 2], events[k - 2], run[k - 1]));
        assert(run[k - 2].state == ProjectState::FetchGuild);
        lemma_origin_stays(run, caches, events, k - 2);
        assert(events[k - 2] is Guild);
    }
}

/// A project is renamed only for the user who manages it: before the renaming begins it has been
/// found out that they do.
pub proof fn law_only_managers_rename(
    run: Seq<ProjectCommand>,
    caches: Seq<BotCache>,
    events: Seq<Event>,
    k: int,
)
    requires
        is_run(run, caches, events),
        run[0].state == ProjectState::Defer,
        0 <= k < run.len(),
        run[k].state is Rename,
    ensures
        exists|i: int|
            0 <= i < k && (#[trigger] run[i]).state is CheckManager && events[i]
                == Event::Manager(true),
    decreases k,
{
    assert(project_step(run[k - 1], caches[k - 1], events[k - 1], run[k]));
    if run[k - 1].state is Rename {
        law_only_managers_rename(run, caches, events, k - 1);
    } else {
        assert(run[k - 1].state is FetchOldName);
        assert(project_step(run[k - 2], caches[k - 2], events[k - 2], run[k - 1]));
        assert(run[k - 2].state is CheckManager);
    }
}

/// A project gets a new name, by being set up or renamed, only where the cache knows no project of
/// that name when the work begins.
pub proof fn law_new_names_are_free(
    before: ProjectCommand,
    cache: BotCache,
    event: Event,
    after: ProjectCommand,
)
    requires
        project_step(before, cache, event, after),
        after.state is Generate && !(before.state is Generate) || after.state is Rename && !(
        before.state is Rename),
    ensures
        cache.project_id_by_name(after.name@) is None,
{
}

/// Outside a server a command does nothing but say that it belongs into one.
pub proof fn law_nothing_happens_outside_a_server(
    run: Seq<ProjectCommand>,
    caches: Seq<BotCache>,
    events: Seq<Event>,
    k: int,
)
    requires
        is_run(run, caches, events),
        run[0].state == ProjectState::Defer,
        run[0].guild_id is None,
        0 <= k < run.len(),
    ensures
        run[k].state == ProjectState::Defer || run[k].state == ProjectState::Refuse(
            Refusal::NotInServer,
        ) || is_over(run[k].state),
    decreases k,
{
    if k > 0 {
        law_nothing_happens_outside_a_server(run, caches, events, k - 1);
        lemma_origin_stays(run, caches, events, k - 1);
        assert(project_step(run[k - 1], caches[k - 1], events[k - 1], run[k]));
    }
}

/// All channels of a new project are made, in their order and in its category, whether or not the
/// ones before could be made; then the user is told that the project is ready.
pub proof fn law_all_channels_are_made(
    run: Seq<ProjectCommand>,
    caches: Seq<BotCache>,
    events: Seq<Event>,
    bot_id: u64,
    role_id: u64,
    category_id: u64,
    k: int,
)
    requires
        is_run(run, caches, events),
        run[0].state == ProjectState::Generate(
            GenerateStep::CreateChannel { bot_id, role_id, category_id, index: 0 },
        ),
        0 <= k <= PROJECT_CHANNELS,
        k < run.len(),
    ensures
        k < PROJECT_CHANNELS ==> forall|action: Action|
            #[trigger] calls_for(run[k], action) ==> makes(
                action,
                project_channel(
                    k,
                    category_id,
                    project_overwrites(run[0].guild_id->0, role_id, bot_id, run[0].user_id),
                ),
                pause_after(k),
            ),
        k < PROJECT_CHANNELS ==> run[k].state == ProjectState::Generate(
            GenerateStep::CreateChannel { bot_id, role_id, category_id, index: k as usize },
        ),
        k == PROJECT_CHANNELS ==> run[k].state == ProjectState::Generate(
            GenerateStep::AnnounceReady { category_id },
        ),
    decreases k,
{
    if k > 0 {
        law_all_channels_are_made(run, caches, events, bot_id, role_id, category_id, k - 1);
        assert(project_step(run[k - 1], caches[k - 1], events[k - 1], run[k]));
    }
    lemma_origin_stays(run, caches, events, k);
}

/// All channels that are to go are deleted, in their order, whether or not the ones before could
/// be deleted; then the category is.
pub proof fn law_all_channels_are_deleted(
    run: Seq<ProjectCommand>,
    caches: Seq<BotCache>,
    events: Seq<Event>,
    category_id: u64,
    k: int,
)
    requires
        is_run(run, caches, events),
        run[0].well_formed(),
        run[0].state == ProjectState::Delete(DeleteStep::DeleteChannel { category_id, index: 0 }),
        0 <= k <= run[0].doomed@.len(),
        k < run.len(),
    ensures
        run[k].doomed@ == run[0].doomed@,
        k < run[0].doomed@.len() ==> forall|action: Action|
            #[trigger] calls_for(run[k], action) ==> action
                == (Action::DeleteChannel { channel_id: run[0].doomed@[k], pause_ms: 10 }),
        k < run[0].doomed@.len() ==> run[k].state == ProjectState::Delete(
            DeleteStep::DeleteChannel { category_id, index: k as usize },
        ),
        k == run[0].doomed@.len() ==> run[k].state == ProjectState::Delete(
            DeleteStep::DeleteCategory { category_id },
        ),
    decreases k,
{
    if k > 0 {
        assert(run[0].doomed.len() == run[0].doomed@.len());
        law_all_channels_are_deleted(run, caches, events, category_id, k - 1);
        assert(project_step(run[k - 1], caches[k - 1], events[k - 1], run[k]));
    }
}

/// Of a project that is renamed, everything but the name is written to Notion as it was found.
pub proof fn law_renaming_changes_the_name_only(
    run: Seq<ProjectCommand>,
    caches: Seq<BotCache>,
    events: Seq<Event>,
    found: Project,
    k: int,
)
    requires
        is_run(run, caches, events),
        run[0].state is Rename,
        run[0].state->Rename_0 is FindProject,
        0 <= k < run.len(),
        run[k].state == ProjectState::Rename(RenameStep::Update),
        events[0] == Event::Project(Some(found)),
    ensures
        optional_view(run[k].project) == Some(ProjectView { name: run[0].name@, ..found@ }),
{
    assert(project_step(run[0], caches[0], events[0], run[1]));
    lemma_renamed_project(run, caches, events, found, k);
}

/// What a renaming knows of the project on its way.
proof fn lemma_renamed_project(
    run: Seq<ProjectCommand>,
    caches: Seq<BotCache>,
    events: Seq<Event>,
    found: Project,
    k: int,
)
    requires
        is_run(run, caches, events),
        run[0].state is Rename,
        run[0].state->Rename_0 is FindProject,
        1 <= k < run.len(),
        events[0] == Event::Project(Some(found)),
    ensures
        run[k].name@ == run[0].name@,
        run[k].state is Rename || run[k].state is Refuse || is_over(run[k].state),
        run[k].state is Rename ==> !(run[k].state->Rename_0 is FindProject),
        run[k].state is Rename && run[k].state->Rename_0 is RenameCategory ==> optional_view(
            run[k].project,
        ) == Some(found@),
        run[k].state is Rename && !(run[k].state->Rename_0 is RenameCategory) ==> optional_view(
            run[k].project,
        ) == Some(ProjectView { name: run[0].name@, ..found@ }),
    decreases k,
{
    assert(project_step(run[k - 1], caches[k - 1], events[k - 1], run[k]));
    if k > 1 {
        lemma_renamed_project(run, caches, events, found, k - 1);
    }
}

/// The category of a new project is read back from the text under which it is entered.
pub proof fn law_category_id_is_read_back(name: Seq<char>, pm: MemberView, category_id: u64)
    requires
        category_id != 0,
    ensures
        discord_id(new_project(name, pm, category_id).category_id) == Some(category_id),
{
    law_discord_id_round_trip(category_id);
}

/// Inside a server, every subcommand of which Discord is told is taken up or refused, and never
/// passed over; the name that it asks for is the argument of which Discord is told.
pub proof fn law_registered_subcommands_are_taken_up(
    command: ProjectCommand,
    cache: BotCache,
    i: int,
)
    requires
        command.guild_id is Some,
        command.option is Some,
        0 <= i < project_command().options.len(),
        command.option->0.name@ == project_command().options[i].name,
    ensures
        !is_over(opening(command, cache)),
        project_command().options[i].options.len() > 0 ==> requested_name(command.option->0)
            == string_arg(command.option->0, project_command().options[i].options[0].name),
{
    reveal_strlit("generate");
    reveal_strlit("rename");
    reveal_strlit("delete");
    assert("generate"@.len() == 8);
    assert("rename"@.len() == 6);
    assert("delete"@.len() == 6);
    assert("rename"@[0] != "delete"@[0]);
}

/// Whether a role bears a name, but for the case of ASCII letters.
pub open spec fn bears_name(roles: Seq<GuildRole>, role_id: u64, name: Seq<char>) -> bool {
    exists|i: int|
        0 <= i < roles.len() && (#[trigger] roles[i]).id == role_id && same_ignoring_ascii_case(
            roles[i].name@,
            name,
        )
}

/// The first role that is found under a name bears it.
proof fn lemma_first_role_bears_name(roles: Seq<GuildRole>, name: Seq<char>)
    ensures
        first_role_like(roles, name) is Some ==> bears_name(
            roles,
            first_role_like(roles, name)->0,
            name,
        ),
    decreases roles.len(),
{
    if roles.len() > 0 && !same_ignoring_ascii_case(roles[0].name@, name) {
        let others = roles.skip(1);
        lemma_first_role_bears_name(others, name);
        if first_role_like(roles, name) is Some {
            let role_id = first_role_like(roles, name)->0;
            let i = choose|i: int|
                0 <= i < others.len() && (#[trigger] others[i]).id == role_id
                    && same_ignoring_ascii_case(others[i].name@, name);
            assert(roles[i + 1] == others[i]);
        }
    } else if roles.len() > 0 {
        assert(roles[0].id == first_role_like(roles, name)->0);
    }
}

/// Only a role that bears the name of the project is renamed or deleted with it.
pub proof fn law_only_the_role_of_the_project_is_touched(
    before: ProjectCommand,
    cache: BotCache,
    event: Event,
    after: ProjectCommand,
    role_id: u64,
)
    requires
        project_step(before, cache, event, after),
        after.state == ProjectState::Rename(RenameStep::RenameRole { role_id }) || after.state
            == ProjectState::Delete(DeleteStep::DeleteRole { role_id }),
    ensures
        event is Roles,
        bears_name(event->Roles_0@, role_id, before.old_name@),
{
    assert(event is Roles);
    lemma_first_role_bears_name(event->Roles_0@, before.old_name@);
}

} // verus!
