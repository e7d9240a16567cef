//! The course that member commands take: what follows on what, and what is asked for where.

use crate::commands::action::Action;
use crate::commands::event::Event;
use crate::commands::guild::{first_role_named, law_the_first_role_of_a_name, may_administer};
use crate::commands::member::action::calls_for;
use crate::commands::member::law::{
    is_run, law_the_project_follows_the_roles, names_found, roles_of,
};
use crate::commands::member::message::{
    added_text, list_head, list_line, refusal_text, removed_text, MemberRefusal,
};
use crate::commands::member::roster::{
    included_in, is_readable, new_members, users_among, without, without_all,
};
use crate::commands::member::state::{
    law_what_subcommands_are_for, purpose_of, MemberCommand, MemberState, Purpose,
};
use crate::commands::member::step::{is_acceptable, member_step, next_concerned};
use crate::commands::option::arguments;
use crate::commands::project::state::optional_view;
use crate::integration::notion::member::MemberView;
use crate::integration::notion::project::{Project, ProjectView};
use crate::text::decimal;
use vstd::prelude::*;

verus! {

/// Whether a user is one to be dealt with: to be added where they do not take part, or to be removed
/// where they do.
pub open spec fn is_due(adding: bool, included: Seq<u64>, user_id: u64) -> bool {
    if adding {
        !included.contains(user_id)
    } else {
        included.contains(user_id)
    }
}

/// Whether a command that has dealt with the users before a place goes on with the one at `q`, who
/// is the next to be dealt with; or, where there is none, to its report, or to saying that nothing
/// has changed where nothing has.
pub open spec fn goes_on_with(
    state: MemberState,
    adding: bool,
    included: Seq<u64>,
    targets: Seq<u64>,
    from: int,
    processed: nat,
    role_id: u64,
    q: int,
) -> bool {
    &&& from <= q <= targets.len()
    &&& forall|i: int| from <= i < q ==> !is_due(adding, included, #[trigger] targets[i])
    &&& q < targets.len() ==> is_due(adding, included, targets[q])
    &&& q < targets.len() && adding ==> state == (MemberState::FindTarget {
        role_id,
        index: q as usize,
    })
    &&& q < targets.len() && !adding ==> state == (MemberState::Revoke {
        role_id,
        index: q as usize,
    })
    &&& q == targets.len() && processed == 0 ==> state == MemberState::Refuse(
        MemberRefusal::NothingChanged,
    )
    &&& q == targets.len() && processed > 0 ==> state == MemberState::Report
}

/// Whether a command that has dealt with the users before a place goes on as it should.
pub open spec fn goes_on(
    state: MemberState,
    adding: bool,
    included: Seq<u64>,
    targets: Seq<u64>,
    from: int,
    processed: nat,
    role_id: u64,
    ) -> bool {
    exists|q: int| #[trigger]
    goes_on_with(state, adding, included, targets, from, processed, role_id, q)
    }
    
    /// Nobody who is due is passed over.
    proof fn lemma_next_is_due(purpose: Purpose, included: Seq<u64>, targets: Seq<u64>, from: int)
    requires
    0 <= from <= targets.len(),
    purpose == Purpose::Add || purpose == Purpose::Remove,
    ensures
    ({
    let q = next_concerned(purpose, included, targets, from);
    let adding = purpose == Purpose::Add;
    &&& from <= q <= targets.len()
    &&& forall|i: int| from <= i < q ==> !is_due(adding, included, #[trigger] targets[i])
    &&& q < targets.len() ==> is_due(adding, included, targets[q])
    }),
    decreases targets.len() - from,
    {
    if from < targets.len() && !is_due(purpose == Purpose::Add, included, targets[from]) {
    lemma_next_is_due(purpose, included, targets, from + 1);
    }
    }
    
    /// How a command is admitted: it must be deferred and given in a server, inside a category and with
    /// a subcommand, in that order; then the name of the category is fetched.
    pub proof fn law_how_a_command_is_admitted(
    before: MemberCommand,
    event: Event,
    after: MemberCommand,
    category_id: u64,
)
    requires
        member_step(before, event, after),
        is_acceptable(before, event),
    ensures
        before.state == MemberState::Defer ==> {
            &&& event != Event::Done ==> after.state == MemberState::Failed
            &&& event == Event::Done && before.guild_id is None ==> after.state
                == MemberState::Refuse(MemberRefusal::NotInServer)
            &&& event == Event::Done && before.guild_id is Some ==> after.state
                == MemberState::Locate
        },
        before.state == MemberState::Locate ==> match event {
            Event::Category(Some(found)) => {
                &&& before.option is None ==> after.state == MemberState::Refuse(
                    MemberRefusal::NoSubcommand,
                )
                &&& before.option is Some ==> after.state == (MemberState::FetchName {
                    category_id: found,
                })
            },
            _ => after.state == MemberState::Refuse(MemberRefusal::OutsideCategory),
        },
        before.state == (MemberState::FetchName { category_id }) ==> match event {
            Event::ChannelName(Some(name)) => after.state == (MemberState::FindProject {
                category_id,
            }) && after.project_name@ == name@,
            _ => after.state == MemberState::Failed,
        },
{
}

/// What a command takes over when its project is found: the project itself, those who take part in
/// it, those whom its options name, and the head of the list; and what it does then is what its
/// subcommand is for. Without a project it ends.
pub proof fn law_what_is_taken_over_from_a_project(
    before: MemberCommand,
    event: Event,
    after: MemberCommand,
    category_id: u64,
)
    requires
        before.state == (MemberState::FindProject { category_id }),
        member_step(before, event, after),
    ensures
        match event {
            Event::Project(Some(found)) => {
                &&& after.project is Some
                &&& after.project->0@ == found@
                &&& after.included@ == included_in(found@)
                &&& before.option matches Some(option) ==> after.targets@ == users_among(
                    arguments(option),
                )
                &&& after.list@ == list_head(before.project_name@, false)
                &&& before.option is Some && before.option->0.name@ == "list"@ ==> after.state == (
                MemberState::LookUp { index: 0 })
                &&& before.option is Some && (before.option->0.name@ == "add"@
                    || before.option->0.name@ == "remove"@) ==> after.state == (
                MemberState::CheckAdmin { category_id })
                &&& before.option is None || before.option->0.name@ != "list"@
                    && before.option->0.name@ != "add"@ && before.option->0.name@ != "remove"@
                    ==> after.state == MemberState::Finished
            },
            _ => after.state == MemberState::Finished,
        },
{
    if before.option is Some {
        law_what_subcommands_are_for(before.option->0);
    }
}

/// A refusal that was delivered ends the command well. One that was not ends it badly only where it
/// says that the command belongs into a server or needs a subcommand.
pub proof fn law_how_a_refusal_ends(
    before: MemberCommand,
    refusal: MemberRefusal,
    event: Event,
    after: MemberCommand,
)
    requires
        before.state == MemberState::Refuse(refusal),
        member_step(before, event, after),
    ensures
        event != Event::Done && (refusal == MemberRefusal::NotInServer || refusal
            == MemberRefusal::NoSubcommand) ==> after.state == MemberState::Failed,
        event == Event::Done || refusal != MemberRefusal::NotInServer && refusal
            != MemberRefusal::NoSubcommand ==> after.state == MemberState::Finished,
{
}

/// How a list is written: whoever is found gets a line, and the next is looked up; after the last,
/// the list is shown, and it must be delivered.
pub proof fn law_how_a_list_is_written(
    before: MemberCommand,
    event: Event,
    after: MemberCommand,
    index: usize,
)
    requires
        before.well_formed(),
        member_step(before, event, after),
    ensures
        before.state == (MemberState::LookUp { index }) ==> {
            &&& after.list@ == match event {
                Event::Member(Some(member)) => before.list@ + list_line(member.name@),
                _ => before.list@,
            }
            &&& index + 1 < before.included@.len() ==> after.state == (MemberState::LookUp {
                index: (index + 1) as usize,
            })
            &&& index + 1 == before.included@.len() ==> after.state == MemberState::ShowList
        },
        before.state == MemberState::ShowList ==> {
            &&& event == Event::Done ==> after.state == MemberState::Finished
            &&& event != Event::Done ==> after.state == MemberState::Failed
        },
{
}

/// Who may change who takes part: an administrator of the server or the manager of the project. The
/// server is asked for first, and where it does not come back nobody counts as an administrator.
pub proof fn law_who_is_let_through(
    before: MemberCommand,
    event: Event,
    after: MemberCommand,
    category_id: u64,
    is_admin: bool,
)
    requires
        member_step(before, event, after),
    ensures
        before.state == (MemberState::CheckAdmin { category_id }) ==> after.state == (
        MemberState::CheckManager {
            category_id,
            is_admin: match event {
                Event::Guild(guild) => may_administer(guild, before.user_id, roles_of(before)),
                _ => false,
            },
        }),
        before.state == (MemberState::CheckManager { category_id, is_admin }) ==> {
            &&& is_admin || event == Event::Manager(true) ==> after.state == MemberState::FetchRoles
            &&& !is_admin && event != Event::Manager(true) ==> after.state == MemberState::Refuse(
                MemberRefusal::NotAllowed,
            )
        },
        before.member_roles matches Some(roles) ==> roles_of(before) == roles@,
        before.member_roles is None ==> roles_of(before).len() == 0,
{
}

/// How a command goes from user to user: it starts where the first role that bears exactly the name
/// of the project is found, and deals with all who are due, in their order. Whoever is not found is
/// passed over; whether the role could be given or taken does not stop it.
pub proof fn law_how_users_are_gone_through(
    before: MemberCommand,
    event: Event,
    after: MemberCommand,
    role_id: u64,
    index: usize,
)
    requires
        before.well_formed(),
        member_step(before, event, after),
        purpose_of(before.option) == Purpose::Add || purpose_of(before.option) == Purpose::Remove,
    ensures
        before.state == MemberState::FetchRoles ==> match event {
            Event::Roles(roles) => {
                &&& (forall|i: int|
                    0 <= i < roles@.len() ==> (#[trigger] roles@[i]).name@
                        != before.project->0.name@) ==> after.state == MemberState::Refuse(
                    MemberRefusal::NoRole,
                )
                &&& forall|i: int|
                    0 <= i < roles@.len() && (#[trigger] roles@[i]).name@
                        == before.project->0.name@ && (forall|j: int|
                        0 <= j < i ==> (#[trigger] roles@[j]).name@ != before.project->0.name@)
                        ==> goes_on(
                            after.state,
                            purpose_of(before.option) == Purpose::Add,
                            before.included@,
                            before.targets@,
                            0,
                            before.processed@.len(),
                            roles@[i].id,
                        )
            },
            _ => after.state == MemberState::Refuse(MemberRefusal::NoRole),
        },
        before.state == (MemberState::FindTarget { role_id, index }) ==> match event {
            Event::Member(Some(member)) => after.state == (MemberState::Grant { role_id, index })
                && after.target_name@ == member.name@,
            _ => goes_on(
                after.state,
                purpose_of(before.option) == Purpose::Add,
                before.included@,
                before.targets@,
                index + 1,
                before.processed@.len(),
                role_id,
            ),
        },
        before.state == (MemberState::Grant { role_id, index }) || before.state == (
        MemberState::Revoke { role_id, index }) ==> goes_on(
            after.state,
            purpose_of(before.option) == Purpose::Add,
            before.included@,
            before.targets@,
            index + 1,
            after.processed@.len(),
            role_id,
        ),
{
    let purpose = purpose_of(before.option);
    let adding = purpose == Purpose::Add;
    assert(before.targets.len() == before.targets@.len());
    let from: int = match before.state {
        MemberState::FindTarget { role_id: _, index } => index + 1,
        MemberState::Grant { role_id: _, index } => index + 1,
        MemberState::Revoke { role_id: _, index } => index + 1,
        _ => 0,
    };
    lemma_next_is_due(purpose, before.included@, before.targets@, from);
    let q = next_concerned(purpose, before.included@, before.targets@, from);
    match (before.state, event) {
        (MemberState::FetchRoles, Event::Roles(roles)) => {
            law_the_first_role_of_a_name(roles@, before.project->0.name@);
            if first_role_named(roles@, before.project->0.name@) is Some {
                let id = first_role_named(roles@, before.project->0.name@)->0;
                assert(goes_on_with(
                    after.state,
                    adding,
                    before.included@,
                    before.targets@,
                    0,
                    before.processed@.len(),
                    id,
                    q,
                ));
            }
        },
        (MemberState::FindTarget { role_id: id, index: at }, _) => {
            if !(event is Member && event->Member_0 is Some) {
                assert(goes_on_with(
                    after.state,
                    adding,
                    before.included@,
                    before.targets@,
                    at + 1,
                    before.processed@.len(),
                    id,
                    q,
                ));
            }
        },
        (MemberState::Grant { role_id: id, index: at }, _) => {
            assert(goes_on_with(
                after.state,
                adding,
                before.included@,
                before.targets@,
                at + 1,
                after.processed@.len(),
                id,
                q,
            ));
        },
        (MemberState::Revoke { role_id: id, index: at }, _) => {
            assert(goes_on_with(
                after.state,
                adding,
                before.included@,
                before.targets@,
                at + 1,
                after.processed@.len(),
                id,
                q,
            ));
        },
        _ => {},
    }
}

/// What a role that was given or taken changes: the user is counted, and entered behind the others
/// under the name that was found, or struck. A role that could not be given or taken changes
/// nothing.
pub proof fn law_what_a_role_changes(
    before: MemberCommand,
    event: Event,
    after: MemberCommand,
    role_id: u64,
    index: usize,
)
    requires
        before.well_formed(),
        member_step(before, event, after),
        before.state == (MemberState::Grant { role_id, index }) || before.state == (
        MemberState::Revoke { role_id, index }),
    ensures
        after.project is Some,
        event != Event::Done ==> after.processed@ == before.processed@ && after.project->0@
            == before.project->0@,
        event == Event::Done ==> after.processed@ == before.processed@.push(
            before.targets@[index as int],
        ),
        event == Event::Done && before.state is Grant ==> after.project->0@ == (ProjectView {
            participants: before.project->0@.participants.push(
                MemberView {
                    id: Seq::empty(),
                    name: before.target_name@,
                    discord_id: decimal(before.targets@[index as int] as nat),
                },
            ),
            ..before.project->0@
        }),
        event == Event::Done && before.state is Revoke ==> after.project->0@ == (ProjectView {
            participants: without(
                before.project->0@.participants,
                before.targets@[index as int],
            ),
            ..before.project->0@
        }),
{
}

/// The page is brought up to date once the report is delivered, and not otherwise; then the command
/// is at its end, whatever came back.
pub proof fn law_how_a_command_closes(before: MemberCommand, event: Event, after: MemberCommand)
    requires
        member_step(before, event, after),
    ensures
        before.state == MemberState::Report && event == Event::Done ==> after.state
            == MemberState::Update,
        before.state == MemberState::Report && event != Event::Done ==> after.state
            == MemberState::Finished,
        before.state == MemberState::Update ==> after.state == MemberState::Finished,
        before.state == MemberState::Finished ==> after.state == MemberState::Finished,
        before.state == MemberState::Failed ==> after.state == MemberState::Failed,
{
}

/// What a command has learnt stays as it is but for the step at which it is learnt.
pub proof fn law_what_was_learnt_is_kept(before: MemberCommand, event: Event, after: MemberCommand)
    requires
        member_step(before, event, after),
    ensures
        !(before.state is FetchName) ==> after.project_name@ == before.project_name@,
        !(before.state is FindProject) ==> after.included@ == before.included@ && after.targets@
            == before.targets@,
        !(before.state is FindProject) && !(before.state is LookUp) ==> after.list@ == before.list@,
        !(before.state is FindTarget) ==> after.target_name@ == before.target_name@,
        !(before.state is Grant) && !(before.state is Revoke) ==> after.processed@
            == before.processed@,
        !(before.state is FindProject) && !(before.state is Grant) && !(before.state is Revoke)
            ==> optional_view(after.project) == optional_view(before.project),
        after.guild_id == before.guild_id,
        after.user_id == before.user_id,
        after.member_roles == before.member_roles,
        after.option == before.option,
{
}

/// What a command asks for, wherever it stands.
pub proof fn law_what_is_asked_for(command: MemberCommand, action: Action)
    requires
        command.well_formed(),
        calls_for(command, action),
    ensures
        match command.state {
            MemberState::Defer => action == Action::Defer,
            MemberState::Refuse(refusal) => {
                &&& action is Reply
                &&& command.project matches Some(project) ==> action->text@ == refusal_text(
                    refusal,
                    project.name@,
                )
                &&& command.project is None ==> action->text@ == refusal_text(
                    refusal,
                    Seq::empty(),
                )
            },
            MemberState::Locate => action == Action::LocateCategory,
            MemberState::FetchName { category_id } => action == (Action::FetchChannelName {
                channel_id: category_id,
            }),
            MemberState::FindProject { .. } => action is FindProject && action->FindProject_name@
                == command.project_name@,
            MemberState::LookUp { index } => action == (Action::FindMember {
                user_id: command.included@[index as int],
            }),
            MemberState::ShowList => action is Reply && action->text@ == command.list@,
            MemberState::CheckAdmin { .. } => action == Action::FetchGuild,
            MemberState::CheckManager { category_id, is_admin: _ } => action == (
            Action::CheckManager { category_id }),
            MemberState::FetchRoles => action == Action::FetchRoles,
            MemberState::FindTarget { role_id: _, index } => action == (Action::FindMember {
                user_id: command.targets@[index as int],
            }),
            MemberState::Grant { role_id, index } => action == (Action::GrantRole {
                user_id: command.targets@[index as int],
                role_id,
            }),
            MemberState::Revoke { role_id, index } => action == (Action::RevokeRole {
                user_id: command.targets@[index as int],
                role_id,
            }),
            MemberState::Report => {
                &&& action is Reply
                &&& purpose_of(command.option) == Purpose::Add ==> action->text@ == added_text(
                    command.processed@,
                    command.project->0.name@,
                )
                &&& purpose_of(command.option) != Purpose::Add ==> action->text@ == removed_text(
                    command.processed@,
                    command.project->0.name@,
                )
            },
            MemberState::Update => action is UpdateProject && action->UpdateProject_project_id@
                == command.project->0@.id && action->UpdateProject_project@ == command.project->0@,
            MemberState::Finished => action == Action::Stop,
            MemberState::Failed => action == Action::Fail,
        },
{
}

/// What a command writes to Notion in the end is the project that was found, on its own page, with
/// nothing changed but those who take part: behind them stand those who were added, or those who
/// were removed are missing.
pub proof fn law_what_a_command_writes(
    run: Seq<MemberCommand>,
    events: Seq<Event>,
    at: int,
    found: Project,
    k: int,
    action: Action,
)
    requires
        is_run(run, events),
        run[0].state == MemberState::Defer,
        run[0].processed@.len() == 0,
        0 <= at < events.len(),
        run[at].state is FindProject,
        events[at] == Event::Project(Some(found)),
        at < k < run.len(),
        run[k].state == MemberState::Update,
        calls_for(run[k], action),
    ensures
        action is UpdateProject,
        action->UpdateProject_project_id@ == found.id@,
        action->UpdateProject_project@.id == found.id@,
        action->UpdateProject_project@.name == found.name@,
        action->UpdateProject_project@.status == found.status,
        action->UpdateProject_project@.github == found.github@,
        action->UpdateProject_project@.pm == found.pm@,
        action->UpdateProject_project@.category_id == found.category_id@,
        purpose_of(run[k].option) == Purpose::Add ==> action->UpdateProject_project@.participants
            == found@.participants + new_members(names_found(run, events, k), run[k].processed@),
        purpose_of(run[k].option) == Purpose::Remove ==> action->UpdateProject_project@.participants
            == without_all(found@.participants, run[k].processed@),
{
    law_the_project_follows_the_roles(run, events, at, found, k);
}

/// A command takes in whatever comes back, but for two things: a category that is no channel of a
/// server where its name is fetched, and a project of which a Discord id cannot be read.
pub proof fn law_what_a_command_can_take_in(command: MemberCommand, event: Event)
    ensures
        !is_acceptable(command, event) <==> {
            ||| command.state is FetchName && event == Event::ChannelName(None)
            ||| command.state is FindProject && event is Project && event->Project_0 is Some
                && !is_readable(event->Project_0->0@)
        },
{
}

} // verus!
