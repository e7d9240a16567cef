//! What holds of every member command, whatever comes back from what it asks to be done.

use crate::commands::action::Action;
use crate::commands::event::Event;
use crate::commands::guild::{first_role_named, law_the_first_role_of_a_name, may_administer};
use crate::commands::member::action::calls_for;
use crate::commands::member::message::{list_line, MemberRefusal};
use crate::commands::member::roster::{
    included_in, is_readable, law_removing_more_undoes_adding, new_member, new_members, users_among,
    without_all,
};
use crate::commands::member::state::{is_over, purpose_of, MemberCommand, MemberState, Purpose};
use crate::commands::member::step::{is_concerned, member_step, next_concerned};
use crate::commands::option::arguments;
use crate::commands::project::state::optional_view;
use crate::integration::notion::member::MemberView;
use crate::integration::notion::project::{Project, ProjectView};
use crate::text::{
    after_plus, decimal, is_digit, law_discord_id_round_trip, lemma_decimal_denotes,
};
use vstd::prelude::*;

verus! {

/// Whether a sequence of commands is one command on its way: each is what the one before it
/// becomes when `events` come back.
pub open spec fn is_run(run: Seq<MemberCommand>, events: Seq<Event>) -> bool {
    &&& run.len() == events.len() + 1
    &&& forall|i: int|
        0 <= i < events.len() ==> member_step(run[i], #[trigger] events[i], run[i + 1])
}

/// The next user for whom there is something to do is not before the place from which they are
/// looked for, and there is something to do for them.
proof fn lemma_next_concerned(purpose: Purpose, included: Seq<u64>, targets: Seq<u64>, from: int)
    requires
        0 <= from <= targets.len(),
    ensures
        from <= next_concerned(purpose, included, targets, from) <= targets.len(),
        next_concerned(purpose, included, targets, from) < targets.len() ==> is_concerned(
            purpose,
            included,
            targets[next_concerned(purpose, included, targets, from)],
        ),
    decreases targets.len() - from,
{
    if from < targets.len() && !is_concerned(purpose, included, targets[from]) {
        lemma_next_concerned(purpose, included, targets, from + 1);
    }
}

/// How far a command is from its end: the states that it can still go through.
pub open spec fn states_left(state: MemberState) -> nat {
    match state {
        MemberState::Defer => 20,
        MemberState::Locate => 19,
        MemberState::FetchName { .. } => 18,
        MemberState::FindProject { .. } => 17,
        MemberState::LookUp { .. } => 16,
        MemberState::ShowList => 15,
        MemberState::CheckAdmin { .. } => 14,
        MemberState::CheckManager { .. } => 13,
        MemberState::FetchRoles => 12,
        MemberState::FindTarget { .. } => 11,
        MemberState::Grant { .. } => 11,
        MemberState::Revoke { .. } => 11,
        MemberState::Report => 10,
        MemberState::Update => 9,
        MemberState::Refuse(_) => 1,
        MemberState::Finished => 0,
        MemberState::Failed => 0,
    }
}

/// How many steps a command still has to take for the users that it goes through.
pub open spec fn users_left(command: MemberCommand) -> int {
    match command.state {
        MemberState::LookUp { index } => command.included@.len() - index,
        MemberState::FindTarget { role_id: _, index } => 2 * (command.targets@.len() - index),
        MemberState::Grant { role_id: _, index } => 2 * (command.targets@.len() - index) - 1,
        MemberState::Revoke { role_id: _, index } => 2 * (command.targets@.len() - index),
        _ => 0,
    }
}

/// Every command ends, whatever comes back: with each event it goes on to a later state, or to the
/// next user, until it is over; and then it stays so.
pub proof fn law_every_command_ends(before: MemberCommand, event: Event, after: MemberCommand)
    requires
        before.well_formed(),
        member_step(before, event, after),
    ensures
        is_over(before.state) ==> after.state == before.state,
        !is_over(before.state) ==> states_left(after.state) < states_left(before.state) || (
        states_left(after.state) == states_left(before.state) && 0 <= users_left(after)
            < users_left(before)),
{
    assert(before.included.len() == before.included@.len());
    assert(before.targets.len() == before.targets@.len());
    let purpose = purpose_of(before.option);
    let from: int = match before.state {
        MemberState::FindTarget { role_id: _, index } => index + 1,
        MemberState::Grant { role_id: _, index } => index + 1,
        MemberState::Revoke { role_id: _, index } => index + 1,
        _ => 0,
    };
    lemma_next_concerned(purpose, before.included@, before.targets@, from);
}

/// A command that refuses does nothing but say so: the refusal is the last thing that it asks for.
pub proof fn law_a_refusal_is_final(
    before: MemberCommand,
    event: Event,
    after: MemberCommand,
    action: Action,
)
    requires
        before.state is Refuse,
        calls_for(before, action),
        member_step(before, event, after),
    ensures
        action is Reply,
        is_over(after.state),
{
}

/// Whether a command in this state is changing who takes part in a project, or has begun to.
pub open spec fn is_changing(state: MemberState) -> bool {
    match state {
        MemberState::FetchRoles => true,
        MemberState::FindTarget { .. } => true,
        MemberState::Grant { .. } => true,
        MemberState::Revoke { .. } => true,
        MemberState::Report => true,
        MemberState::Update => true,
        _ => false,
    }
}

/// The roles of the user who gave a command.
pub open spec fn roles_of(command: MemberCommand) -> Seq<u64> {
    match command.member_roles {
        Some(roles) => roles@,
        None => Seq::empty(),
    }
}

/// Who gave a command, and which, does not change on its way.
proof fn lemma_origin_stays(run: Seq<MemberCommand>, events: Seq<Event>, k: int)
    requires
        is_run(run, events),
        0 <= k < run.len(),
    ensures
        run[k].user_id == run[0].user_id,
        run[k].member_roles == run[0].member_roles,
        run[k].guild_id == run[0].guild_id,
        run[k].option == run[0].option,
    decreases k,
{
    if k > 0 {
        lemma_origin_stays(run, events, k - 1);
        assert(member_step(run[k - 1], events[k - 1], run[k]));
    }
}

/// Who takes part in a project is changed only for the manager of the project or an administrator
/// of the server: before the change begins, the one or the other has been found out.
pub proof fn law_only_managers_and_administrators_change(
    run: Seq<MemberCommand>,
    events: Seq<Event>,
    k: int,
)
    requires
        is_run(run, events),
        run[0].state == MemberState::Defer,
        0 <= k < run.len(),
        is_changing(run[k].state),
    ensures
        exists|i: int|
            #![trigger events[i]]
            0 <= i < k && (events[i] == Event::Manager(true) && run[i].state is CheckManager
                || events[i] is Guild && may_administer(
                events[i]->Guild_0,
                run[0].user_id,
                roles_of(run[0]),
            )),
    decreases k,
{
    assert(member_step(run[k - 1], events[k - 1], run[k]));
    if is_changing(run[k - 1].state) {
        law_only_managers_and_administrators_change(run, events, k - 1);
    } else {
        assert(run[k - 1].state is CheckManager);
        if events[k - 1] != Event::Manager(true) {
            assert(run[k - 1].state->CheckManager_is_admin);
            assert(member_step(run[k - 2], events[k - 2], run[k - 1]));
            assert(run[k - 2].state is CheckAdmin);
            lemma_origin_stays(run, events, k - 2);
            assert(events[k - 2] is Guild);
        }
    }
}

/// The place up to which the users that a command names have been dealt with.
pub open spec fn place(command: MemberCommand) -> int {
    match command.state {
        MemberState::FindTarget { role_id: _, index } => index as int,
        MemberState::Grant { role_id: _, index } => index as int,
        MemberState::Revoke { role_id: _, index } => index as int,
        MemberState::Report => command.targets@.len() as int,
        MemberState::Update => command.targets@.len() as int,
        MemberState::Refuse(_) => command.targets@.len() as int,
        MemberState::Finished => command.targets@.len() as int,
        MemberState::Failed => command.targets@.len() as int,
        _ => 0,
    }
}

/// Whether a command deals with the right users: it gives the role only to those who did not take
/// part and takes it only from those who did, and it has carried out nothing but that.
pub open spec fn is_fair(command: MemberCommand) -> bool {
    let purpose = purpose_of(command.option);
    &&& match command.state {
        MemberState::CheckAdmin { .. } => purpose == Purpose::Add || purpose == Purpose::Remove,
        MemberState::CheckManager { .. } => purpose == Purpose::Add || purpose == Purpose::Remove,
        MemberState::FetchRoles => purpose == Purpose::Add || purpose == Purpose::Remove,
        MemberState::FindTarget { role_id: _, index } => purpose == Purpose::Add
            && !command.included@.contains(command.targets@[index as int]),
        MemberState::Grant { role_id: _, index } => purpose == Purpose::Add
            && !command.included@.contains(command.targets@[index as int]),
        MemberState::Revoke { role_id: _, index } => purpose == Purpose::Remove
            && command.included@.contains(command.targets@[index as int]),
        MemberState::Report => command.processed@.len() > 0 && (purpose == Purpose::Add || purpose
            == Purpose::Remove),
        MemberState::Update => command.processed@.len() > 0 && (purpose == Purpose::Add || purpose
            == Purpose::Remove),
        _ => true,
    }
    &&& forall|i: int|
        0 <= i < command.processed@.len() ==> is_concerned(
            purpose,
            command.included@,
            #[trigger] command.processed@[i],
        ) && comes_before(command.targets@, place(command), command.processed@[i])
    &&& command.targets@.no_duplicates() ==> command.processed@.no_duplicates()
}

/// Whether a user is among those before a place.
pub open spec fn comes_before(targets: Seq<u64>, place: int, user_id: u64) -> bool {
    exists|j: int| 0 <= j < place && j < targets.len() && #[trigger] targets[j] == user_id
}

/// Whoever comes before a place comes before every later one.
proof fn lemma_comes_before(targets: Seq<u64>, place: int, later: int, user_id: u64)
    requires
        place <= later,
        comes_before(targets, place, user_id),
    ensures
        comes_before(targets, later, user_id),
{
    let j = choose|j: int| 0 <= j < place && j < targets.len() && #[trigger] targets[j] == user_id;
    assert(targets[j] == user_id);
}

/// A command deals with the right users all the way: nobody who takes part is added again, nobody
/// who does not is removed, and where it names nobody twice it is carried out for nobody twice. It
/// reports, and writes to Notion, only where it has been carried out for someone.
pub proof fn law_commands_stay_fair(run: Seq<MemberCommand>, events: Seq<Event>, k: int)
    requires
        is_run(run, events),
        run[0].state == MemberState::Defer,
        run[0].processed@.len() == 0,
        0 <= k < run.len(),
    ensures
        run[k].well_formed(),
        is_fair(run[k]),
    decreases k,
{
    if k > 0 {
        law_commands_stay_fair(run, events, k - 1);
        assert(member_step(run[k - 1], events[k - 1], run[k]));
        lemma_nothing_processed_at_first(run, events, k - 1);
        lemma_fairness_step(run[k - 1], events[k - 1], run[k]);
    } else {
        assert(run[0].processed@.no_duplicates());
    }
}

/// Whether a command in this state has not yet come to the users that it names.
pub open spec fn is_early(state: MemberState) -> bool {
    match state {
        MemberState::Defer => true,
        MemberState::Locate => true,
        MemberState::FetchName { .. } => true,
        MemberState::FindProject { .. } => true,
        MemberState::LookUp { .. } => true,
        MemberState::ShowList => true,
        MemberState::CheckAdmin { .. } => true,
        MemberState::CheckManager { .. } => true,
        MemberState::FetchRoles => true,
        _ => false,
    }
}

/// Before a command comes to the users that it names, it has been carried out for nobody.
proof fn lemma_nothing_processed_at_first(run: Seq<MemberCommand>, events: Seq<Event>, k: int)
    requires
        is_run(run, events),
        run[0].processed@.len() == 0,
        run[0].state == MemberState::Defer,
        0 <= k < run.len(),
    ensures
        is_early(run[k].state) ==> run[k].processed@.len() == 0,
    decreases k,
{
    if k > 0 {
        lemma_nothing_processed_at_first(run, events, k - 1);
        assert(member_step(run[k - 1], events[k - 1], run[k]));
    }
}

/// One step keeps a command fair.
proof fn lemma_fairness_step(before: MemberCommand, event: Event, after: MemberCommand)
    requires
        before.well_formed(),
        is_fair(before),
        is_early(before.state) ==> before.processed@.len() == 0,
        member_step(before, event, after),
    ensures
        after.well_formed(),
        is_fair(after),
{
    let purpose = purpose_of(before.option);
    assert(before.included.len() == before.included@.len());
    assert(before.targets.len() == before.targets@.len());
    let from: int = match before.state {
        MemberState::FindTarget { role_id: _, index } => index + 1,
        MemberState::Grant { role_id: _, index } => index + 1,
        MemberState::Revoke { role_id: _, index } => index + 1,
        _ => 0,
    };
    lemma_next_concerned(purpose, before.included@, before.targets@, from);
    if is_early(before.state) {
        assert(after.processed@.len() == 0);
        assert(after.processed@.no_duplicates());
    } else {
        assert(after.targets@ == before.targets@);
        assert(after.included@ == before.included@);
        assert(place(before) <= place(after));
        assert forall|i: int| 0 <= i < after.processed@.len() implies is_concerned(
            purpose,
            after.included@,
            #[trigger] after.processed@[i],
        ) && comes_before(after.targets@, place(after), after.processed@[i]) by {
            if i < before.processed@.len() {
                assert(after.processed@[i] == before.processed@[i]);
                lemma_comes_before(
                    before.targets@,
                    place(before),
                    place(after),
                    before.processed@[i],
                );
            } else {
                assert(after.processed@[i] == before.targets@[place(before)]);
            }
        }
        if before.targets@.no_duplicates() && after.processed@.len() > before.processed@.len() {
            assert forall|i: int| 0 <= i < before.processed@.len() implies before.processed@[i]
                != before.targets@[place(before)] by {
                let j = choose|j: int|
                    0 <= j < place(before) && j < before.targets@.len()
                        && #[trigger] before.targets@[j] == before.processed@[i];
                assert(before.targets@[j] == before.processed@[i]);
            }
            assert(after.processed@.no_duplicates());
        }
    }
}

/// Whether a command in this state has found its project, or will not look for it any more.
pub open spec fn is_past_search(state: MemberState) -> bool {
    match state {
        MemberState::Defer => false,
        MemberState::Locate => false,
        MemberState::FetchName { .. } => false,
        MemberState::FindProject { .. } => false,
        _ => true,
    }
}

/// The role goes to nobody but a user who has just been looked up and found, and it is under the
/// name that was found that they are entered.
pub proof fn law_the_role_goes_to_those_who_were_found(
    run: Seq<MemberCommand>,
    events: Seq<Event>,
    k: int,
)
    requires
        is_run(run, events),
        run[0].state == MemberState::Defer,
        0 <= k < run.len(),
        run[k].state is Grant,
    ensures
        k > 0,
        run[k - 1].state is FindTarget,
        run[k - 1].targets@[place(run[k - 1])] == run[k].targets@[place(run[k])],
        events[k - 1] is Member,
        events[k - 1]->Member_0 is Some,
        run[k].target_name@ == events[k - 1]->Member_0->0.name@,
{
    assert(member_step(run[k - 1], events[k - 1], run[k]));
}

/// The names of those who have been given the role, in their order: each is that of the member who
/// was found for the user just before.
pub open spec fn names_found(run: Seq<MemberCommand>, events: Seq<Event>, k: int) -> Seq<Seq<char>>
    decreases k,
{
    if k <= 0 {
        Seq::empty()
    } else if run[k - 1].state is Grant && events[k - 1] is Done {
        names_found(run, events, k - 1).push(events[k - 2]->Member_0->0.name@)
    } else {
        names_found(run, events, k - 1)
    }
}

/// Where a command adds members, there is a name for each for whom it has been carried out.
proof fn lemma_names_found(run: Seq<MemberCommand>, events: Seq<Event>, k: int)
    requires
        is_run(run, events),
        run[0].state == MemberState::Defer,
        run[0].processed@.len() == 0,
        0 <= k < run.len(),
        purpose_of(run[0].option) == Purpose::Add,
    ensures
        names_found(run, events, k).len() == run[k].processed@.len(),
    decreases k,
{
    if k > 0 {
        lemma_names_found(run, events, k - 1);
        law_commands_stay_fair(run, events, k - 1);
        lemma_origin_stays(run, events, k - 1);
        assert(member_step(run[k - 1], events[k - 1], run[k]));
    }
}

/// Whether the project that a command holds is the one that was found, but for those for whom the
/// command has been carried out: they are entered behind the others, in their order and under the
/// given names, or struck.
pub open spec fn is_recorded(
    command: MemberCommand,
    found: ProjectView,
    names: Seq<Seq<char>>,
) -> bool {
    let now = command.project->0@;
    let processed = command.processed@;
    &&& command.project is Some
    &&& now == ProjectView { participants: now.participants, ..found }
    &&& match purpose_of(command.option) {
        Purpose::Add => names.len() == processed.len() && now.participants == found.participants
            + new_members(names, processed),
        Purpose::Remove => now.participants == without_all(found.participants, processed),
        _ => now.participants == found.participants,
    }
}

/// The project that a command holds, and writes to Notion in the end, is the one that was found,
/// changed for exactly those for whom the command has been carried out. Whoever is entered bears
/// the name of the member who was found for them.
pub proof fn law_the_project_follows_the_roles(
    run: Seq<MemberCommand>,
    events: Seq<Event>,
    at: int,
    found: Project,
    k: int,
)
    requires
        is_run(run, events),
        run[0].state == MemberState::Defer,
        run[0].processed@.len() == 0,
        0 <= at < events.len(),
        run[at].state is FindProject,
        events[at] == Event::Project(Some(found)),
        at < k < run.len(),
    ensures
        is_past_search(run[k].state),
        is_recorded(run[k], found@, names_found(run, events, k)),
    decreases k,
{
    let before = run[k - 1];
    let event = events[k - 1];
    let after = run[k];
    assert(member_step(before, event, after));
    law_commands_stay_fair(run, events, k - 1);
    lemma_origin_stays(run, events, k);
    let names = names_found(run, events, k - 1);
    let names_after = names_found(run, events, k);
    if purpose_of(run[0].option) == Purpose::Add {
        lemma_names_found(run, events, k - 1);
        lemma_names_found(run, events, k);
    }
    if at == k - 1 {
        lemma_nothing_processed_at_first(run, events, at);
        assert(after.processed@ =~= Seq::empty());
        assert(found@.participants + new_members(names_after, after.processed@)
            =~= found@.participants);
    } else {
        law_the_project_follows_the_roles(run, events, at, found, k - 1);
        if before.state is Grant && event is Done {
            law_the_role_goes_to_those_who_were_found(run, events, k - 1);
            let user_id = before.targets@[place(before)];
            let entry = new_member(before.target_name@, user_id);
            assert(names_after == names.push(before.target_name@));
            assert(after.processed@ == before.processed@.push(user_id));
            assert(new_members(names_after, after.processed@) =~= new_members(
                names,
                before.processed@,
            ).push(entry));
            assert(found@.participants + new_members(names_after, after.processed@) =~= (
            found@.participants + new_members(names, before.processed@)).push(entry));
        } else if before.state is Revoke && event is Done {
            let user_id = before.targets@[place(before)];
            assert(after.processed@ == before.processed@.push(user_id));
            assert(after.processed@.drop_last() =~= before.processed@);
        } else {
            assert(after.processed@ == before.processed@);
            assert(optional_view(after.project) == optional_view(before.project));
        }
    }
}

/// Once its project has been found, a command keeps to those who then took part and to those whom
/// it names.
proof fn lemma_people_stay(
    run: Seq<MemberCommand>,
    events: Seq<Event>,
    at: int,
    found: Project,
    k: int,
)
    requires
        is_run(run, events),
        0 <= at < events.len(),
        run[at].state is FindProject,
        run[at].option is Some,
        events[at] == Event::Project(Some(found)),
        at < k < run.len(),
    ensures
        is_past_search(run[k].state),
        run[k].included@ == included_in(found@),
        run[k].targets@ == users_among(arguments(run[at].option->0)),
    decreases k,
{
    assert(member_step(run[k - 1], events[k - 1], run[k]));
    if k - 1 > at {
        lemma_people_stay(run, events, at, found, k - 1);
    }
}

/// Only commands to add or to remove members change who takes part in a project: the others
/// neither look for the role nor hand it out nor write to Notion.
pub proof fn law_other_commands_change_nothing(
    run: Seq<MemberCommand>,
    events: Seq<Event>,
    k: int,
)
    requires
        is_run(run, events),
        run[0].state == MemberState::Defer,
        run[0].processed@.len() == 0,
        0 <= k < run.len(),
        purpose_of(run[0].option) == Purpose::List || purpose_of(run[0].option)
            == Purpose::Unknown,
    ensures
        !is_changing(run[k].state),
{
    law_commands_stay_fair(run, events, k);
    lemma_origin_stays(run, events, k);
}

/// The lines of the list for those members who were found.
pub open spec fn lines(found: Seq<Event>) -> Seq<char>
    decreases found.len(),
{
    if found.len() == 0 {
        Seq::empty()
    } else {
        let before = lines(found.drop_last());
        match found.last() {
            Event::Member(Some(member)) => before + list_line(member.name@),
            _ => before,
        }
    }
}

/// The list has a line for each who takes part in the project and could be looked up, in the order
/// in which they take part, and no other line. They are all looked up, one after the other.
pub proof fn law_everyone_is_listed(run: Seq<MemberCommand>, events: Seq<Event>, k: int)
    requires
        is_run(run, events),
        run[0].state == (MemberState::LookUp { index: 0 }),
        run[0].well_formed(),
        0 <= k <= run[0].included@.len(),
        k < run.len(),
    ensures
        run[k].included@ == run[0].included@,
        run[k].list@ == run[0].list@ + lines(events.take(k)),
        k < run[0].included@.len() ==> run[k].state == (MemberState::LookUp { index: k as usize }),
        k == run[0].included@.len() ==> run[k].state == MemberState::ShowList,
    decreases k,
{
    assert(run[0].included.len() == run[0].included@.len());
    if k == 0 {
        assert(run[0].list@ + lines(events.take(0)) =~= run[0].list@);
    } else {
        law_everyone_is_listed(run, events, k - 1);
        assert(member_step(run[k - 1], events[k - 1], run[k]));
        assert(events.take(k).drop_last() =~= events.take(k - 1));
        assert(run[k].list@ =~= run[0].list@ + lines(events.take(k)));
    }
}

/// Outside a server a command does nothing but say so.
pub proof fn law_nothing_happens_outside_a_server(
    run: Seq<MemberCommand>,
    events: Seq<Event>,
    k: int,
)
    requires
        is_run(run, events),
        run[0].state == MemberState::Defer,
        run[0].guild_id is None,
        0 < k < run.len(),
    ensures
        run[k].state == MemberState::Refuse(MemberRefusal::NotInServer) || is_over(run[k].state),
    decreases k,
{
    assert(member_step(run[k - 1], events[k - 1], run[k]));
    if k > 1 {
        law_nothing_happens_outside_a_server(run, events, k - 1);
    }
}

/// Those among some users for whom there is something to do, in their order.
pub open spec fn concerned_among(
    purpose: Purpose,
    included: Seq<u64>,
    targets: Seq<u64>,
) -> Seq<u64>
    decreases targets.len(),
{
    if targets.len() == 0 {
        Seq::empty()
    } else {
        let before = concerned_among(purpose, included, targets.drop_last());
        if is_concerned(purpose, included, targets.last()) {
            before.push(targets.last())
        } else {
            before
        }
    }
}

/// Whoever is passed over on the way to the next user is not concerned.
proof fn lemma_nobody_is_passed_over(
    purpose: Purpose,
    included: Seq<u64>,
    targets: Seq<u64>,
    from: int,
)
    requires
        0 <= from <= targets.len(),
    ensures
        concerned_among(
            purpose,
            included,
            targets.take(next_concerned(purpose, included, targets, from)),
        ) == concerned_among(purpose, included, targets.take(from)),
    decreases targets.len() - from,
{
    if from < targets.len() && !is_concerned(purpose, included, targets[from]) {
        lemma_nobody_is_passed_over(purpose, included, targets, from + 1);
        assert(targets.take(from + 1).drop_last() =~= targets.take(from));
    }
}

/// Whether what came back for the user that a command was dealing with is what it asked for.
pub open spec fn goes_well(command: MemberCommand, event: Event) -> bool {
    match command.state {
        MemberState::FindTarget { .. } => event is Member && event->Member_0 is Some,
        MemberState::Grant { .. } => event is Done,
        MemberState::Revoke { .. } => event is Done,
        _ => true,
    }
}

/// Whether a command in this state deals with the users that it names, or has done so.
pub open spec fn is_dealing(state: MemberState) -> bool {
    match state {
        MemberState::FindTarget { .. } => true,
        MemberState::Grant { .. } => true,
        MemberState::Revoke { .. } => true,
        MemberState::Report => true,
        MemberState::Update => true,
        MemberState::Refuse(MemberRefusal::NothingChanged) => true,
        _ => false,
    }
}

/// Where nothing goes wrong, a command is carried out for all those named whom it concerns, in
/// their order: for all who did not take part where it adds members, and for all who did where it
/// removes them.
pub proof fn law_all_the_concerned_are_dealt_with(
    run: Seq<MemberCommand>,
    events: Seq<Event>,
    k: int,
)
    requires
        is_run(run, events),
        run[0].state == MemberState::Defer,
        run[0].processed@.len() == 0,
        0 <= k < run.len(),
        forall|i: int| 0 <= i < k ==> goes_well(run[i], #[trigger] events[i]),
        is_dealing(run[k].state),
    ensures
        run[k].processed@ == concerned_among(
            purpose_of(run[k].option),
            run[k].included@,
            run[k].targets@.take(place(run[k])),
        ),
    decreases k,
{
    let before = run[k - 1];
    let after = run[k];
    assert(member_step(before, events[k - 1], after));
    assert(goes_well(before, events[k - 1]));
    law_commands_stay_fair(run, events, k - 1);
    let purpose = purpose_of(before.option);
    let targets = before.targets@;
    assert(before.targets.len() == before.targets@.len());
    if before.state is FetchRoles {
        lemma_nothing_processed_at_first(run, events, k - 1);
        lemma_nobody_is_passed_over(purpose, before.included@, targets, 0);
        lemma_next_concerned(purpose, before.included@, targets, 0);
        assert(targets.take(0) =~= Seq::empty());
        assert(before.processed@ =~= Seq::empty());
    } else {
        law_all_the_concerned_are_dealt_with(run, events, k - 1);
        if before.state is Grant || before.state is Revoke {
            let at = place(before);
            lemma_nobody_is_passed_over(purpose, before.included@, targets, at + 1);
            lemma_next_concerned(purpose, before.included@, targets, at + 1);
            assert(targets.take(at + 1).drop_last() =~= targets.take(at));
        }
    }
}

/// The role that a command hands out or takes back.
pub open spec fn role_in_use(state: MemberState) -> Option<u64> {
    match state {
        MemberState::FindTarget { role_id, index: _ } => Some(role_id),
        MemberState::Grant { role_id, index: _ } => Some(role_id),
        MemberState::Revoke { role_id, index: _ } => Some(role_id),
        _ => None,
    }
}

/// The role that a command hands out or takes back is one of the server that bears the name of the
/// project, as it was when the roles were fetched.
pub proof fn law_the_role_is_that_of_the_project(
    run: Seq<MemberCommand>,
    events: Seq<Event>,
    k: int,
)
    requires
        is_run(run, events),
        run[0].state == MemberState::Defer,
        0 <= k < run.len(),
        role_in_use(run[k].state) is Some,
    ensures
        exists|i: int|
            0 <= i < k && (#[trigger] events[i]) is Roles && first_role_named(
                events[i]->Roles_0@,
                run[i].project->0.name@,
            ) == role_in_use(run[k].state),
        exists|i: int, j: int|
            0 <= i < k && (#[trigger] events[i]) is Roles && 0 <= j < events[i]->Roles_0@.len() && (
            #[trigger] events[i]->Roles_0@[j]).id == role_in_use(run[k].state)->0
                && events[i]->Roles_0@[j].name@ == run[i].project->0.name@ && forall|m: int|
                0 <= m < j ==> (#[trigger] events[i]->Roles_0@[m]).name@ != run[i].project->0.name@,
    decreases k,
{
    assert(member_step(run[k - 1], events[k - 1], run[k]));
    if role_in_use(run[k - 1].state) is Some {
        law_the_role_is_that_of_the_project(run, events, k - 1);
    } else {
        assert(run[k - 1].state is FetchRoles);
        assert(events[k - 1] is Roles);
        let roles = events[k - 1]->Roles_0@;
        let name = run[k - 1].project->0.name@;
        law_the_first_role_of_a_name(roles, name);
        let j = choose|j: int|
            0 <= j < roles.len() && (#[trigger] roles[j]).id == role_in_use(run[k].state)->0
                && roles[j].name@ == name && forall|m: int|
                0 <= m < j ==> (#[trigger] roles[m]).name@ != name;
        assert(events[k - 1]->Roles_0@[j].id == role_in_use(run[k].state)->0);
    }
}

/// The users for whom there is something to do are those who are named and concerned.
proof fn lemma_concerned_among(purpose: Purpose, included: Seq<u64>, targets: Seq<u64>, place: int)
    requires
        0 <= place < targets.len(),
        is_concerned(purpose, included, targets[place]),
    ensures
        concerned_among(purpose, included, targets).contains(targets[place]),
    decreases targets.len(),
{
    let fewer = targets.drop_last();
    let before = concerned_among(purpose, included, fewer);
    let after = concerned_among(purpose, included, targets);
    if place < fewer.len() {
        lemma_concerned_among(purpose, included, fewer, place);
        let j = choose|j: int| 0 <= j < before.len() && before[j] == fewer[place];
        assert(after[j] == targets[place]);
    } else {
        assert(after[after.len() - 1] == targets[place]);
    }
}

/// Whoever was entered takes part in the project, where all Discord ids of the project can be read.
proof fn lemma_the_entered_are_included(
    project: ProjectView,
    before: Seq<MemberView>,
    names: Seq<Seq<char>>,
    user_ids: Seq<u64>,
    i: int,
)
    requires
        is_readable(project),
        project.participants == before + new_members(names, user_ids),
        0 <= i < user_ids.len(),
    ensures
        included_in(project).contains(user_ids[i]),
{
    let place = before.len() + i;
    let user_id = user_ids[i];
    assert(project.participants[place] == new_member(names[i], user_id));
    lemma_decimal_denotes(user_id as nat);
    if user_id != 0 {
        law_discord_id_round_trip(user_id);
    } else {
        let text = decimal(0);
        assert(is_digit(text[0]));
        assert(after_plus(text) == text);
    }
    assert(included_in(project)[place + 1] == user_id);
}

/// Removing undoes adding, for all users that the two commands name: where a command to add members
/// and then, on the project that it left, a command to remove them name the same users, and all
/// goes well with the second, the project is again what it was before the first, in every field and
/// with those who took part in their order. Nobody who took part before may have been entered under
/// the id of a user who is named.
pub proof fn law_removing_undoes_adding_for_all(
    adding: Seq<MemberCommand>,
    adding_events: Seq<Event>,
    adding_at: int,
    found: Project,
    a: int,
    removing: Seq<MemberCommand>,
    removing_events: Seq<Event>,
    removing_at: int,
    changed: Project,
    r: int,
)
    requires
        is_run(adding, adding_events),
        adding[0].state == MemberState::Defer,
        adding[0].processed@.len() == 0,
        purpose_of(adding[0].option) == Purpose::Add,
        0 <= adding_at < adding_events.len(),
        adding[adding_at].state is FindProject,
        adding_events[adding_at] == Event::Project(Some(found)),
        adding_at < a < adding.len(),
        is_run(removing, removing_events),
        removing[0].state == MemberState::Defer,
        removing[0].processed@.len() == 0,
        purpose_of(removing[0].option) == Purpose::Remove,
        0 <= removing_at < removing_events.len(),
        removing[removing_at].state is FindProject,
        removing_events[removing_at] == Event::Project(Some(changed)),
        removing_at < r < removing.len(),
        optional_view(adding[a].project) == Some(changed@),
        is_readable(changed@),
        arguments(removing[0].option->0) == arguments(adding[0].option->0),
        forall|i: int| 0 <= i < r ==> goes_well(removing[i], #[trigger] removing_events[i]),
        removing[r].state is Report || removing[r].state is Update || removing[r].state
            == MemberState::Refuse(MemberRefusal::NothingChanged),
        forall|i: int, j: int|
            0 <= i < found@.participants.len() && 0 <= j < users_among(
                arguments(adding[0].option->0),
            ).len() ==> (#[trigger] found@.participants[i]).discord_id != decimal(
                (#[trigger] users_among(arguments(adding[0].option->0))[j]) as nat,
            ),
    ensures
        optional_view(removing[r].project) == Some(found@),
{
    let targets = users_among(arguments(adding[0].option->0));
    lemma_origin_stays(adding, adding_events, adding_at);
    lemma_origin_stays(adding, adding_events, a);
    lemma_origin_stays(removing, removing_events, removing_at);
    lemma_origin_stays(removing, removing_events, r);
    lemma_people_stay(adding, adding_events, adding_at, found, a);
    lemma_people_stay(removing, removing_events, removing_at, changed, r);
    law_commands_stay_fair(adding, adding_events, a);
    law_commands_stay_fair(removing, removing_events, r);
    law_the_project_follows_the_roles(adding, adding_events, adding_at, found, a);
    law_the_project_follows_the_roles(removing, removing_events, removing_at, changed, r);
    law_all_the_concerned_are_dealt_with(removing, removing_events, r);
    let names = names_found(adding, adding_events, a);
    let added = adding[a].processed@;
    let removed = removing[r].processed@;
    assert(targets.take(targets.len() as int) =~= targets);
    assert(removed == concerned_among(Purpose::Remove, included_in(changed@), targets));
    assert forall|i: int| 0 <= i < added.len() implies removed.contains(#[trigger] added[i]) by {
        assert(comes_before(targets, place(adding[a]), added[i]));
        let j = choose|j: int|
            0 <= j < place(adding[a]) && j < targets.len() && #[trigger] targets[j] == added[i];
        lemma_the_entered_are_included(changed@, found@.participants, names, added, i);
        lemma_concerned_among(Purpose::Remove, included_in(changed@), targets, j);
    }
    assert forall|i: int, j: int|
        0 <= i < found@.participants.len() && 0 <= j < removed.len() implies (
    #[trigger] found@.participants[i]).discord_id != decimal((#[trigger] removed[j]) as nat) by {
        assert(comes_before(targets, place(removing[r]), removed[j]));
        let t = choose|t: int|
            0 <= t < place(removing[r]) && t < targets.len() && #[trigger] targets[t]
                == removed[j];
        assert(found@.participants[i].discord_id != decimal(targets[t] as nat));
    }
    law_removing_more_undoes_adding(found@.participants, names, added, removed);
}

} // verus!
