use project_bot::commands::action::Action;
use project_bot::commands::event::Event;
use project_bot::commands::guild::{Guild, GuildRole};
use project_bot::commands::member::action::next_action;
use project_bot::commands::member::message::MemberRefusal;
use project_bot::commands::member::roster::{
    add_participant, extract_target_user_ids, included_members, is_project_pm, remove_participant,
};
use project_bot::commands::member::state::{MemberCommand, MemberState};
use project_bot::commands::member::step::run_member_command;
use project_bot::commands::option::{CommandOption, OptionValue};
use project_bot::integration::notion::member::NotionMember;
use project_bot::integration::notion::project::Project;
use std::collections::HashMap;

const GUILD: u64 = 100;
const USER: u64 = 7;
const CATEGORY: u64 = 60;

fn member(name: &str, discord_id: &str) -> NotionMember {
    NotionMember {
        id: format!("id-{}", name),
        name: name.to_string(),
        discord_id: discord_id.to_string(),
    }
}

fn project() -> Project {
    Project {
        id: "page-1".to_string(),
        name: "alpha".to_string(),
        pm: member("pm", "7"),
        participants: vec![member("a", "11"), member("b", "12")],
        ..Default::default()
    }
}

fn subcommand(name: &str, user_ids: &[u64]) -> CommandOption {
    let mut options = vec![];
    for (index, user_id) in user_ids.iter().enumerate() {
        options.push(CommandOption {
            name: format!("user{}", index + 1),
            value: OptionValue::User(*user_id),
        });
    }
    CommandOption { name: name.to_string(), value: OptionValue::SubCommand(options) }
}

fn command(name: &str, user_ids: &[u64]) -> MemberCommand {
    MemberCommand::new(Some(GUILD), USER, Some(vec![1]), Some(subcommand(name, user_ids)))
}

fn step(command: &mut MemberCommand, event: Event) -> Action {
    run_member_command(command, event);
    next_action(command)
}

fn failed() -> Event {
    Event::Failed("boom".to_string())
}

fn guild(owner_id: u64) -> Event {
    Event::Guild(Guild { owner_id, role_permissions: HashMap::new() })
}

fn roles(names: &[(u64, &str)]) -> Event {
    let mut roles = vec![];
    for (id, name) in names {
        roles.push(GuildRole { id: *id, name: name.to_string() });
    }
    Event::Roles(roles)
}

fn reply(action: Action) -> String {
    match action {
        Action::Reply { text } => text,
        _ => panic!("there is no answer"),
    }
}

/// Takes a command to the point where its project has been found.
fn up_to_project(command: &mut MemberCommand) -> Action {
    step(command, Event::Done);
    step(command, Event::Category(Some(CATEGORY)));
    step(command, Event::ChannelName(Some("alpha".to_string())));
    step(command, Event::Project(Some(project())))
}

/// Takes a command to the point where it deals with the first user.
fn up_to_targets(command: &mut MemberCommand) -> Action {
    up_to_project(command);
    step(command, failed());
    step(command, Event::Manager(true));
    step(command, roles(&[(1, "ALPHA"), (2, "alpha")]))
}

#[test]
fn member_commands_are_deferred_first() {
    let mut command = command("list", &[]);
    assert!(matches!(next_action(&command), Action::Defer));
    assert!(matches!(step(&mut command, failed()), Action::Fail));
    assert!(matches!(step(&mut command, Event::Done), Action::Fail));
}

#[test]
fn member_commands_belong_into_a_server() {
    let mut command = MemberCommand::new(None, USER, None, Some(subcommand("list", &[])));
    let text = reply(step(&mut command, Event::Done));
    assert_eq!(text, "❌ 이 명령어는 서버 안에서만 사용 가능합니다.");
    assert!(matches!(step(&mut command, failed()), Action::Fail));
}

#[test]
fn member_commands_belong_into_a_category() {
    for event in [Event::Category(None), failed()] {
        let mut command = command("list", &[]);
        assert!(matches!(step(&mut command, Event::Done), Action::LocateCategory));
        let text = reply(step(&mut command, event));
        assert_eq!(text, "❌ 이 명령어는 프로젝트 카테고리 내부 채널에서만 사용 가능합니다.");
        assert!(matches!(step(&mut command, failed()), Action::Stop));
    }
}

#[test]
fn member_commands_need_a_subcommand() {
    let mut command = MemberCommand::new(Some(GUILD), USER, None, None);
    step(&mut command, Event::Done);
    let text = reply(step(&mut command, Event::Category(Some(CATEGORY))));
    assert_eq!(text, "⚠️ 올바른 하위 명령어를 선택해주세요.");
    assert!(matches!(step(&mut command, failed()), Action::Fail));
}

#[test]
fn the_project_is_found_by_the_name_of_the_category() {
    let mut command = command("list", &[]);
    step(&mut command, Event::Done);
    let action = step(&mut command, Event::Category(Some(CATEGORY)));
    assert!(matches!(action, Action::FetchChannelName { channel_id: CATEGORY }));
    match step(&mut command, Event::ChannelName(Some("alpha".to_string()))) {
        Action::FindProject { name } => assert_eq!(name, "alpha"),
        _ => panic!("the project is not looked for"),
    }
    assert!(matches!(step(&mut command, Event::Project(None)), Action::Stop));
}

#[test]
fn a_category_that_cannot_be_fetched_breaks_the_command_off() {
    let mut command = command("list", &[]);
    step(&mut command, Event::Done);
    step(&mut command, Event::Category(Some(CATEGORY)));
    assert!(matches!(step(&mut command, failed()), Action::Fail));
}

#[test]
fn everyone_who_is_found_is_listed() {
    let mut command = command("list", &[]);
    assert!(matches!(up_to_project(&mut command), Action::FindMember { user_id: 7 }));
    let action = step(&mut command, Event::Member(Some(member("관리자", "7"))));
    assert!(matches!(action, Action::FindMember { user_id: 11 }));
    let action = step(&mut command, Event::Member(None));
    assert!(matches!(action, Action::FindMember { user_id: 12 }));
    let text = reply(step(&mut command, Event::Member(Some(member("b", "12")))));
    assert_eq!(text, "📌 **'alpha' 프로젝트 참여 인원 명단**\n• 관리자\n• b\n");
    assert!(matches!(step(&mut command, Event::Done), Action::Stop));
}

#[test]
fn a_list_that_cannot_be_shown_breaks_the_command_off() {
    let mut command = command("list", &[]);
    up_to_project(&mut command);
    for _ in 0..3 {
        step(&mut command, Event::Member(None));
    }
    assert_eq!(command.state, MemberState::ShowList);
    assert!(matches!(step(&mut command, failed()), Action::Fail));
}

#[test]
fn other_commands_change_nothing() {
    let mut command = command("promote", &[11]);
    assert!(matches!(up_to_project(&mut command), Action::Stop));
}

#[test]
fn members_are_added() {
    let mut command = command("add", &[11, 20, 21]);
    assert!(matches!(up_to_project(&mut command), Action::FetchGuild));
    let action = step(&mut command, guild(USER));
    assert!(matches!(action, Action::CheckManager { category_id: CATEGORY }));
    assert!(matches!(step(&mut command, Event::Manager(false)), Action::FetchRoles));
    let action = step(&mut command, roles(&[(1, "ALPHA"), (2, "alpha")]));
    assert!(matches!(action, Action::FindMember { user_id: 20 }));
    let action = step(&mut command, Event::Member(Some(member("c", "20"))));
    assert!(matches!(action, Action::GrantRole { user_id: 20, role_id: 2 }));
    let action = step(&mut command, Event::Done);
    assert!(matches!(action, Action::FindMember { user_id: 21 }));
    step(&mut command, Event::Member(Some(member("d", "21"))));
    let text = reply(step(&mut command, Event::Done));
    assert_eq!(text, "✅ <@20>, <@21> 님이 'alpha' 프로젝트 멤버로 추가되었습니다!");
    match step(&mut command, Event::Done) {
        Action::UpdateProject { project_id, project } => {
            assert_eq!(project_id, "page-1");
            let ids: Vec<&str> = project.participants.iter().map(|m| m.id.as_str()).collect();
            assert_eq!(ids, vec!["id-a", "id-b", "", ""]);
        }
        _ => panic!("Notion is not told"),
    }
    assert!(matches!(step(&mut command, failed()), Action::Stop));
    assert_eq!(command.processed, vec![20, 21]);
    let participants = command.project.unwrap().participants;
    assert_eq!(participants[2].name, "c");
    assert_eq!(participants[2].discord_id, "20");
    assert_eq!(participants[3].name, "d");
}

#[test]
fn only_those_who_got_the_role_are_added() {
    let mut command = command("add", &[20, 21, 22]);
    up_to_targets(&mut command);
    let action = step(&mut command, Event::Member(None));
    assert!(matches!(action, Action::FindMember { user_id: 21 }));
    step(&mut command, Event::Member(Some(member("c", "21"))));
    let action = step(&mut command, failed());
    assert!(matches!(action, Action::FindMember { user_id: 22 }));
    step(&mut command, Event::Member(Some(member("d", "22"))));
    let text = reply(step(&mut command, Event::Done));
    assert_eq!(text, "✅ <@22> 님이 'alpha' 프로젝트 멤버로 추가되었습니다!");
    let names: Vec<String> =
        command.project.unwrap().participants.into_iter().map(|m| m.name).collect();
    assert_eq!(names, vec!["a", "b", "d"]);
}

#[test]
fn members_are_removed() {
    let mut command = command("remove", &[12, 20, 7]);
    let action = up_to_targets(&mut command);
    assert!(matches!(action, Action::RevokeRole { user_id: 12, role_id: 2 }));
    let action = step(&mut command, Event::Done);
    assert!(matches!(action, Action::RevokeRole { user_id: 7, role_id: 2 }));
    let text = reply(step(&mut command, Event::Done));
    assert_eq!(text, "🗑️ <@12>, <@7> 님이 'alpha' 프로젝트 멤버에서 제외되었습니다.");
    assert!(matches!(step(&mut command, Event::Done), Action::UpdateProject { .. }));
    let left = command.project.unwrap();
    assert_eq!(left.participants.len(), 1);
    assert_eq!(left.participants[0].name, "a");
    assert_eq!(left.pm.name, "pm");
}

#[test]
fn all_who_are_concerned_are_dealt_with_once() {
    let mut add = command("add", &[20, 11, 21]);
    up_to_targets(&mut add);
    for name in ["c", "d"] {
        step(&mut add, Event::Member(Some(member(name, "1"))));
        step(&mut add, Event::Done);
    }
    assert_eq!(add.state, MemberState::Report);
    assert_eq!(add.processed, vec![20, 21]);

    let mut remove = command("remove", &[20, 12, 11]);
    up_to_targets(&mut remove);
    step(&mut remove, Event::Done);
    step(&mut remove, Event::Done);
    assert_eq!(remove.state, MemberState::Report);
    assert_eq!(remove.processed, vec![12, 11]);
}

#[test]
fn a_report_that_is_not_delivered_keeps_notion_as_it_is() {
    let mut command = command("remove", &[12]);
    up_to_targets(&mut command);
    step(&mut command, Event::Done);
    assert!(matches!(step(&mut command, failed()), Action::Stop));
}

#[test]
fn nothing_is_written_where_nothing_changed() {
    let said = "❌ 변동 사항이 없거나 작업 가능한 대상 유저가 없습니다.";
    for (name, user_id) in [("add", 11), ("remove", 20)] {
        let mut command = command(name, &[user_id]);
        assert_eq!(reply(up_to_targets(&mut command)), said);
        assert!(matches!(step(&mut command, failed()), Action::Stop));
    }
    let mut command = command("remove", &[11]);
    up_to_targets(&mut command);
    assert_eq!(reply(step(&mut command, failed())), said);
    assert_eq!(command.project.unwrap().participants.len(), 2);
}

#[test]
fn only_managers_and_administrators_change_members() {
    for (server, manager, allowed) in [
        (guild(8), Event::Manager(false), false),
        (failed(), failed(), false),
        (guild(USER), Event::Manager(false), true),
        (guild(8), Event::Manager(true), true),
    ] {
        let mut command = command("add", &[20]);
        up_to_project(&mut command);
        step(&mut command, server);
        let action = step(&mut command, manager);
        if allowed {
            assert!(matches!(action, Action::FetchRoles));
        } else {
            assert_eq!(
                reply(action),
                "❌ 이 명령어를 사용할 권한이 없습니다. (PM 혹은 관리자만 가능)"
            );
            assert!(matches!(step(&mut command, failed()), Action::Stop));
        }
    }
}

#[test]
fn the_role_of_a_project_has_its_exact_name() {
    for event in [roles(&[(1, "ALPHA")]), roles(&[]), failed()] {
        let mut command = command("add", &[20]);
        up_to_project(&mut command);
        step(&mut command, guild(USER));
        step(&mut command, Event::Manager(false));
        assert_eq!(
            reply(step(&mut command, event)),
            "❌ 서버에서 'alpha' 프로젝트에 해당하는 역할을 찾을 수 없습니다."
        );
        assert_eq!(command.state, MemberState::Refuse(MemberRefusal::NoRole));
        assert!(matches!(step(&mut command, failed()), Action::Stop));
    }
}

#[test]
fn every_member_command_ends() {
    for name in ["list", "add", "remove", "other"] {
        let mut command = command(name, &[11, 20, 12]);
        up_to_project(&mut command);
        for _ in 0..20 {
            step(&mut command, Event::Done);
        }
        assert!(matches!(command.state, MemberState::Finished | MemberState::Failed));
    }
}

#[test]
fn the_manager_comes_first_among_those_who_take_part() {
    assert_eq!(included_members(&project()), Some(vec![7, 11, 12]));
    let mut unreadable = project();
    unreadable.participants.push(member("c", ""));
    assert_eq!(included_members(&unreadable), None);
    let mut unmanaged = project();
    unmanaged.pm.discord_id = "0".to_string();
    assert_eq!(included_members(&unmanaged), None);
}

#[test]
fn the_manager_is_known_by_their_discord_id() {
    assert!(is_project_pm(&project(), 7));
    assert!(!is_project_pm(&project(), 11));
    let unmanaged = <Project as Default>::default();
    assert!(!is_project_pm(&unmanaged, 0));
}

#[test]
fn the_users_of_a_subcommand_are_taken_in_order() {
    let mut option = subcommand("add", &[3, 1, 2]);
    if let OptionValue::SubCommand(options) = &mut option.value {
        options.insert(
            1,
            CommandOption { name: "note".to_string(), value: OptionValue::Text("5".to_string()) },
        );
    }
    assert_eq!(extract_target_user_ids(&option), vec![3, 1, 2]);
    let flat = CommandOption { name: "add".to_string(), value: OptionValue::User(4) };
    assert!(extract_target_user_ids(&flat).is_empty());
}

#[test]
fn whoever_is_added_takes_part() {
    let mut project = project();
    add_participant(&mut project, "c", 20);
    assert_eq!(included_members(&project), Some(vec![7, 11, 12, 20]));
    assert_eq!(project.participants[2].id, "");
}

#[test]
fn removing_undoes_adding() {
    let before = format!("{:?}", project());
    let mut project = project();
    add_participant(&mut project, "c", 20);
    remove_participant(&mut project, 20);
    assert_eq!(format!("{:?}", project), before);
}

#[test]
fn removing_all_who_were_added_restores_the_project() {
    let before = format!("{:?}", project());
    let mut adding = command("add", &[20, 21, 22]);
    up_to_targets(&mut adding);
    step(&mut adding, Event::Member(Some(member("c", "20"))));
    step(&mut adding, Event::Done);
    step(&mut adding, Event::Member(None));
    step(&mut adding, Event::Member(Some(member("e", "22"))));
    step(&mut adding, Event::Done);
    assert_eq!(adding.processed, vec![20, 22]);
    let changed = adding.project.unwrap();
    assert_eq!(included_members(&changed), Some(vec![7, 11, 12, 20, 22]));

    let mut removing = command("remove", &[20, 21, 22]);
    step(&mut removing, Event::Done);
    step(&mut removing, Event::Category(Some(CATEGORY)));
    step(&mut removing, Event::ChannelName(Some("alpha".to_string())));
    step(&mut removing, Event::Project(Some(changed)));
    step(&mut removing, guild(USER));
    step(&mut removing, Event::Manager(true));
    step(&mut removing, roles(&[(2, "alpha")]));
    step(&mut removing, Event::Done);
    step(&mut removing, Event::Done);
    assert_eq!(removing.state, MemberState::Report);
    assert_eq!(removing.processed, vec![20, 22]);
    assert_eq!(format!("{:?}", removing.project.unwrap()), before);
}

#[test]
fn whoever_is_entered_bears_the_name_that_was_found() {
    let mut command = command("add", &[20, 21]);
    up_to_targets(&mut command);
    step(&mut command, Event::Member(Some(member("c", "20"))));
    step(&mut command, failed());
    step(&mut command, Event::Member(Some(member("d", "21"))));
    step(&mut command, Event::Done);
    let participants = command.project.unwrap().participants;
    assert_eq!(participants.len(), 3);
    assert_eq!(participants[2].name, "d");
    assert_eq!(participants[2].discord_id, "21");
}

#[test]
fn only_the_removed_go() {
    let mut project = project();
    project.participants.push(member("c", "11"));
    remove_participant(&mut project, 11);
    assert_eq!(included_members(&project), Some(vec![7, 12]));
}

#[test]
fn an_id_that_is_written_otherwise_stays() {
    let mut project = project();
    project.participants[0].discord_id = "011".to_string();
    remove_participant(&mut project, 11);
    assert_eq!(included_members(&project), Some(vec![7, 11, 12]));
}
