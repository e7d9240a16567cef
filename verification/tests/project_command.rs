use project_bot::cache::BotCache;
use project_bot::commands::action::Action;
use project_bot::commands::event::Event;
use project_bot::commands::guild::{
    build_permission_overwrites, Guild, GuildChannel, GuildRole, Overwrite,
};
use project_bot::commands::option::{get_string_arg, CommandOption, OptionValue};
use project_bot::commands::project::action::next_action;
use project_bot::commands::project::channel::{find_doomed_channels, ChannelKind, NewChannel};
use project_bot::commands::project::message::Refusal;
use project_bot::commands::project::state::{ProjectCommand, ProjectState};
use project_bot::commands::project::step::run_project_command;
use project_bot::integration::notion::member::NotionMember;
use project_bot::integration::notion::project::{Project, Status};
use std::collections::HashMap;

const GUILD: u64 = 100;
const USER: u64 = 7;
const CHANNEL: u64 = 50;
const CATEGORY: u64 = 60;

fn text_option(name: &str, text: &str) -> CommandOption {
    CommandOption { name: name.to_string(), value: OptionValue::Text(text.to_string()) }
}

fn subcommand(name: &str, arguments: Vec<CommandOption>) -> CommandOption {
    CommandOption { name: name.to_string(), value: OptionValue::SubCommand(arguments) }
}

fn command(option: CommandOption) -> ProjectCommand {
    ProjectCommand::new(Some(GUILD), USER, CHANNEL, Some(vec![1, 2]), Some(option))
}

fn generate(name: &str) -> ProjectCommand {
    command(subcommand("generate", vec![text_option("name", name)]))
}

fn rename(name: &str) -> ProjectCommand {
    command(subcommand("rename", vec![text_option("new_name", name)]))
}

fn delete() -> ProjectCommand {
    command(subcommand("delete", vec![]))
}

fn project(name: &str) -> Project {
    Project {
        id: "page-1".to_string(),
        name: name.to_string(),
        status: Status::Maintenance,
        github: "https://github.com/plus/bot".to_string(),
        pm: NotionMember { id: "m-1".to_string(), ..Default::default() },
        ..Default::default()
    }
}

fn cache_with(names: &[&str]) -> BotCache {
    let mut cache = BotCache::new();
    let projects = names.iter().map(|name| project(name)).collect();
    assert!(cache.refresh_about_project::<()>(Ok(projects)).is_ok());
    cache
}

fn guild(owner_id: u64) -> Event {
    Event::Guild(Guild { owner_id, role_permissions: HashMap::new() })
}

fn step(command: &mut ProjectCommand, event: Event) -> Action {
    run_project_command(command, &cache_with(&[]), event);
    next_action(command)
}

fn failed() -> Event {
    Event::Failed("boom".to_string())
}

fn reply(action: Action) -> String {
    match action {
        Action::Reply { text } => text,
        _ => panic!("there is no answer"),
    }
}

fn channel(action: Action) -> (NewChannel, u64) {
    match action {
        Action::CreateChannel { channel, pause_ms } => (channel, pause_ms),
        _ => panic!("no channel is made"),
    }
}

/// Takes a command to the point where the category of a new project has been asked for.
fn up_to_category(command: &mut ProjectCommand) -> Action {
    step(command, Event::Done);
    step(command, Event::Done);
    step(command, Event::Id(300));
    step(command, Event::Id(200));
    step(command, failed())
}

/// Takes a renaming to the point where the project is looked for.
fn up_to_renaming(command: &mut ProjectCommand, old_name: Option<&str>) -> Action {
    step(command, Event::Done);
    step(command, Event::Category(Some(CATEGORY)));
    step(command, Event::Manager(true));
    step(command, Event::ChannelName(old_name.map(|name| name.to_string())))
}

/// Takes a deletion to the point where the channels are asked for.
fn up_to_channels(command: &mut ProjectCommand, name: Option<&str>) -> Action {
    step(command, Event::Done);
    step(command, guild(USER));
    step(command, Event::Category(Some(CATEGORY)));
    step(command, Event::ChannelName(name.map(|name| name.to_string())));
    step(command, Event::Done)
}

#[test]
fn a_command_is_deferred_first() {
    let mut command = generate("alpha");
    assert!(matches!(next_action(&command), Action::Defer));
    assert!(matches!(step(&mut command, failed()), Action::Fail));
    assert_eq!(command.state, ProjectState::Failed);
}

#[test]
fn text_arguments_are_found_by_name() {
    let option = subcommand(
        "generate",
        vec![
            CommandOption { name: "other".to_string(), value: OptionValue::User(3) },
            text_option("name", "alpha"),
            text_option("name", "beta"),
        ],
    );
    assert_eq!(get_string_arg(&option, "name"), Some("alpha".to_string()));
    assert_eq!(get_string_arg(&option, "other"), None);
    assert_eq!(get_string_arg(&option, "new_name"), None);
    assert_eq!(get_string_arg(&text_option("name", "alpha"), "name"), None);
}

#[test]
fn commands_belong_into_a_server() {
    let option = subcommand("generate", vec![text_option("name", "alpha")]);
    let mut command = ProjectCommand::new(None, USER, CHANNEL, None, Some(option));
    let text = reply(step(&mut command, Event::Done));
    assert_eq!(text, "❌ 이 명령어는 서버 안에서만 사용 가능합니다.");
    assert!(matches!(step(&mut command, Event::Done), Action::Stop));
    assert!(matches!(step(&mut command, Event::Done), Action::Stop));
}

#[test]
fn a_subcommand_is_needed() {
    let mut command = ProjectCommand::new(Some(GUILD), USER, CHANNEL, None, None);
    let text = reply(step(&mut command, Event::Done));
    assert_eq!(text, "❌ 올바른 하위 명령어를 선택해주세요.");
    assert!(matches!(step(&mut command, failed()), Action::Fail));
}

#[test]
fn unknown_subcommands_are_passed_over() {
    let mut command = command(subcommand("archive", vec![]));
    assert!(matches!(step(&mut command, Event::Done), Action::Stop));
}

#[test]
fn registered_subcommands_are_taken_up() {
    for mut command in [generate("alpha"), rename("beta"), delete()] {
        let action = step(&mut command, Event::Done);
        assert!(!matches!(action, Action::Stop | Action::Fail));
    }
}

#[test]
fn a_new_project_needs_a_name() {
    let mut command = command(subcommand("generate", vec![]));
    let text = reply(step(&mut command, Event::Done));
    assert_eq!(text, "⚠️ 생성할 프로젝트 이름을 제대로 입력해주세요.");
}

#[test]
fn a_renaming_needs_a_name() {
    let mut command = command(subcommand("rename", vec![text_option("name", "beta")]));
    let text = reply(step(&mut command, Event::Done));
    assert_eq!(text, "⚠️ 변경할 새 이름을 입력해주세요.");
}

#[test]
fn new_names_are_free() {
    let cache = cache_with(&["alpha"]);
    let mut command = generate("alpha");
    run_project_command(&mut command, &cache, Event::Done);
    assert_eq!(command.state, ProjectState::Refuse(Refusal::NameTaken));
    let text = reply(next_action(&command));
    assert_eq!(text, "❌ 이미 'alpha' 이름의 프로젝트가 존재합니다.");
    assert!(matches!(step(&mut command, failed()), Action::Stop));

    let mut command = rename("alpha");
    step(&mut command, Event::Done);
    step(&mut command, Event::Category(Some(CATEGORY)));
    step(&mut command, Event::Manager(true));
    run_project_command(&mut command, &cache, Event::ChannelName(Some("beta".to_string())));
    assert_eq!(command.state, ProjectState::Refuse(Refusal::NameTaken));

    let mut command = generate("beta");
    run_project_command(&mut command, &cache, Event::Done);
    assert!(matches!(command.state, ProjectState::Generate(_)));
}

#[test]
fn a_project_is_set_up() {
    let mut command = generate("alpha");
    let text = reply(step(&mut command, Event::Done));
    assert_eq!(text, "🏗️ 'alpha' 프로젝트 생성을 시작합니다. 세팅 중...");
    assert!(matches!(step(&mut command, Event::Done), Action::FetchBot));
    match step(&mut command, Event::Id(300)) {
        Action::CreateRole { name } => assert_eq!(name, "alpha"),
        _ => panic!("no role is made"),
    }
    let action = step(&mut command, Event::Id(200));
    assert!(matches!(action, Action::GrantRole { user_id: USER, role_id: 200 }));
    let overwrites = build_permission_overwrites(GUILD, 200, 300, USER);
    let (category, pause) = channel(step(&mut command, Event::Done));
    assert_eq!(category.name, "alpha");
    assert_eq!(category.kind, ChannelKind::Category);
    assert_eq!(category.category_id, None);
    assert_eq!(
        category.overwrites,
        Some(vec![overwrites.deny_everyone, overwrites.allow_project, overwrites.allow_bot])
    );
    assert_eq!(pause, 0);
    let mut action = step(&mut command, Event::Id(CATEGORY));
    for _ in 0..9 {
        channel(action);
        action = step(&mut command, Event::Id(1));
    }
    assert_eq!(reply(action), "🚀 <@7> 님, 프로젝트 서버 세팅이 완료되었습니다!");
    let action = step(&mut command, Event::Done);
    assert!(matches!(action, Action::FindMember { user_id: USER }));
    let manager = NotionMember { id: "m-7".to_string(), ..Default::default() };
    match step(&mut command, Event::Member(Some(manager))) {
        Action::EnterProject { project } => {
            assert_eq!(project.name, "alpha");
            assert_eq!(project.pm.id, "m-7");
            assert_eq!(project.category_id, "60");
            assert_eq!(project.status, Status::NotStarted);
        }
        _ => panic!("nothing is entered"),
    }
    assert!(matches!(step(&mut command, failed()), Action::Stop));
}

#[test]
fn all_channels_are_made_in_their_order() {
    let mut command = generate("alpha");
    up_to_category(&mut command);
    let overwrites = build_permission_overwrites(GUILD, 200, 300, USER);
    let names = [
        "📜information",
        "🤖bot",
        "🌐dev",
        "🚩issue",
        "✅progress",
        "📢notice",
        "🎡random",
        "🖥️github",
        "🎙️ voice chat",
    ];
    let mut action = step(&mut command, Event::Id(CATEGORY));
    for (index, name) in names.iter().enumerate() {
        let (made, pause) = channel(action);
        assert_eq!(made.name, *name);
        assert_eq!(made.category_id, Some(CATEGORY));
        let kind = if index == 8 { ChannelKind::Voice } else { ChannelKind::Text };
        assert_eq!(made.kind, kind);
        assert_eq!(pause, if index == 8 { 0 } else { 10 });
        let expected: Option<Vec<Overwrite>> = match index {
            0 => Some(vec![
                overwrites.deny_everyone,
                overwrites.readonly_project,
                overwrites.allow_pm,
                overwrites.allow_bot,
            ]),
            7 => Some(vec![
                overwrites.deny_everyone,
                overwrites.readonly_project,
                overwrites.allow_bot,
            ]),
            _ => None,
        };
        assert_eq!(made.overwrites, expected);
        action = step(&mut command, if index % 2 == 0 { failed() } else { Event::Id(1) });
    }
    assert!(matches!(action, Action::Reply { .. }));
}

#[test]
fn the_category_id_of_a_new_project_is_read_back() {
    let mut command = generate("alpha");
    up_to_category(&mut command);
    step(&mut command, Event::Id(u64::MAX));
    for _ in 0..9 {
        step(&mut command, Event::Id(1));
    }
    step(&mut command, Event::Done);
    step(&mut command, Event::Member(None));
    let entered = command.project.unwrap();
    assert_eq!(entered.category_id, "18446744073709551615");
    assert_eq!(entered.category_id.parse::<u64>(), Ok(u64::MAX));
    assert_eq!(entered.pm.id, "");
    assert_eq!(entered.github, "");
}

#[test]
fn setting_up_stops_where_it_cannot_go_on() {
    let mut command = generate("alpha");
    step(&mut command, Event::Done);
    step(&mut command, Event::Done);
    assert_eq!(reply(step(&mut command, failed())), "❌ 봇 정보를 가져오지 못했습니다.");

    let mut command = generate("alpha");
    step(&mut command, Event::Done);
    step(&mut command, Event::Done);
    step(&mut command, Event::Id(300));
    assert_eq!(reply(step(&mut command, failed())), "❌ 역할 생성 실패");
    assert!(matches!(step(&mut command, failed()), Action::Fail));

    let mut command = generate("alpha");
    up_to_category(&mut command);
    assert_eq!(reply(step(&mut command, failed())), "❌ 카테고리 생성 실패");
    assert!(matches!(step(&mut command, Event::Done), Action::Stop));

    let mut command = generate("alpha");
    step(&mut command, Event::Done);
    assert!(matches!(step(&mut command, failed()), Action::Fail));
}

#[test]
fn a_project_is_renamed() {
    let mut command = rename("beta");
    assert!(matches!(step(&mut command, Event::Done), Action::LocateCategory));
    let action = step(&mut command, Event::Category(Some(CATEGORY)));
    assert!(matches!(action, Action::CheckManager { category_id: CATEGORY }));
    let action = step(&mut command, Event::Manager(true));
    assert!(matches!(action, Action::FetchChannelName { channel_id: CATEGORY }));
    match step(&mut command, Event::ChannelName(Some("alpha".to_string()))) {
        Action::FindProject { name } => assert_eq!(name, "alpha"),
        _ => panic!("the project is not looked for"),
    }
    match step(&mut command, Event::Project(Some(project("alpha")))) {
        Action::RenameChannel { channel_id, name } => {
            assert_eq!(channel_id, CATEGORY);
            assert_eq!(name, "beta");
        }
        _ => panic!("the category is not renamed"),
    }
    assert!(matches!(step(&mut command, Event::Done), Action::FetchRoles));
    let roles = vec![
        GuildRole { id: 1, name: "other".to_string() },
        GuildRole { id: 2, name: "ALPHA".to_string() },
    ];
    match step(&mut command, Event::Roles(roles)) {
        Action::RenameRole { role_id, name } => {
            assert_eq!(role_id, 2);
            assert_eq!(name, "beta");
        }
        _ => panic!("the role is not renamed"),
    }
    let text = reply(step(&mut command, Event::Done));
    assert_eq!(text, "📝 프로젝트 카테고리와 역할 이름이 모두 'beta'으로 변경되었습니다.");
    match step(&mut command, Event::Done) {
        Action::UpdateProject { project_id, project } => {
            assert_eq!(project_id, "page-1");
            assert_eq!(project.name, "beta");
            assert_eq!(project.status, Status::Maintenance);
        }
        _ => panic!("Notion is not told"),
    }
    assert!(matches!(step(&mut command, Event::Done), Action::Stop));
}

#[test]
fn renaming_changes_nothing_but_the_name() {
    let mut command = rename("beta");
    up_to_renaming(&mut command, Some("alpha"));
    step(&mut command, Event::Project(Some(project("alpha"))));
    step(&mut command, Event::Done);
    step(&mut command, failed());
    step(&mut command, Event::Done);
    let renamed = command.project.unwrap();
    let expected = Project { name: "beta".to_string(), ..project("alpha") };
    assert_eq!(format!("{:?}", renamed), format!("{:?}", expected));
}

#[test]
fn a_project_is_renamed_without_its_role() {
    let lost = "📝 프로젝트 이름은 'beta'으로 변경되었으나, 동명의 기존 역할을 찾지 못했습니다.";
    for event in [failed(), Event::Roles(vec![])] {
        let mut command = rename("beta");
        up_to_renaming(&mut command, Some("alpha"));
        step(&mut command, Event::Project(Some(project("alpha"))));
        step(&mut command, Event::Done);
        assert_eq!(reply(step(&mut command, event)), lost);
    }
    let mut command = rename("beta");
    up_to_renaming(&mut command, Some("alpha"));
    step(&mut command, Event::Project(Some(project("alpha"))));
    step(&mut command, Event::Done);
    step(&mut command, Event::Roles(vec![GuildRole { id: 2, name: "alpha".to_string() }]));
    assert_eq!(reply(step(&mut command, failed())), lost);

    let mut command = rename("beta");
    up_to_renaming(&mut command, None);
    step(&mut command, Event::Project(Some(project(""))));
    assert_eq!(reply(step(&mut command, Event::Done)), lost);
    assert!(matches!(step(&mut command, failed()), Action::Fail));
}

#[test]
fn a_renaming_says_why_it_failed() {
    let mut command = rename("beta");
    up_to_renaming(&mut command, Some("alpha"));
    step(&mut command, Event::Project(Some(project("alpha"))));
    assert_eq!(reply(step(&mut command, failed())), "❌ 이름 변경 실패: boom");
    assert!(matches!(step(&mut command, Event::Done), Action::Stop));
}

#[test]
fn an_unknown_project_is_not_renamed() {
    let mut command = rename("beta");
    up_to_renaming(&mut command, Some("alpha"));
    assert!(matches!(step(&mut command, Event::Project(None)), Action::Stop));
}

#[test]
fn only_managers_rename() {
    for event in [Event::Manager(false), failed()] {
        let mut command = rename("beta");
        step(&mut command, Event::Done);
        step(&mut command, Event::Category(Some(CATEGORY)));
        assert_eq!(reply(step(&mut command, event)), "❌ 프로젝트 PM만 이름 변경이 가능합니다.");
        assert!(matches!(step(&mut command, failed()), Action::Fail));
    }
}

#[test]
fn projects_are_renamed_from_inside_their_category() {
    let mut command = rename("beta");
    step(&mut command, Event::Done);
    let text = reply(step(&mut command, Event::Category(None)));
    assert_eq!(text, "❌ 프로젝트 카테고리 내부 채널에서 명령어를 입력해주세요.");
    assert!(matches!(step(&mut command, failed()), Action::Stop));
}

#[test]
fn projects_are_deleted_from_inside_their_category() {
    let mut command = delete();
    step(&mut command, Event::Done);
    step(&mut command, guild(USER));
    let text = reply(step(&mut command, Event::Category(None)));
    assert_eq!(text, "❌ 삭제할 프로젝트 카테고리 내부의 채널에서 명령어를 입력해주세요.");
    assert!(matches!(step(&mut command, failed()), Action::Stop));
}

#[test]
fn only_administrators_delete() {
    let mut command = delete();
    assert!(matches!(step(&mut command, Event::Done), Action::FetchGuild));
    assert!(matches!(step(&mut command, guild(8)), Action::LocateCategory));
    let text = reply(step(&mut command, Event::Category(Some(CATEGORY))));
    assert_eq!(text, "❌ 이 명령어는 서버 관리자(ADMINISTRATOR) 권한이 필요합니다.");

    let mut command = delete();
    step(&mut command, Event::Done);
    let mut role_permissions = HashMap::new();
    role_permissions.insert(2, 0x8);
    step(&mut command, Event::Guild(Guild { owner_id: 8, role_permissions }));
    let action = step(&mut command, Event::Category(Some(CATEGORY)));
    assert!(matches!(action, Action::FetchChannelName { channel_id: CATEGORY }));

    let mut command = delete();
    step(&mut command, Event::Done);
    assert!(matches!(step(&mut command, failed()), Action::Fail));

    let option = subcommand("delete", vec![]);
    let mut command = ProjectCommand::new(Some(GUILD), USER, CHANNEL, None, Some(option));
    step(&mut command, Event::Done);
    assert!(matches!(step(&mut command, guild(USER)), Action::Stop));
}

#[test]
fn a_project_is_deleted() {
    let mut command = delete();
    step(&mut command, Event::Done);
    step(&mut command, guild(USER));
    step(&mut command, Event::Category(Some(CATEGORY)));
    let text = reply(step(&mut command, Event::ChannelName(Some("alpha".to_string()))));
    assert_eq!(text, "🧹 프로젝트 채널들과 역할을 완전히 삭제합니다...");
    assert!(matches!(step(&mut command, Event::Done), Action::FetchChannels));
    let channels = vec![GuildChannel { id: CHANNEL, parent_id: Some(CATEGORY) }];
    let action = step(&mut command, Event::Channels(channels));
    assert!(matches!(action, Action::DeleteChannel { channel_id: CHANNEL, pause_ms: 10 }));
    let action = step(&mut command, Event::Done);
    assert!(matches!(action, Action::DeleteChannel { channel_id: CATEGORY, pause_ms: 0 }));
    assert!(matches!(step(&mut command, failed()), Action::FetchRoles));
    let roles = vec![GuildRole { id: 2, name: "Alpha".to_string() }];
    let action = step(&mut command, Event::Roles(roles));
    assert!(matches!(action, Action::DeleteRole { role_id: 2 }));
    match step(&mut command, failed()) {
        Action::FindProjectId { name } => assert_eq!(name, "alpha"),
        _ => panic!("the project is not looked for"),
    }
    match step(&mut command, Event::ProjectId(Some("page-1".to_string()))) {
        Action::TrashProject { project_id } => assert_eq!(project_id, "page-1"),
        _ => panic!("Notion is not told"),
    }
    assert!(matches!(step(&mut command, failed()), Action::Stop));
}

#[test]
fn all_channels_of_a_category_go_and_the_one_of_the_command_last() {
    let mut command = delete();
    up_to_channels(&mut command, Some("alpha"));
    let channels = vec![
        GuildChannel { id: 51, parent_id: Some(CATEGORY) },
        GuildChannel { id: CHANNEL, parent_id: Some(CATEGORY) },
        GuildChannel { id: 52, parent_id: Some(61) },
        GuildChannel { id: 53, parent_id: Some(CATEGORY) },
        GuildChannel { id: CATEGORY, parent_id: None },
    ];
    let mut action = step(&mut command, Event::Channels(channels));
    let mut deleted = vec![];
    for event in [failed(), Event::Done, Event::Done] {
        match action {
            Action::DeleteChannel { channel_id, pause_ms } => {
                assert_eq!(pause_ms, 10);
                deleted.push(channel_id);
            }
            _ => panic!("no channel is deleted"),
        }
        action = step(&mut command, event);
    }
    assert_eq!(deleted, vec![51, 53, CHANNEL]);
    assert!(matches!(action, Action::DeleteChannel { channel_id: CATEGORY, pause_ms: 0 }));
}

#[test]
fn no_channel_is_deleted_twice() {
    let channels = vec![
        GuildChannel { id: 51, parent_id: Some(CATEGORY) },
        GuildChannel { id: CHANNEL, parent_id: Some(61) },
        GuildChannel { id: 52, parent_id: Some(CATEGORY) },
    ];
    assert_eq!(find_doomed_channels(&channels, CATEGORY, CHANNEL), vec![51, 52, CHANNEL]);
    assert_eq!(find_doomed_channels(&vec![], CATEGORY, CHANNEL), vec![CHANNEL]);
}

#[test]
fn only_the_role_of_the_project_is_touched() {
    let mut command = delete();
    up_to_channels(&mut command, Some("alpha"));
    step(&mut command, failed());
    step(&mut command, Event::Done);
    let roles = vec![
        GuildRole { id: 1, name: "alphabet".to_string() },
        GuildRole { id: 2, name: "beta".to_string() },
    ];
    assert!(matches!(step(&mut command, Event::Roles(roles)), Action::FindProjectId { .. }));
}

#[test]
fn a_deletion_goes_on_without_channels_and_roles() {
    let mut command = delete();
    up_to_channels(&mut command, Some("alpha"));
    let action = step(&mut command, failed());
    assert!(matches!(action, Action::DeleteChannel { channel_id: CATEGORY, pause_ms: 0 }));
    step(&mut command, Event::Done);
    assert!(matches!(step(&mut command, failed()), Action::FindProjectId { .. }));
    assert!(matches!(step(&mut command, Event::ProjectId(None)), Action::Stop));

    let mut command = delete();
    up_to_channels(&mut command, None);
    step(&mut command, failed());
    assert!(matches!(step(&mut command, Event::Done), Action::FindProjectId { .. }));

    let mut command = delete();
    step(&mut command, Event::Done);
    step(&mut command, guild(USER));
    step(&mut command, Event::Category(Some(CATEGORY)));
    step(&mut command, failed());
    assert!(matches!(step(&mut command, failed()), Action::Fail));
}

#[test]
fn a_refusal_is_the_last_thing_that_is_said() {
    let mut command = command(subcommand("generate", vec![]));
    step(&mut command, Event::Done);
    assert_eq!(command.state, ProjectState::Refuse(Refusal::NoProjectName));
    step(&mut command, Event::Done);
    assert_eq!(command.state, ProjectState::Finished);
}

#[test]
fn objections_come_before_anything_is_changed() {
    let mut command = delete();
    for event in [Event::Done, guild(8), Event::Category(Some(CATEGORY))] {
        let action = next_action(&command);
        assert!(matches!(action, Action::Defer | Action::FetchGuild | Action::LocateCategory));
        step(&mut command, event);
    }
    assert_eq!(command.state, ProjectState::Refuse(Refusal::NotAdministrator));
}

#[test]
fn preliminaries_only_ask() {
    let mut command = rename("beta");
    for event in
        [Event::Done, Event::Category(Some(CATEGORY)), Event::Manager(true), failed()]
    {
        assert!(matches!(
            next_action(&command),
            Action::Defer
                | Action::LocateCategory
                | Action::CheckManager { .. }
                | Action::FetchChannelName { .. }
        ));
        step(&mut command, event);
    }
    assert!(matches!(command.state, ProjectState::Rename(_)));
}

#[test]
fn every_project_command_ends() {
    for mut command in [generate("alpha"), rename("beta"), delete()] {
        for _ in 0..40 {
            step(&mut command, Event::Done);
        }
        assert!(matches!(command.state, ProjectState::Finished | ProjectState::Failed));
    }
}
