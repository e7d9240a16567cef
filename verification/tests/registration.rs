use project_bot::commands::dispatch::{find_command, KnownCommand};
use project_bot::commands::member::register::register_member_command;
use project_bot::commands::project::register::register_project_command;
use serde_json::Value;

fn texts(options: &Value, key: &str) -> Vec<String> {
    options.as_array().unwrap().iter().map(|o| o[key].as_str().unwrap().to_string()).collect()
}

#[test]
fn the_project_command_is_registered() {
    let command = serde_json::to_value(register_project_command()).unwrap();
    assert_eq!(command["name"], "project");
    assert_eq!(command["description"], "프로젝트 관련 명령어");
    assert_eq!(command["dm_permission"], false);
    assert_eq!(command["default_member_permissions"], "16");
    let options = &command["options"];
    assert_eq!(texts(options, "name"), vec!["generate", "rename", "delete"]);
    assert_eq!(
        texts(options, "description"),
        vec![
            "새 프로젝트를 생성합니다.",
            "프로젝트 이름을 변경합니다.",
            "프로젝트를 완전히 삭제합니다."
        ]
    );
    for option in options.as_array().unwrap() {
        assert_eq!(option["type"], 1);
        assert_eq!(option["required"], false);
    }
    let name = &options[0]["options"];
    assert_eq!(texts(name, "name"), vec!["name"]);
    assert_eq!(texts(name, "description"), vec!["생성할 프로젝트 이름"]);
    assert_eq!(name[0]["type"], 3);
    assert_eq!(name[0]["required"], true);
    let new_name = &options[1]["options"];
    assert_eq!(texts(new_name, "name"), vec!["new_name"]);
    assert_eq!(texts(new_name, "description"), vec!["변경할 새 프로젝트 이름"]);
    assert_eq!(new_name[0]["type"], 3);
    assert_eq!(new_name[0]["required"], true);
    assert_eq!(options[2]["options"].as_array().map_or(0, |o| o.len()), 0);
}

#[test]
fn the_member_command_is_registered() {
    let command = serde_json::to_value(register_member_command()).unwrap();
    assert_eq!(command["name"], "member");
    assert_eq!(command["description"], "프로젝트 멤버를 관리하는 명령어입니다.");
    assert_eq!(command["dm_permission"], false);
    assert!(command["default_member_permissions"].is_null());
    let options = &command["options"];
    assert_eq!(texts(options, "name"), vec!["list", "add", "remove"]);
    assert_eq!(
        texts(options, "description"),
        vec![
            "현재 프로젝트에 참여 중인 인원 목록을 확인합니다.",
            "프로젝트에 새 멤버를 추가하고 역할을 부여합니다.",
            "프로젝트에서 멤버를 내보내고 역할을 회수합니다."
        ]
    );
    for (index, verb) in [(1, "추가할"), (2, "내보낼")] {
        let users = &options[index]["options"];
        assert_eq!(texts(users, "name"), vec!["user1", "user2", "user3"]);
        assert_eq!(
            texts(users, "description"),
            vec![
                format!("{} 첫 번째 유저", verb),
                format!("{} 두 번째 유저 (선택)", verb),
                format!("{} 세 번째 유저 (선택)", verb)
            ]
        );
        for place in 0..3 {
            assert_eq!(users[place]["type"], 6);
            assert_eq!(users[place]["required"], place == 0);
        }
    }
}

#[test]
fn commands_are_found_by_their_names() {
    assert_eq!(find_command("help"), KnownCommand::Help);
    assert_eq!(find_command("project"), KnownCommand::Project);
    assert_eq!(find_command("member"), KnownCommand::Member);
    assert_eq!(find_command("Member"), KnownCommand::Unknown);
    assert_eq!(find_command(""), KnownCommand::Unknown);
}

#[test]
fn registered_commands_are_known() {
    let project = serde_json::to_value(register_project_command()).unwrap();
    let member = serde_json::to_value(register_member_command()).unwrap();
    assert_eq!(find_command(project["name"].as_str().unwrap()), KnownCommand::Project);
    assert_eq!(find_command(member["name"].as_str().unwrap()), KnownCommand::Member);
}
