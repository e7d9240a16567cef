use project_bot::integration::notion::member::NotionMember;
use project_bot::integration::notion::project::{Project, Status};
use serde_json::Value;

fn json(text: &str) -> Value {
    serde_json::from_str(text).unwrap()
}

fn member(name: &str) -> NotionMember {
    NotionMember {
        id: format!("id-{}", name),
        name: name.to_string(),
        discord_id: "7".to_string(),
    }
}

#[test]
fn statuses_are_read_from_their_labels() {
    assert_eq!(Status::from("시작 전"), Status::NotStarted);
    assert_eq!(Status::from("진행 중"), Status::InProgress);
    assert_eq!(Status::from("유지보수"), Status::Maintenance);
    assert_eq!(Status::from("완료"), Status::Completed);
    assert_eq!(Status::from(""), Status::NotStarted);
    assert_eq!(Status::from("진행중"), Status::NotStarted);
    assert_eq!(Status::default(), Status::NotStarted);
}

#[test]
fn statuses_are_read_back() {
    for status in
        [Status::NotStarted, Status::InProgress, Status::Maintenance, Status::Completed]
    {
        assert_eq!(Status::from(status.label()), status);
    }
    assert_eq!(Status::Maintenance.label(), "유지보수");
}

#[test]
fn a_new_project_has_placeholders() {
    let project = Project::default();
    assert_eq!(project.id, "");
    assert_eq!(project.name, "");
    assert_eq!(project.status, Status::NotStarted);
    assert_eq!(project.github, "https://github.com/");
    assert_eq!(project.pm.name, "");
    assert!(project.participants.is_empty());
    assert_eq!(project.category_id, "category_id");
}

#[test]
fn the_default_of_a_project_is_empty() {
    let project = <Project as Default>::default();
    assert_eq!(project.github, "");
    assert_eq!(project.category_id, "");
    assert_eq!(project.status, Status::NotStarted);
}

#[test]
fn copies_hold_the_same() {
    let project = Project {
        name: "봇".to_string(),
        participants: vec![member("a"), member("b")],
        ..Default::default()
    };
    let copy = project.clone();
    assert_eq!(format!("{:?}", copy), format!("{:?}", project));
}

#[test]
fn a_page_describes_a_project() {
    let page = json(
        r#"{
            "id": "page-1",
            "properties": {
                "name": { "title": [{ "text": { "content": "플러스봇" } }, { "text": {} }] },
                "status": { "select": { "name": "완료" } },
                "github": { "url": "https://github.com/plus/bot" },
                "PM": { "people": [{ "id": "m-1" }, { "id": "m-9" }] },
                "participants": { "people": [{ "id": "m-2" }, { "object": "user" }, { "id": "m-3" }] },
                "category_id": { "rich_text": [{ "text": { "content": "555" } }] }
            }
        }"#,
    );
    assert_eq!(Project::pm_id(&page), "m-1");
    assert_eq!(Project::participant_ids(&page), vec!["m-2", "", "m-3"]);
    let project = Project::from_value(
        &page,
        Some(member("pm")),
        vec![Some(member("a")), None, Some(member("c"))],
    );
    assert_eq!(project.id, "page-1");
    assert_eq!(project.name, "플러스봇");
    assert_eq!(project.status, Status::Completed);
    assert_eq!(project.github, "https://github.com/plus/bot");
    assert_eq!(project.pm.name, "pm");
    assert_eq!(project.category_id, "555");
    let names: Vec<&str> = project.participants.iter().map(|m| m.name.as_str()).collect();
    assert_eq!(names, vec!["a", "", "c"]);
}

#[test]
fn what_a_page_lacks_is_empty() {
    for text in [
        "{}",
        "null",
        "[1, 2]",
        r#"{ "id": 5, "properties": { "name": { "title": [] }, "github": { "url": null } } }"#,
        r#"{ "properties": { "PM": { "people": {} }, "participants": { "people": "x" } } }"#,
    ] {
        let page = json(text);
        assert_eq!(Project::pm_id(&page), "");
        assert!(Project::participant_ids(&page).is_empty());
        let project = Project::from_value(&page, None, vec![]);
        assert_eq!(
            format!("{:?}", project),
            format!("{:?}", <Project as Default>::default())
        );
    }
}
