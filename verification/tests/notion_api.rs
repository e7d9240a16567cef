use project_bot::integration::notion::api::{
    check_success, create_project, created_project_id, creation_outcome, data_source_id,
    delete_project, get_projects, page_id, project_pages, read_projects, update_project,
    FetchAction, FetchEvent, FetchState, Method, NotionConfig, NotionError, NotionRequest,
    Unusable,
};
use project_bot::integration::notion::member::NotionMember;
use project_bot::integration::notion::project::{Project, Status};
use serde_json::Value;

fn config() -> NotionConfig {
    NotionConfig {
        token: "token".to_string(),
        version: "2025-09-03".to_string(),
        project_database_id: "db".to_string(),
    }
}

fn json(text: &str) -> Value {
    serde_json::from_str(text).unwrap()
}

fn member(id: &str) -> NotionMember {
    NotionMember { id: id.to_string(), name: String::new(), discord_id: String::new() }
}

fn project() -> Project {
    Project {
        id: "page-1".to_string(),
        name: "플러스봇".to_string(),
        status: Status::InProgress,
        github: "https://github.com/plus/bot".to_string(),
        pm: member("m-1"),
        participants: vec![member("m-2"), member("m-3")],
        category_id: "555".to_string(),
    }
}

fn headers(request: &NotionRequest) -> Vec<(&str, &str)> {
    request.headers.iter().map(|(name, value)| (name.as_str(), value.as_str())).collect()
}

fn common_headers() -> Vec<(&'static str, &'static str)> {
    vec![("Authorization", "Bearer token"), ("Notion-Version", "2025-09-03")]
}

fn json_headers() -> Vec<(&'static str, &'static str)> {
    let mut headers = common_headers();
    headers.push(("Content-Type", "application/json"));
    headers
}

fn body(text: &str) -> FetchEvent {
    FetchEvent::Body(text.as_bytes().to_vec())
}

#[test]
fn a_project_is_entered_without_address_and_participants() {
    let request = create_project(&config(), &project());
    assert_eq!(request.method, Method::Post);
    assert_eq!(request.url, "https://api.notion.com/v1/pages");
    assert_eq!(headers(&request), json_headers());
    assert_eq!(
        request.body.unwrap(),
        json(
            r#"{
                "parent": { "database_id": "db" },
                "template": { "type": "default" },
                "properties": {
                    "name": { "title": [{ "text": { "content": "플러스봇" } }] },
                    "status": { "select": { "name": "진행 중" } },
                    "PM": { "people": [{ "id": "m-1" }] },
                    "category_id": { "rich_text": [{ "text": { "content": "555" } }] }
                }
            }"#
        )
    );
}

#[test]
fn a_project_is_updated_as_a_whole() {
    let request = update_project(&config(), "page-1", &project());
    assert_eq!(request.method, Method::Patch);
    assert_eq!(request.url, "https://api.notion.com/v1/pages/page-1");
    assert_eq!(headers(&request), json_headers());
    assert_eq!(
        request.body.unwrap(),
        json(
            r#"{
                "properties": {
                    "name": { "title": [{ "text": { "content": "플러스봇" } }] },
                    "status": { "select": { "name": "진행 중" } },
                    "github": { "url": "https://github.com/plus/bot" },
                    "PM": { "people": [{ "id": "m-1" }] },
                    "participants": { "people": [{ "id": "m-2" }, { "id": "m-3" }] },
                    "category_id": { "rich_text": [{ "text": { "content": "555" } }] }
                }
            }"#
        )
    );
}

#[test]
fn a_project_is_moved_to_the_trash() {
    let request = delete_project(&config(), "page-1");
    assert_eq!(request.method, Method::Patch);
    assert_eq!(request.url, "https://api.notion.com/v1/pages/page-1");
    assert_eq!(headers(&request), common_headers());
    assert_eq!(request.body.unwrap(), json(r#"{ "in_trash": true }"#));
}

#[test]
fn an_update_is_read_back() {
    let written = project();
    let mut page = update_project(&config(), &written.id, &written).body.unwrap();
    page["id"] = Value::from(written.id.clone());
    assert_eq!(Project::pm_id(&page), "m-1");
    assert_eq!(Project::participant_ids(&page), vec!["m-2", "m-3"]);
    let read = Project::from_value(
        &page,
        Some(member("m-1")),
        vec![Some(member("m-2")), Some(member("m-3"))],
    );
    assert_eq!(format!("{:?}", read), format!("{:?}", written));
}

#[test]
fn an_entry_is_read_back() {
    let written = project();
    let mut page = create_project(&config(), &written).body.unwrap();
    page["id"] = Value::from(written.id.clone());
    assert_eq!(Project::pm_id(&page), "m-1");
    assert!(Project::participant_ids(&page).is_empty());
    let read = Project::from_value(&page, Some(member("m-1")), vec![]);
    assert_eq!(read.name, written.name);
    assert_eq!(read.status, written.status);
    assert_eq!(read.category_id, written.category_id);
    assert_eq!(read.github, "");
}

#[test]
fn only_the_two_hundreds_are_success() {
    for status in [200, 204, 299] {
        assert_eq!(check_success(status), Ok(()));
    }
    for status in [0, 199, 300, 404, 500] {
        assert_eq!(check_success(status), Err(NotionError::RequestFailed));
    }
}

#[test]
fn the_id_of_a_new_page_is_read() {
    assert_eq!(created_project_id(&br#"{ "id": "page-7" }"#.to_vec()), Ok("page-7".to_string()));
    assert_eq!(created_project_id(&br#"{ "id": 7 }"#.to_vec()), Ok(String::new()));
    assert_eq!(created_project_id(&b"[]".to_vec()), Ok(String::new()));
    assert_eq!(created_project_id(&b"{".to_vec()), Err(NotionError::InvalidBody));
    assert_eq!(page_id(&json(r#"{ "id": "x" }"#)), "x");
}

#[test]
fn the_body_of_a_creation_counts_only_after_success() {
    let page = br#"{ "id": "page-7" }"#.to_vec();
    assert_eq!(creation_outcome(200, &page), Ok("page-7".to_string()));
    assert_eq!(creation_outcome(201, &b"{}".to_vec()), Ok(String::new()));
    assert_eq!(creation_outcome(200, &b"{".to_vec()), Err(NotionError::InvalidBody));
    assert_eq!(creation_outcome(400, &page), Err(NotionError::RequestFailed));
    assert_eq!(creation_outcome(500, &b"{".to_vec()), Err(NotionError::RequestFailed));
}

#[test]
fn there_is_one_project_for_each_page() {
    let answer = json(r#"{ "results": [{ "id": "a" }, { "id": "b" }] }"#);
    let people = || {
        vec![
            (Some(member("m-1")), vec![]),
            (None, vec![Some(member("m-2")), None]),
        ]
    };
    let projects = read_projects(&answer, people()).unwrap();
    assert_eq!(projects.len(), 2);
    assert_eq!(projects[0].id, "a");
    assert_eq!(projects[0].pm.id, "m-1");
    assert!(projects[0].participants.is_empty());
    assert_eq!(projects[1].id, "b");
    assert_eq!(projects[1].pm.id, "");
    assert_eq!(projects[1].participants[0].id, "m-2");
    assert_eq!(projects[1].participants[1].id, "");
    assert!(read_projects(&answer, vec![]).is_none());
    assert!(read_projects(&json("{}"), vec![]).is_none());
    assert!(read_projects(&json(r#"{ "results": [] }"#), vec![]).unwrap().is_empty());
}

#[test]
fn the_first_data_source_is_taken() {
    let database = json(r#"{ "data_sources": [{ "id": "ds-1" }, { "id": "ds-2" }] }"#);
    assert_eq!(data_source_id(&database), Ok("ds-1".to_string()));
    for text in ["{}", r#"{ "data_sources": [] }"#, r#"{ "data_sources": [{ "id": 1 }] }"#] {
        assert_eq!(data_source_id(&json(text)), Err(NotionError::NoDataSource));
    }
}

#[test]
fn the_pages_of_an_answer_are_its_results() {
    let answer = json(r#"{ "results": [{ "id": "a" }, { "id": "b" }] }"#);
    let ids: Vec<String> = project_pages(&answer).unwrap().iter().map(page_id).collect();
    assert_eq!(ids, vec!["a", "b"]);
    assert!(project_pages(&json(r#"{ "results": {} }"#)).is_none());
    assert!(project_pages(&json("{}")).is_none());
}

#[test]
fn errors_say_what_happened() {
    assert_eq!(NotionError::RequestFailed.message(), "Notion API 요청 실패");
    assert_eq!(NotionError::InvalidBody.message(), "error decoding response body");
    assert_eq!(
        NotionError::NoDataSource.message(),
        "Notion API 응답에서 데이터 소스 ID를 추출하는 데 실패했습니다."
    );
    assert_eq!(
        Unusable::NotJson.message(),
        "Notion API 응답을 JSON으로 파싱하는 데 실패했습니다."
    );
    assert_eq!(
        Unusable::NoResults.message(),
        "Notion API 응답에서 results 배열을 추출하는 데 실패했습니다."
    );
}

#[test]
fn projects_are_fetched_in_two_requests() {
    let config = config();
    let (state, action) = get_projects(&config, FetchState::Start, &FetchEvent::Begin);
    assert_eq!(state, FetchState::Database);
    match action {
        FetchAction::Send(request) => {
            assert_eq!(request.method, Method::Get);
            assert_eq!(request.url, "https://api.notion.com/v1/databases/db");
            assert_eq!(headers(&request), common_headers());
            assert!(request.body.is_none());
        }
        _ => panic!("the database is not asked for"),
    }
    let (state, action) = get_projects(&config, state, &FetchEvent::Status(200));
    assert_eq!(state, FetchState::DatabaseBody);
    assert!(matches!(action, FetchAction::ReadBody));
    let database = body(r#"{ "data_sources": [{ "id": "ds-1" }] }"#);
    let (state, action) = get_projects(&config, state, &database);
    assert_eq!(state, FetchState::Query);
    match action {
        FetchAction::Send(request) => {
            assert_eq!(request.method, Method::Post);
            assert_eq!(request.url, "https://api.notion.com/v1/data_sources/ds-1/query");
            assert_eq!(headers(&request), json_headers());
            assert!(request.body.is_none());
        }
        _ => panic!("the pages are not asked for"),
    }
    let (state, action) = get_projects(&config, state, &FetchEvent::Status(200));
    assert_eq!(state, FetchState::QueryBody);
    assert!(matches!(action, FetchAction::ReadBody));
    let (state, action) = get_projects(&config, state, &body(r#"{ "results": [{ "id": "a" }] }"#));
    assert_eq!(state, FetchState::Ended);
    match action {
        FetchAction::Pages(answer) => assert_eq!(project_pages(&answer).unwrap().len(), 1),
        _ => panic!("there are no pages"),
    }
}

#[test]
fn a_fetch_fails_where_notion_does_not_answer_with_ok() {
    for (state, status) in [(FetchState::Database, 404), (FetchState::Query, 201)] {
        let (next, action) = get_projects(&config(), state, &FetchEvent::Status(status));
        assert_eq!(next, FetchState::Ended);
        assert!(matches!(action, FetchAction::Fail(NotionError::RequestFailed)));
    }
}

#[test]
fn a_fetch_fails_on_a_database_that_cannot_be_used() {
    for (text, error) in [("<html>", NotionError::InvalidBody), ("{}", NotionError::NoDataSource)]
    {
        let (next, action) = get_projects(&config(), FetchState::DatabaseBody, &body(text));
        assert_eq!(next, FetchState::Ended);
        match action {
            FetchAction::Fail(found) => assert_eq!(found, error),
            _ => panic!("the fetch goes on"),
        }
    }
}

#[test]
fn a_fetch_breaks_off_on_pages_that_cannot_be_used() {
    for (text, reason) in [("<html>", Unusable::NotJson), ("{}", Unusable::NoResults)] {
        let (next, action) = get_projects(&config(), FetchState::QueryBody, &body(text));
        assert_eq!(next, FetchState::Ended);
        match action {
            FetchAction::Abort(found) => assert_eq!(found, reason),
            _ => panic!("the fetch goes on"),
        }
    }
}

#[test]
fn a_fetch_ends_whatever_comes_in() {
    let config = config();
    let mut state = FetchState::Start;
    for _ in 0..6 {
        let (next, action) = get_projects(&config, state, &FetchEvent::Begin);
        let goes_on = matches!(action, FetchAction::Send(_) | FetchAction::ReadBody);
        assert_eq!(goes_on, next != FetchState::Ended);
        state = next;
    }
    assert_eq!(state, FetchState::Ended);
}
