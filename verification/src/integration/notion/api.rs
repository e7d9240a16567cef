//! The requests that are made of Notion, and what is read from its answers.
//!
//! Nothing here talks to the network. A caller sends the requests that it is given and hands back
//! the status codes and bodies that come in.

use crate::integration::notion::member::{member_views, MemberView, NotionMember};
use crate::integration::notion::project::{
    label_of, law_status_round_trip, participant_ids_of, pm_id_of, project_of, property, Project,
    ProjectView, Status,
};
use crate::json::{self, contents, contents_of, entry, parsed, Json};
use serde_json::Value;
use vstd::prelude::*;

verus! {

/// What is needed to speak to Notion.
pub struct NotionConfig {
    pub token: String,
    pub version: String,
    pub project_database_id: String,
}

/// The HTTP methods that are used.
#[derive(Debug, Clone, Copy, PartialEq, Eq, Structural)]
pub enum Method {
    Get,
    Post,
    Patch,
}

/// A request to be sent as it is.
pub struct NotionRequest {
    pub method: Method,
    pub url: String,
    pub headers: Vec<(String, String)>,
    pub body: Option<Value>,
}

/// What a request says.
#[verifier::ext_equal]
pub struct RequestView {
    pub method: Method,
    pub url: Seq<char>,
    pub headers: Seq<(Seq<char>, Seq<char>)>,
    pub body: Option<Json>,
}

impl View for NotionRequest {
    type V = RequestView;

    open spec fn view(&self) -> RequestView {
        RequestView {
            method: self.method,
            url: self.url@,
            headers: Seq::new(
                self.headers@.len(),
                |i: int| (self.headers@[i].0@, self.headers@[i].1@),
            ),
            body: match self.body {
                Some(value) => Some(contents(value)),
                None => None,
            },
        }
    }
}

/// Why a request to Notion came to nothing.
#[derive(Debug, Clone, Copy, PartialEq, Eq, Structural)]
pub enum NotionError {
    /// Notion did not answer with success.
    RequestFailed,
    /// The answer is not JSON.
    InvalidBody,
    /// The answer names no data source.
    NoDataSource,
}

/// What is said of an error.
pub open spec fn error_message(error: NotionError) -> Seq<char> {
    match error {
        NotionError::RequestFailed => "Notion API 요청 실패"@,
        NotionError::InvalidBody => "error decoding response body"@,
        NotionError::NoDataSource => "Notion API 응답에서 데이터 소스 ID를 추출하는 데 실패했습니다."@,
    }
}

impl NotionError {
    /// What is said of the error.
    pub fn message(&self) -> (message: &'static str)
        ensures
            message@ == error_message(*self),
    {
        match self {
            NotionError::RequestFailed => "Notion API 요청 실패",
            NotionError::InvalidBody => "error decoding response body",
            NotionError::NoDataSource => {
                "Notion API 응답에서 데이터 소스 ID를 추출하는 데 실패했습니다."
            },
        }
    }
}

/// The headers that authorise a request and fix the version of the API.
pub open spec fn common_headers(config: NotionConfig) -> Seq<(Seq<char>, Seq<char>)> {
    seq![
        ("Authorization"@, "Bearer "@ + config.token@),
        ("Notion-Version"@, config.version@),
    ]
}

/// The common headers of a request that announces JSON.
pub open spec fn json_headers(config: NotionConfig) -> Seq<(Seq<char>, Seq<char>)> {
    common_headers(config).push(("Content-Type"@, "application/json"@))
}

/// A request for the database that holds the projects.
pub open spec fn database_request(config: NotionConfig) -> RequestView {
    RequestView {
        method: Method::Get,
        url: "https://api.notion.com/v1/databases/"@ + config.project_database_id@,
        headers: common_headers(config),
        body: None,
    }
}

/// A request for the pages of a data source.
pub open spec fn query_request(config: NotionConfig, data_source_id: Seq<char>) -> RequestView {
    RequestView {
        method: Method::Post,
        url: "https://api.notion.com/v1/data_sources/"@ + data_source_id + "/query"@,
        headers: json_headers(config),
        body: None,
    }
}

/// A property that holds one piece of text.
pub open spec fn text_property(kind: Seq<char>, text: Seq<char>) -> Json {
    entry(kind, Json::Array(seq![entry("text"@, entry("content"@, Json::Text(text)))]))
}

/// A property that holds a choice.
pub open spec fn select_property(label: Seq<char>) -> Json {
    entry("select"@, entry("name"@, Json::Text(label)))
}

/// A property that holds people.
pub open spec fn people_property(ids: Seq<Seq<char>>) -> Json {
    entry("people"@, Json::Array(Seq::new(ids.len(), |i: int| entry("id"@, Json::Text(ids[i])))))
}

/// The ids of members.
pub open spec fn member_ids(members: Seq<MemberView>) -> Seq<Seq<char>> {
    Seq::new(members.len(), |i: int| members[i].id)
}

/// The properties with which a project is entered.
pub open spec fn new_properties(project: ProjectView) -> Json {
    Json::Object(
        map![
            "name"@ => text_property("title"@, project.name),
            "status"@ => select_property(label_of(project.status)),
            "PM"@ => people_property(seq![project.pm.id]),
            "category_id"@ => text_property("rich_text"@, project.category_id),
        ],
    )
}

/// The properties with which a project is brought up to date.
pub open spec fn all_properties(project: ProjectView) -> Json {
    Json::Object(
        map![
            "name"@ => text_property("title"@, project.name),
            "status"@ => select_property(label_of(project.status)),
            "github"@ => entry("url"@, Json::Text(project.github)),
            "PM"@ => people_property(seq![project.pm.id]),
            "participants"@ => people_property(member_ids(project.participants)),
            "category_id"@ => text_property("rich_text"@, project.category_id),
        ],
    )
}

/// A request to enter a project.
pub open spec fn creation_request(config: NotionConfig, project: ProjectView) -> RequestView {
    RequestView {
        method: Method::Post,
        url: "https://api.notion.com/v1/pages"@,
        headers: json_headers(config),
        body: Some(
            Json::Object(
                map![
                    "parent"@ => entry(
                        "database_id"@,
                        Json::Text(config.project_database_id@),
                    ),
                    "template"@ => entry("type"@, Json::Text("default"@)),
                    "properties"@ => new_properties(project),
                ],
            ),
        ),
    }
}

/// A request to bring a page up to date with a project.
pub open spec fn update_request(
    config: NotionConfig,
    project_id: Seq<char>,
    project: ProjectView,
) -> RequestView {
    RequestView {
        method: Method::Patch,
        url: "https://api.notion.com/v1/pages/"@ + project_id,
        headers: json_headers(config),
        body: Some(entry("properties"@, all_properties(project))),
    }
}

/// A request to move a page to the trash.
pub open spec fn deletion_request(config: NotionConfig, project_id: Seq<char>) -> RequestView {
    RequestView {
        method: Method::Patch,
        url: "https://api.notion.com/v1/pages/"@ + project_id,
        headers: common_headers(config),
        body: Some(entry("in_trash"@, Json::Bool(true))),
    }
}

/// Whether a status code reports success.
pub open spec fn is_success(status: u16) -> bool {
    200 <= status < 300
}

/// Builds the common headers.
fn build_common_headers(config: &NotionConfig) -> (headers: Vec<(String, String)>)
    ensures
        headers@.len() == 2,
        headers@[0].0@ == "Authorization"@,
        headers@[0].1@ == "Bearer "@ + config.token@,
        headers@[1].0@ == "Notion-Version"@,
        headers@[1].1@ == config.version@,
{
    let mut headers: Vec<(String, String)> = Vec::new();
    let mut bearer = "Bearer ".to_string();
    bearer.append(config.token.as_str());
    headers.push(("Authorization".to_string(), bearer));
    headers.push(("Notion-Version".to_string(), config.version.clone()));
    headers
}

/// Builds the common headers of a request that announces JSON.
fn build_json_headers(config: &NotionConfig) -> (headers: Vec<(String, String)>)
    ensures
        headers@.len() == 3,
        headers@[0].0@ == "Authorization"@,
        headers@[0].1@ == "Bearer "@ + config.token@,
        headers@[1].0@ == "Notion-Version"@,
        headers@[1].1@ == config.version@,
        headers@[2].0@ == "Content-Type"@,
        headers@[2].1@ == "application/json"@,
{
    let mut headers = build_common_headers(config);
    headers.push(("Content-Type".to_string(), "application/json".to_string()));
    headers
}

/// Builds a property that holds one piece of text.
fn build_text_property(kind: &str, text: &str) -> (value: Value)
    ensures
        contents(value) == text_property(kind@, text@),
{
    let content = json::object_of("content", json::from_text(text.to_string()));
    json::object_of(kind, json::array_of(json::object_of("text", content)))
}

/// Builds a property that holds a choice.
fn build_select_property(label: &str) -> (value: Value)
    ensures
        contents(value) == select_property(label@),
{
    json::object_of("select", json::object_of("name", json::from_text(label.to_string())))
}

/// Builds a property that holds one person.
fn build_person_property(id: &str) -> (value: Value)
    ensures
        contents(value) == people_property(seq![id@]),
{
    let person = json::object_of("id", json::from_text(id.to_string()));
    let value = json::object_of("people", json::array_of(person));
    assert(seq![entry("id"@, Json::Text(id@))] =~= Seq::new(
        1,
        |i: int| entry("id"@, Json::Text(seq![id@][i])),
    ));
    value
}

/// Builds a property that holds the people of a list.
fn build_people_property(members: &Vec<NotionMember>) -> (value: Value)
    ensures
        contents(value) == people_property(member_ids(member_views(members@))),
{
    let mut people: Vec<Value> = Vec::new();
    let mut next: usize = 0;
    while next < members.len()
        invariant
            next <= members.len(),
            people.len() == next,
            forall|i: int|
                0 <= i < next ==> contents(#[trigger] people[i]) == entry(
                    "id"@,
                    Json::Text(members[i].id@),
                ),
        decreases members.len() - next,
    {
        people.push(json::object_of("id", json::from_text(members[next].id.clone())));
        next = next + 1;
    }
    let ghost ids = member_ids(member_views(members@));
    assert(contents_of(people@) =~= Seq::new(
        ids.len(),
        |i: int| entry("id"@, Json::Text(ids[i])),
    ));
    json::object_of("people", json::from_items(people))
}

/// A request to enter a project in the database.
pub fn create_project(config: &NotionConfig, project: &Project) -> (request: NotionRequest)
    ensures
        request@ == creation_request(*config, project@),
{
    let mut properties = json::empty_object();
    json::set_field(&mut properties, "name", build_text_property("title", project.name.as_str()));
    json::set_field(&mut properties, "status", build_select_property(project.status.label()));
    json::set_field(&mut properties, "PM", build_person_property(project.pm.id.as_str()));
    json::set_field(
        &mut properties,
        "category_id",
        build_text_property("rich_text", project.category_id.as_str()),
    );
    let mut body = json::empty_object();
    json::set_field(
        &mut body,
        "parent",
        json::object_of("database_id", json::from_text(config.project_database_id.clone())),
    );
    json::set_field(
        &mut body,
        "template",
        json::object_of("type", json::from_text("default".to_string())),
    );
    json::set_field(&mut body, "properties", properties);
    let request = NotionRequest {
        method: Method::Post,
        url: "https://api.notion.com/v1/pages".to_string(),
        headers: build_json_headers(config),
        body: Some(body),
    };
    assert(request@.headers =~= json_headers(*config));
    request
}

/// A request to bring the page of a project up to date with it.
pub fn update_project(config: &NotionConfig, project_id: &str, project: &Project) -> (request:
    NotionRequest)
    ensures
        request@ == update_request(*config, project_id@, project@),
{
    let mut properties = json::empty_object();
    json::set_field(&mut properties, "name", build_text_property("title", project.name.as_str()));
    json::set_field(&mut properties, "status", build_select_property(project.status.label()));
    json::set_field(
        &mut properties,
        "github",
        json::object_of("url", json::from_text(project.github.clone())),
    );
    json::set_field(&mut properties, "PM", build_person_property(project.pm.id.as_str()));
    json::set_field(
        &mut properties,
        "participants",
        build_people_property(&project.participants),
    );
    json::set_field(
        &mut properties,
        "category_id",
        build_text_property("rich_text", project.category_id.as_str()),
    );
    let mut url = "https://api.notion.com/v1/pages/".to_string();
    url.append(project_id);
    let request = NotionRequest {
        method: Method::Patch,
        url,
        headers: build_json_headers(config),
        body: Some(json::object_of("properties", properties)),
    };
    assert(request@.headers =~= json_headers(*config));
    request
}

/// A request to move the page of a project to the trash.
pub fn delete_project(config: &NotionConfig, project_id: &str) -> (request: NotionRequest)
    ensures
        request@ == deletion_request(*config, project_id@),
{
    let mut url = "https://api.notion.com/v1/pages/".to_string();
    url.append(project_id);
    let request = NotionRequest {
        method: Method::Patch,
        url,
        headers: build_common_headers(config),
        body: Some(json::object_of("in_trash", json::from_bool(true))),
    };
    assert(request@.headers =~= common_headers(*config));
    request
}

/// Whether an answer to a request reports success.
pub fn check_success(status: u16) -> (outcome: Result<(), NotionError>)
    ensures
        outcome == (if is_success(status) {
            Ok(())
        } else {
            Err::<(), NotionError>(NotionError::RequestFailed)
        }),
{
    if 200 <= status && status < 300 {
        Ok(())
    } else {
        Err(NotionError::RequestFailed)
    }
}

/// The id of a page, empty where it has none.
pub fn page_id(page: &Value) -> (id: String)
    ensures
        id@ == contents(*page).field("id"@).text(),
{
    json::text_or_empty(json::field(page, "id"))
}

/// The id of the page that was entered, read from the body of the answer.
pub fn created_project_id(body: &Vec<u8>) -> (id: Result<String, NotionError>)
    ensures
        match parsed(body@) {
            Some(page) => id is Ok && id->Ok_0@ == page.field("id"@).text(),
            None => id == Err::<String, NotionError>(NotionError::InvalidBody),
        },
{
    match json::parse(body.as_slice()) {
        Ok(page) => Ok(page_id(&page)),
        Err(_) => Err(NotionError::InvalidBody),
    }
}

/// What came of entering a page: its id, where Notion answered with success and the body can be
/// read. The body of any other answer counts for nothing.
pub fn creation_outcome(status: u16, body: &Vec<u8>) -> (outcome: Result<String, NotionError>)
    ensures
        if !is_success(status) {
            outcome == Err::<String, NotionError>(NotionError::RequestFailed)
        } else {
            match parsed(body@) {
                Some(page) => outcome is Ok && outcome->Ok_0@ == page.field("id"@).text(),
                None => outcome == Err::<String, NotionError>(NotionError::InvalidBody),
            }
        },
{
    match check_success(status) {
        Ok(_) => created_project_id(body),
        Err(error) => Err(error),
    }
}

/// The value that names the data source of a database.
pub open spec fn data_source_of(database: Json) -> Json {
    database.field("data_sources"@).item(0).field("id"@)
}

/// The id of the data source of a database.
pub fn data_source_id(database: &Value) -> (id: Result<String, NotionError>)
    ensures
        match data_source_of(contents(*database)) {
            Json::Text(text) => id is Ok && id->Ok_0@ == text,
            _ => id == Err::<String, NotionError>(NotionError::NoDataSource),
        },
{
    let source = json::item(json::field(database, "data_sources"), 0);
    match json::as_text(json::field(source, "id")) {
        Some(id) => Ok(id.to_string()),
        None => Err(NotionError::NoDataSource),
    }
}

/// The pages that an answer to a query lists, in its order; `None` where it has no list.
pub fn project_pages<'a>(answer: &'a Value) -> (pages: Option<&'a Vec<Value>>)
    ensures
        pages is Some <==> contents(*answer).field("results"@) is Array,
        pages is Some ==> contents_of(pages->0@) == contents(*answer).field("results"@).items(),
{
    json::as_items(json::field(answer, "results"))
}

/// The projects that an answer to a query lists, in its order, where the people of each page have
/// been looked up: first the manager, then those who take part. `None` where the answer has no list,
/// or where the people of more or of fewer pages are given.
pub fn read_projects(
    answer: &Value,
    people: Vec<(Option<NotionMember>, Vec<Option<NotionMember>>)>,
) -> (projects: Option<Vec<Project>>)
    ensures
        projects is Some <==> contents(*answer).field("results"@) is Array && contents(
            *answer,
        ).field("results"@).items().len() == people@.len(),
        projects is Some ==> projects->0@.len() == people@.len() && forall|i: int|
            0 <= i < people@.len() ==> (#[trigger] projects->0@[i])@ == project_of(
                contents(*answer).field("results"@).items()[i],
                people@[i].0,
                people@[i].1@,
            ),
{
    let pages = match project_pages(answer) {
        Some(pages) => pages,
        None => return None,
    };
    if pages.len() != people.len() {
        return None;
    }
    let mut projects: Vec<Project> = Vec::new();
    let mut next: usize = 0;
    while next < pages.len()
        invariant
            next <= pages.len(),
            pages.len() == people.len(),
            projects.len() == next,
            forall|i: int|
                0 <= i < next ==> (#[trigger] projects@[i])@ == project_of(
                    contents(pages@[i]),
                    people@[i].0,
                    people@[i].1@,
                ),
        decreases pages.len() - next,
    {
        projects.push(Project::read_page(&pages[next], &people[next].0, &people[next].1));
        next = next + 1;
    }
    assert forall|i: int| 0 <= i < people@.len() implies contents(#[trigger] pages@[i]) == contents(
        *answer,
    ).field("results"@).items()[i] by {
        assert(contents_of(pages@)[i] == contents(pages@[i]));
    }
    Some(projects)
}

/// Why the answer to a query cannot be used at all.
#[derive(Debug, Clone, Copy, PartialEq, Eq, Structural)]
pub enum Unusable {
    NotJson,
    NoResults,
}

impl Unusable {
    /// What is said of it.
    pub fn message(&self) -> (message: &'static str)
        ensures
            message@ == match *self {
                Unusable::NotJson => "Notion API 응답을 JSON으로 파싱하는 데 실패했습니다."@,
                Unusable::NoResults => {
                    "Notion API 응답에서 results 배열을 추출하는 데 실패했습니다."@
                },
            },
    {
        match self {
            Unusable::NotJson => "Notion API 응답을 JSON으로 파싱하는 데 실패했습니다.",
            Unusable::NoResults => "Notion API 응답에서 results 배열을 추출하는 데 실패했습니다.",
        }
    }
}

/// Where the fetching of the projects stands.
#[derive(Debug, Clone, Copy, PartialEq, Eq, Structural)]
pub enum FetchState {
    Start,
    /// The database has been asked for.
    Database,
    /// The database has been found, and its body is to be read.
    DatabaseBody,
    /// The pages of its data source have been asked for.
    Query,
    /// The pages have been found, and the body is to be read.
    QueryBody,
    Ended,
}

/// What has come in.
pub enum FetchEvent {
    Begin,
    Status(u16),
    Body(Vec<u8>),
}

/// What is to be done next.
pub enum FetchAction {
    Send(NotionRequest),
    ReadBody,
    /// The projects cannot be had.
    Fail(NotionError),
    /// The answer breaks what Notion promises; there is nothing to go on with.
    Abort(Unusable),
    /// The answer that lists the pages.
    Pages(Value),
}

/// Whether `action` is what the answer to the query calls for.
pub open spec fn query_outcome(bytes: Seq<u8>, action: FetchAction) -> bool {
    match parsed(bytes) {
        None => action == FetchAction::Abort(Unusable::NotJson),
        Some(answer) => if answer.field("results"@) is Array {
            action is Pages && contents(action->Pages_0) == answer
        } else {
            action == FetchAction::Abort(Unusable::NoResults)
        },
    }
}

/// Whether `action` and `next` are what the body of the database calls for.
pub open spec fn database_outcome(
    config: NotionConfig,
    bytes: Seq<u8>,
    next: FetchState,
    action: FetchAction,
) -> bool {
    match parsed(bytes) {
        None => next == FetchState::Ended && action == FetchAction::Fail(NotionError::InvalidBody),
        Some(database) => match data_source_of(database) {
            Json::Text(id) => next == FetchState::Query && action is Send && action->Send_0@
                == query_request(config, id),
            _ => next == FetchState::Ended && action == FetchAction::Fail(
                NotionError::NoDataSource,
            ),
        },
    }
}

/// Whether `next` and `action` follow on `state` when `event` comes in. An event that does not
/// answer what was last asked for counts as a failed request.
pub open spec fn fetch_follows(
    config: NotionConfig,
    state: FetchState,
    event: FetchEvent,
    next: FetchState,
    action: FetchAction,
) -> bool {
    match (state, event) {
        (FetchState::Start, FetchEvent::Begin) => next == FetchState::Database && action is Send
            && action->Send_0@ == database_request(config),
        (FetchState::Database, FetchEvent::Status(200)) => next == FetchState::DatabaseBody
            && action == FetchAction::ReadBody,
        (FetchState::DatabaseBody, FetchEvent::Body(bytes)) => database_outcome(
            config,
            bytes@,
            next,
            action,
        ),
        (FetchState::Query, FetchEvent::Status(200)) => next == FetchState::QueryBody && action
            == FetchAction::ReadBody,
        (FetchState::QueryBody, FetchEvent::Body(bytes)) => next == FetchState::Ended
            && query_outcome(bytes@, action),
        _ => next == FetchState::Ended && action == FetchAction::Fail(NotionError::RequestFailed),
    }
}

/// What the body of the database calls for.
fn after_database(config: &NotionConfig, bytes: &Vec<u8>) -> (step: (FetchState, FetchAction))
    ensures
        database_outcome(*config, bytes@, step.0, step.1),
{
    let database = match json::parse(bytes.as_slice()) {
        Ok(database) => database,
        Err(_) => return (FetchState::Ended, FetchAction::Fail(NotionError::InvalidBody)),
    };
    match data_source_id(&database) {
        Ok(id) => {
            let mut url = "https://api.notion.com/v1/data_sources/".to_string();
            url.append(id.as_str());
            url.append("/query");
            let request = NotionRequest {
                method: Method::Post,
                url,
                headers: build_json_headers(config),
                body: None,
            };
            assert(request@.headers =~= json_headers(*config));
            (FetchState::Query, FetchAction::Send(request))
        },
        Err(error) => (FetchState::Ended, FetchAction::Fail(error)),
    }
}

/// What the answer to the query calls for.
fn after_query(bytes: &Vec<u8>) -> (action: FetchAction)
    ensures
        query_outcome(bytes@, action),
{
    match json::parse(bytes.as_slice()) {
        Ok(answer) => match project_pages(&answer) {
            Some(_) => FetchAction::Pages(answer),
            None => FetchAction::Abort(Unusable::NoResults),
        },
        Err(_) => FetchAction::Abort(Unusable::NotJson),
    }
}

/// One step of fetching the projects: the database is asked for, then the pages of its first data
/// source.
pub fn get_projects(config: &NotionConfig, state: FetchState, event: &FetchEvent) -> (step: (
    FetchState,
    FetchAction,
))
    ensures
        fetch_follows(*config, state, *event, step.0, step.1),
{
    match (state, event) {
        (FetchState::Start, FetchEvent::Begin) => {
            let mut url = "https://api.notion.com/v1/databases/".to_string();
            url.append(config.project_database_id.as_str());
            let request = NotionRequest {
                method: Method::Get,
                url,
                headers: build_common_headers(config),
                body: None,
            };
            assert(request@.headers =~= common_headers(*config));
            (FetchState::Database, FetchAction::Send(request))
        },
        (FetchState::Database, FetchEvent::Status(200)) => (
            FetchState::DatabaseBody,
            FetchAction::ReadBody,
        ),
        (FetchState::DatabaseBody, FetchEvent::Body(bytes)) => after_database(config, bytes),
        (FetchState::Query, FetchEvent::Status(200)) => (
            FetchState::QueryBody,
            FetchAction::ReadBody,
        ),
        (FetchState::QueryBody, FetchEvent::Body(bytes)) => (
            FetchState::Ended,
            after_query(bytes),
        ),
        _ => (FetchState::Ended, FetchAction::Fail(NotionError::RequestFailed)),
    }
}

/// The names of the properties, and of what is inside them, are different from each other.
proof fn lemma_names_differ()
    ensures
        "name"@ != "status"@,
        "name"@ != "github"@,
        "name"@ != "PM"@,
        "name"@ != "participants"@,
        "name"@ != "category_id"@,
        "status"@ != "github"@,
        "status"@ != "PM"@,
        "status"@ != "participants"@,
        "status"@ != "category_id"@,
        "github"@ != "PM"@,
        "github"@ != "participants"@,
        "github"@ != "category_id"@,
        "PM"@ != "participants"@,
        "PM"@ != "category_id"@,
        "participants"@ != "category_id"@,
{
    reveal_strlit("name");
    reveal_strlit("status");
    reveal_strlit("github");
    reveal_strlit("PM");
    reveal_strlit("participants");
    reveal_strlit("category_id");
    assert("name"@.len() == 4);
    assert("status"@.len() == 6);
    assert("github"@.len() == 6);
    assert("PM"@.len() == 2);
    assert("participants"@.len() == 12);
    assert("category_id"@.len() == 11);
    assert("status"@[0] != "github"@[0]);
}

/// What is written of people is read back as their ids.
proof fn lemma_people_read_back(ids: Seq<Seq<char>>)
    ensures
        people_property(ids).field("people"@).items().len() == ids.len(),
        forall|i: int|
            0 <= i < ids.len() ==> (#[trigger] people_property(ids).field(
                "people"@,
            ).items()[i]).field("id"@).text() == ids[i],
{
}

/// A page that carries the properties of an update describes the project that the update was made
/// from: its name, status, address, category and people are those that were written.
pub proof fn law_update_is_read_back(
    config: NotionConfig,
    project: ProjectView,
    page: Json,
    pm: Option<NotionMember>,
    participants: Seq<Option<NotionMember>>,
)
    requires
        page.field("id"@) == Json::Text(project.id),
        page.field("properties"@) == update_request(config, project.id, project).body->0.field(
            "properties"@,
        ),
    ensures
        pm_id_of(page) == project.pm.id,
        participant_ids_of(page) == member_ids(project.participants),
        project_of(page, pm, participants) == (ProjectView {
            pm: project_of(page, pm, participants).pm,
            participants: project_of(page, pm, participants).participants,
            ..project
        }),
{
    lemma_names_differ();
    let properties = all_properties(project);
    assert(page.field("properties"@) == properties);
    assert(property(page, "name"@) == text_property("title"@, project.name));
    assert(property(page, "status"@) == select_property(label_of(project.status)));
    assert(property(page, "github"@) == entry("url"@, Json::Text(project.github)));
    assert(property(page, "PM"@) == people_property(seq![project.pm.id]));
    assert(property(page, "participants"@) == people_property(member_ids(project.participants)));
    assert(property(page, "category_id"@) == text_property("rich_text"@, project.category_id));
    law_status_round_trip(project.status);
    lemma_people_read_back(seq![project.pm.id]);
    lemma_people_read_back(member_ids(project.participants));
    assert(participant_ids_of(page) =~= member_ids(project.participants));
}

/// A page that carries the properties with which a project was entered describes that project,
/// without an address and without participants: neither is entered.
pub proof fn law_creation_is_read_back(
    config: NotionConfig,
    project: ProjectView,
    page: Json,
    pm: Option<NotionMember>,
)
    requires
        page.field("id"@) == Json::Text(project.id),
        page.field("properties"@) == creation_request(config, project).body->0.field(
            "properties"@,
        ),
    ensures
        pm_id_of(page) == project.pm.id,
        participant_ids_of(page) == Seq::<Seq<char>>::empty(),
        project_of(page, pm, Seq::empty()) == (ProjectView {
            github: Seq::empty(),
            pm: project_of(page, pm, Seq::empty()).pm,
            participants: Seq::empty(),
            ..project
        }),
{
    lemma_names_differ();
    assert(page.field("properties"@) == new_properties(project));
    assert(property(page, "name"@) == text_property("title"@, project.name));
    assert(property(page, "status"@) == select_property(label_of(project.status)));
    assert(property(page, "github"@) == Json::Null);
    assert(property(page, "PM"@) == people_property(seq![project.pm.id]));
    assert(property(page, "participants"@) == Json::Null);
    assert(property(page, "category_id"@) == text_property("rich_text"@, project.category_id));
    law_status_round_trip(project.status);
    lemma_people_read_back(seq![project.pm.id]);
    assert(participant_ids_of(page) =~= Seq::<Seq<char>>::empty());
    assert(project_of(page, pm, Seq::empty()).participants =~= Seq::<MemberView>::empty());
}

/// How many events the fetching of the projects can still take in.
pub open spec fn fetch_rank(state: FetchState) -> nat {
    match state {
        FetchState::Start => 5,
        FetchState::Database => 4,
        FetchState::DatabaseBody => 3,
        FetchState::Query => 2,
        FetchState::QueryBody => 1,
        FetchState::Ended => 0,
    }
}

/// The fetching of the projects ends whatever comes in, and it ends with an outcome: it goes on
/// only to send a request or to read a body, and each step brings it nearer to its end.
pub proof fn law_fetch_ends(
    config: NotionConfig,
    state: FetchState,
    event: FetchEvent,
    next: FetchState,
    action: FetchAction,
)
    requires
        fetch_follows(config, state, event, next, action),
    ensures
        next == FetchState::Ended || fetch_rank(next) < fetch_rank(state),
        next == FetchState::Ended <==> action is Fail || action is Abort || action is Pages,
{
}

/// What is said of a request is said of all that is sent.
pub proof fn law_the_view_of_a_request_is_whole(request: NotionRequest)
    ensures
        request@.method == request.method,
        request@.url == request.url@,
        request@.headers.len() == request.headers@.len(),
        forall|i: int|
            0 <= i < request.headers@.len() ==> request@.headers[i].0 == (
            #[trigger] request.headers@[i]).0@ && request@.headers[i].1 == request.headers@[i].1@,
        request.body matches Some(body) ==> request@.body == Some(contents(body)),
        request.body is None ==> request@.body is None,
{
}

/// The request that enters a project, in full.
pub proof fn law_how_a_project_is_entered(config: NotionConfig, project: ProjectView)
    ensures
        ({
            let request = creation_request(config, project);
            &&& request.method == Method::Post
            &&& request.url == "https://api.notion.com/v1/pages"@
            &&& request.headers == seq![
                ("Authorization"@, "Bearer "@ + config.token@),
                ("Notion-Version"@, config.version@),
                ("Content-Type"@, "application/json"@),
            ]
            &&& request.body == Some(
                Json::Object(
                    map![
                        "parent"@ => Json::Object(
                            map!["database_id"@ => Json::Text(config.project_database_id@)],
                        ),
                        "template"@ => Json::Object(map!["type"@ => Json::Text("default"@)]),
                        "properties"@ => Json::Object(
                            map![
                                "name"@ => Json::Object(map!["title"@ => Json::Array(seq![
                                    Json::Object(map!["text"@ => Json::Object(
                                        map!["content"@ => Json::Text(project.name)],
                                    )]),
                                ])]),
                                "status"@ => Json::Object(map!["select"@ => Json::Object(
                                    map!["name"@ => Json::Text(match project.status {
                                        Status::NotStarted => "시작 전"@,
                                        Status::InProgress => "진행 중"@,
                                        Status::Maintenance => "유지보수"@,
                                        Status::Completed => "완료"@,
                                    })],
                                )]),
                                "PM"@ => Json::Object(map!["people"@ => Json::Array(seq![
                                    Json::Object(map!["id"@ => Json::Text(project.pm.id)]),
                                ])]),
                                "category_id"@ => Json::Object(map!["rich_text"@ => Json::Array(
                                    seq![Json::Object(map!["text"@ => Json::Object(
                                        map!["content"@ => Json::Text(project.category_id)],
                                    )])],
                                )]),
                            ],
                        ),
                    ],
                ),
            )
        }),
{
    let request = creation_request(config, project);
    assert(request.headers =~= seq![
        ("Authorization"@, "Bearer "@ + config.token@),
        ("Notion-Version"@, config.version@),
        ("Content-Type"@, "application/json"@),
    ]);
    lemma_one_person(project.pm.id);
}

/// A list of one person holds that person.
proof fn lemma_one_person(id: Seq<char>)
    ensures
        people_property(seq![id]) == Json::Object(
            map!["people"@ => Json::Array(seq![Json::Object(map!["id"@ => Json::Text(id)])])],
        ),
{
    assert(Seq::new(1, |i: int| entry("id"@, Json::Text(seq![id][i]))) =~= seq![
        Json::Object(map!["id"@ => Json::Text(id)]),
    ]);
}

/// The request that brings a page up to date with a project, in full: all who take part are written,
/// in their order.
pub proof fn law_how_a_project_is_updated(
    config: NotionConfig,
    project_id: Seq<char>,
    project: ProjectView,
)
    ensures
        ({
            let request = update_request(config, project_id, project);
            &&& request.method == Method::Patch
            &&& request.url == "https://api.notion.com/v1/pages/"@ + project_id
            &&& request.headers == seq![
                ("Authorization"@, "Bearer "@ + config.token@),
                ("Notion-Version"@, config.version@),
                ("Content-Type"@, "application/json"@),
            ]
            &&& request.body == Some(
                Json::Object(
                    map![
                        "properties"@ => Json::Object(
                            map![
                                "name"@ => Json::Object(map!["title"@ => Json::Array(seq![
                                    Json::Object(map!["text"@ => Json::Object(
                                        map!["content"@ => Json::Text(project.name)],
                                    )]),
                                ])]),
                                "status"@ => Json::Object(map!["select"@ => Json::Object(
                                    map!["name"@ => Json::Text(match project.status {
                                        Status::NotStarted => "시작 전"@,
                                        Status::InProgress => "진행 중"@,
                                        Status::Maintenance => "유지보수"@,
                                        Status::Completed => "완료"@,
                                    })],
                                )]),
                                "github"@ => Json::Object(
                                    map!["url"@ => Json::Text(project.github)],
                                ),
                                "PM"@ => Json::Object(map!["people"@ => Json::Array(seq![
                                    Json::Object(map!["id"@ => Json::Text(project.pm.id)]),
                                ])]),
                                "participants"@ => Json::Object(map!["people"@ => Json::Array(
                                    project.participants.map_values(
                                        |member: MemberView| Json::Object(
                                            map!["id"@ => Json::Text(member.id)],
                                        ),
                                    ),
                                )]),
                                "category_id"@ => Json::Object(map!["rich_text"@ => Json::Array(
                                    seq![Json::Object(map!["text"@ => Json::Object(
                                        map!["content"@ => Json::Text(project.category_id)],
                                    )])],
                                )]),
                            ],
                        ),
                    ],
                ),
            )
        }),
{
    let request = update_request(config, project_id, project);
    assert(request.headers =~= seq![
        ("Authorization"@, "Bearer "@ + config.token@),
        ("Notion-Version"@, config.version@),
        ("Content-Type"@, "application/json"@),
    ]);
    lemma_one_person(project.pm.id);
    let ids = member_ids(project.participants);
    assert(Seq::new(ids.len(), |i: int| entry("id"@, Json::Text(ids[i])))
        =~= project.participants.map_values(
        |member: MemberView| Json::Object(map!["id"@ => Json::Text(member.id)]),
    ));
}

/// The request that moves a page to the trash, in full.
pub proof fn law_how_a_project_is_trashed(config: NotionConfig, project_id: Seq<char>)
    ensures
        ({
            let request = deletion_request(config, project_id);
            &&& request.method == Method::Patch
            &&& request.url == "https://api.notion.com/v1/pages/"@ + project_id
            &&& request.headers == seq![
                ("Authorization"@, "Bearer "@ + config.token@),
                ("Notion-Version"@, config.version@),
            ]
            &&& request.body == Some(Json::Object(map!["in_trash"@ => Json::Bool(true)]))
        }),
{
}

/// A status code reports success exactly where it is one of the two hundreds.
pub proof fn law_which_codes_are_success(status: u16)
    ensures
        is_success(status) <==> 200 <= status && status <= 299,
{
}

/// What is asked for first is the database that is configured, in full.
pub proof fn law_the_database_comes_first(
    config: NotionConfig,
    next: FetchState,
    action: FetchAction,
)
    requires
        fetch_follows(config, FetchState::Start, FetchEvent::Begin, next, action),
    ensures
        next == FetchState::Database,
        action is Send,
        action->Send_0@.method == Method::Get,
        action->Send_0@.url == "https://api.notion.com/v1/databases/"@ + config.project_database_id@,
        action->Send_0@.headers == seq![
            ("Authorization"@, "Bearer "@ + config.token@),
            ("Notion-Version"@, config.version@),
        ],
        action->Send_0@.body is None,
{
}

/// A body is read exactly after an answer with the code 200, and any other code ends the fetch with
/// a failed request.
pub proof fn law_only_ok_is_read_on(
    config: NotionConfig,
    state: FetchState,
    status: u16,
    next: FetchState,
    action: FetchAction,
)
    requires
        fetch_follows(config, state, FetchEvent::Status(status), next, action),
        state == FetchState::Database || state == FetchState::Query,
    ensures
        status == 200 ==> action == FetchAction::ReadBody && next == if state
            == FetchState::Database {
            FetchState::DatabaseBody
        } else {
            FetchState::QueryBody
        },
        status != 200 ==> next == FetchState::Ended && action == FetchAction::Fail(
            NotionError::RequestFailed,
        ),
{
}

/// The pages that are asked for are those of the first data source that the database names; a
/// database that is no JSON, or whose first data source has no text for an id, ends the fetch with
/// the error that says so.
pub proof fn law_the_first_data_source_is_queried(
    config: NotionConfig,
    body: Vec<u8>,
    next: FetchState,
    action: FetchAction,
)
    requires
        fetch_follows(config, FetchState::DatabaseBody, FetchEvent::Body(body), next, action),
    ensures
        parsed(body@) is None ==> next == FetchState::Ended && action == FetchAction::Fail(
            NotionError::InvalidBody,
        ),
        parsed(body@) matches Some(database) ==> match database.field("data_sources"@).item(
            0,
        ).field("id"@) {
            Json::Text(id) => {
                &&& next == FetchState::Query
                &&& action is Send
                &&& action->Send_0@.method == Method::Post
                &&& action->Send_0@.url == "https://api.notion.com/v1/data_sources/"@ + id
                    + "/query"@
                &&& action->Send_0@.headers == seq![
                    ("Authorization"@, "Bearer "@ + config.token@),
                    ("Notion-Version"@, config.version@),
                    ("Content-Type"@, "application/json"@),
                ]
                &&& action->Send_0@.body is None
            },
            _ => next == FetchState::Ended && action == FetchAction::Fail(
                NotionError::NoDataSource,
            ),
        },
{
    if action is Send {
        assert(action->Send_0@.headers =~= seq![
            ("Authorization"@, "Bearer "@ + config.token@),
            ("Notion-Version"@, config.version@),
            ("Content-Type"@, "application/json"@),
        ]);
    }
}

/// The answer that is handed on is the whole answer to the query, and it is handed on exactly where
/// it is JSON and lists its results.
pub proof fn law_the_whole_answer_is_handed_on(
    config: NotionConfig,
    body: Vec<u8>,
    next: FetchState,
    action: FetchAction,
)
    requires
        fetch_follows(config, FetchState::QueryBody, FetchEvent::Body(body), next, action),
    ensures
        next == FetchState::Ended,
        parsed(body@) is None ==> action == FetchAction::Abort(Unusable::NotJson),
        parsed(body@) matches Some(answer) ==> {
            &&& answer.field("results"@) is Array ==> action is Pages && contents(action->Pages_0)
                == answer
            &&& !(answer.field("results"@) is Array) ==> action == FetchAction::Abort(
                Unusable::NoResults,
            )
        },
{
}

/// The data source of a database is the first that it names.
pub proof fn law_which_data_source_is_meant(database: Json)
    ensures
        data_source_of(database) == database.field("data_sources"@).item(0).field("id"@),
{
}

/// What is said of each error.
pub proof fn law_what_is_said_of_errors(error: NotionError)
    ensures
        match error {
            NotionError::RequestFailed => error_message(error) == "Notion API 요청 실패"@,
            NotionError::InvalidBody => error_message(error) == "error decoding response body"@,
            NotionError::NoDataSource => error_message(error)
                == "Notion API 응답에서 데이터 소스 ID를 추출하는 데 실패했습니다."@,
        },
{
}

} // verus!
