//! Projects as Notion keeps them.

use crate::integration::notion::member::{member_or_unknown, member_views, MemberView, NotionMember};
use crate::json::{self, contents, Json};
use crate::text::{same_text, texts};
use serde_json::Value;
use vstd::prelude::*;

verus! {

/// How far a project has come.
#[derive(Debug, Clone, Copy, PartialEq, Eq, Structural)]
pub enum Status {
    NotStarted,
    InProgress,
    Maintenance,
    Completed,
}

/// The status that a label stands for. A label that is not known stands for a project that has
/// not started.
pub open spec fn status_of(label: Seq<char>) -> Status {
    if label == "진행 중"@ {
        Status::InProgress
    } else if label == "유지보수"@ {
        Status::Maintenance
    } else if label == "완료"@ {
        Status::Completed
    } else {
        Status::NotStarted
    }
}

/// The label under which Notion shows a status.
pub open spec fn label_of(status: Status) -> Seq<char> {
    match status {
        Status::NotStarted => "시작 전"@,
        Status::InProgress => "진행 중"@,
        Status::Maintenance => "유지보수"@,
        Status::Completed => "완료"@,
    }
}

impl<'a> From<&'a str> for Status {
    fn from(value: &'a str) -> (status: Self) {
        if same_text(value, "진행 중") {
            Status::InProgress
        } else if same_text(value, "유지보수") {
            Status::Maintenance
        } else if same_text(value, "완료") {
            Status::Completed
        } else {
            Status::NotStarted
        }
    }
}

impl<'a> vstd::std_specs::convert::FromSpecImpl<&'a str> for Status {
    open spec fn obeys_from_spec() -> bool {
        true
    }

    open spec fn from_spec(value: &'a str) -> Self {
        status_of(value@)
    }
}

impl Default for Status {
    fn default() -> (status: Self)
        ensures
            status == Status::NotStarted,
    {
        Status::NotStarted
    }
}

impl Status {
    /// The label under which Notion shows the status.
    pub fn label(&self) -> (label: &'static str)
        ensures
            label@ == label_of(*self),
    {
        match self {
            Status::NotStarted => "시작 전",
            Status::InProgress => "진행 중",
            Status::Maintenance => "유지보수",
            Status::Completed => "완료",
        }
    }
}

/// Every status is read back from its label.
pub proof fn law_status_round_trip(status: Status)
    ensures
        status_of(label_of(status)) == status,
{
    reveal_strlit("시작 전");
    reveal_strlit("진행 중");
    reveal_strlit("유지보수");
    reveal_strlit("완료");
    assert("시작 전"@[0] != "진행 중"@[0]);
    assert("시작 전"@[0] != "유지보수"@[0]);
    assert("진행 중"@[0] != "유지보수"@[0]);
    assert("완료"@.len() == 2);
}

/// A project with the people who work on it and the Discord category that belongs to it.
#[derive(Debug)]
pub struct Project {
    pub id: String,
    pub name: String,
    pub status: Status,
    pub github: String,
    pub pm: NotionMember,
    pub participants: Vec<NotionMember>,
    pub category_id: String,
}

/// What a project holds.
#[verifier::ext_equal]
pub struct ProjectView {
    pub id: Seq<char>,
    pub name: Seq<char>,
    pub status: Status,
    pub github: Seq<char>,
    pub pm: MemberView,
    pub participants: Seq<MemberView>,
    pub category_id: Seq<char>,
}

impl View for Project {
    type V = ProjectView;

    open spec fn view(&self) -> ProjectView {
        ProjectView {
            id: self.id@,
            name: self.name@,
            status: self.status,
            github: self.github@,
            pm: self.pm@,
            participants: member_views(self.participants@),
            category_id: self.category_id@,
        }
    }
}

impl ProjectView {
    /// A project of which nothing is known.
    pub open spec fn unknown() -> ProjectView {
        ProjectView {
            id: Seq::empty(),
            name: Seq::empty(),
            status: Status::NotStarted,
            github: Seq::empty(),
            pm: MemberView::unknown(),
            participants: Seq::empty(),
            category_id: Seq::empty(),
        }
    }
}

impl Default for Project {
    fn default() -> (project: Self)
        ensures
            project@ == ProjectView::unknown(),
    {
        let participants: Vec<NotionMember> = Vec::new();
        assert(member_views(participants@) =~= Seq::<MemberView>::empty());
        Project {
            id: String::new(),
            name: String::new(),
            status: Status::NotStarted,
            github: String::new(),
            pm: NotionMember::default(),
            participants,
            category_id: String::new(),
        }
    }
}

impl Clone for Project {
    fn clone(&self) -> (copy: Self)
        ensures
            copy@ == self@,
    {
        let participants = self.participants.clone();
        assert(participants@ =~= self.participants@);
        Project {
            id: self.id.clone(),
            name: self.name.clone(),
            status: self.status,
            github: self.github.clone(),
            pm: self.pm.clone(),
            participants,
            category_id: self.category_id.clone(),
        }
    }
}

/// The value of a property of a Notion page.
pub open spec fn property(page: Json, name: Seq<char>) -> Json {
    page.field("properties"@).field(name)
}

/// The Notion id of the member who manages the project of a page.
pub open spec fn pm_id_of(page: Json) -> Seq<char> {
    property(page, "PM"@).field("people"@).item(0).field("id"@).text()
}

/// The Notion ids of the members who take part in the project of a page.
pub open spec fn participant_ids_of(page: Json) -> Seq<Seq<char>> {
    let people = property(page, "participants"@).field("people"@).items();
    Seq::new(people.len(), |i: int| people[i].field("id"@).text())
}

/// The project that a Notion page describes, where its people have been looked up.
pub open spec fn project_of(
    page: Json,
    pm: Option<NotionMember>,
    participants: Seq<Option<NotionMember>>,
) -> ProjectView {
    ProjectView {
        id: page.field("id"@).text(),
        name: property(page, "name"@).field("title"@).item(0).field("text"@).field(
            "content"@,
        ).text(),
        status: status_of(property(page, "status"@).field("select"@).field("name"@).text()),
        github: property(page, "github"@).field("url"@).text(),
        pm: member_or_unknown(pm),
        participants: Seq::new(
            participants.len(),
            |i: int| member_or_unknown(participants[i]),
        ),
        category_id: property(page, "category_id"@).field("rich_text"@).item(0).field(
            "text"@,
        ).field("content"@).text(),
    }
}

/// The text of the first piece of a rich text property.
fn first_piece<'a>(property: &'a Value, kind: &str) -> (piece: &'a Value)
    ensures
        contents(*piece) == contents(*property).field(kind@).item(0).field("text"@).field(
            "content"@,
        ),
{
    json::field(json::field(json::item(json::field(property, kind), 0), "text"), "content")
}

impl Project {
    /// The Notion id of the member who manages the project of a page.
    pub fn pm_id(value: &Value) -> (id: String)
        ensures
            id@ == pm_id_of(contents(*value)),
    {
        let pm = json::field(json::field(value, "properties"), "PM");
        let person = json::item(json::field(pm, "people"), 0);
        json::text_or_empty(json::field(person, "id"))
    }

    /// The Notion ids of the members who take part in the project of a page.
    pub fn participant_ids(value: &Value) -> (ids: Vec<String>)
        ensures
            texts(ids@) == participant_ids_of(contents(*value)),
    {
        let participants = json::field(json::field(value, "properties"), "participants");
        let mut ids: Vec<String> = Vec::new();
        match json::as_items(json::field(participants, "people")) {
            Some(people) => {
                let mut next: usize = 0;
                while next < people.len()
                    invariant
                        next <= people.len(),
                        ids.len() == next,
                        forall|i: int|
                            0 <= i < next ==> (#[trigger] ids[i])@ == contents(people[i]).field(
                                "id"@,
                            ).text(),
                    decreases people.len() - next,
                {
                    ids.push(json::text_or_empty(json::field(&people[next], "id")));
                    next = next + 1;
                }
            },
            None => {},
        }
        assert(texts(ids@) =~= participant_ids_of(contents(*value)));
        ids
    }

    /// The project that a Notion page describes. `pm` and `participants` are what the look-ups of
    /// [`Project::pm_id`] and [`Project::participant_ids`] came back with, in that order; a member
    /// who was not found is replaced by an unknown one.
    pub fn from_value(
        value: &Value,
        pm: Option<NotionMember>,
        participants: Vec<Option<NotionMember>>,
    ) -> (project: Self)
        ensures
            project@ == project_of(contents(*value), pm, participants@),
    {
        Self::read_page(value, &pm, &participants)
    }

    /// The project that a Notion page describes, where its people have been looked up.
    pub(crate) fn read_page(
        value: &Value,
        pm: &Option<NotionMember>,
        participants: &Vec<Option<NotionMember>>,
    ) -> (project: Self)
        ensures
            project@ == project_of(contents(*value), *pm, participants@),
    {
        let properties = json::field(value, "properties");
        let mut people: Vec<NotionMember> = Vec::new();
        let mut next: usize = 0;
        while next < participants.len()
            invariant
                next <= participants.len(),
                people.len() == next,
                forall|i: int|
                    0 <= i < next ==> (#[trigger] people[i])@ == member_or_unknown(participants[i]),
            decreases participants.len() - next,
        {
            let member = match &participants[next] {
                Some(found) => found.clone(),
                None => NotionMember::default(),
            };
            people.push(member);
            next = next + 1;
        }
        let status = json::text_or_empty(
            json::field(json::field(json::field(properties, "status"), "select"), "name"),
        );
        let project = Project {
            id: json::text_or_empty(json::field(value, "id")),
            name: json::text_or_empty(first_piece(json::field(properties, "name"), "title")),
            status: Status::from(status.as_str()),
            github: json::text_or_empty(json::field(json::field(properties, "github"), "url")),
            pm: match pm {
                Some(found) => found.clone(),
                None => NotionMember::default(),
            },
            participants: people,
            category_id: json::text_or_empty(
                first_piece(json::field(properties, "category_id"), "rich_text"),
            ),
        };
        assert(project@.participants =~= project_of(
            contents(*value),
            *pm,
            participants@,
        ).participants);
        project
    }

    /// A project that has just been thought of.
    pub fn default() -> (project: Self)
        ensures
            project@ == (ProjectView {
                github: "https://github.com/"@,
                category_id: "category_id"@,
                ..ProjectView::unknown()
            }),
    {
        let participants: Vec<NotionMember> = Vec::new();
        assert(member_views(participants@) =~= Seq::<MemberView>::empty());
        Project {
            id: String::new(),
            name: String::new(),
            status: Status::NotStarted,
            github: "https://github.com/".to_string(),
            pm: NotionMember::default(),
            participants,
            category_id: "category_id".to_string(),
        }
    }
}

/// The labels under which Notion shows the statuses.
pub proof fn law_the_labels_of_the_statuses(status: Status)
    ensures
        match status {
            Status::NotStarted => label_of(status) == "시작 전"@,
            Status::InProgress => label_of(status) == "진행 중"@,
            Status::Maintenance => label_of(status) == "유지보수"@,
            Status::Completed => label_of(status) == "완료"@,
        },
{
}

/// A status other than that of a project that has not started is read from its own label alone.
pub proof fn law_what_a_label_stands_for(label: Seq<char>)
    ensures
        status_of(label) == Status::InProgress <==> label == "진행 중"@,
        status_of(label) == Status::Maintenance <==> label == "유지보수"@,
        status_of(label) == Status::Completed <==> label == "완료"@,
{
    reveal_strlit("진행 중");
    reveal_strlit("유지보수");
    reveal_strlit("완료");
    assert("진행 중"@[0] != "유지보수"@[0]);
    assert("진행 중"@.len() == 4);
    assert("유지보수"@.len() == 4);
    assert("완료"@.len() == 2);
}

/// What is said of a project is said of all that it holds.
pub proof fn law_the_view_of_a_project_is_whole(project: Project)
    ensures
        project@.id == project.id@,
        project@.name == project.name@,
        project@.status == project.status,
        project@.github == project.github@,
        project@.pm == project.pm@,
        project@.participants.len() == project.participants@.len(),
        forall|i: int|
            0 <= i < project.participants@.len() ==> project@.participants[i] == (
            #[trigger] project.participants@[i])@,
        project@.category_id == project.category_id@,
{
}

/// A project of which nothing is known has not started and has nothing else.
pub proof fn law_an_unknown_project_is_empty()
    ensures
        ProjectView::unknown().id.len() == 0,
        ProjectView::unknown().name.len() == 0,
        ProjectView::unknown().status == Status::NotStarted,
        ProjectView::unknown().github.len() == 0,
        ProjectView::unknown().pm.id.len() == 0,
        ProjectView::unknown().pm.name.len() == 0,
        ProjectView::unknown().pm.discord_id.len() == 0,
        ProjectView::unknown().participants.len() == 0,
        ProjectView::unknown().category_id.len() == 0,
{
}

/// The people of a project that is read from a page are the members who were looked up for it, in
/// every field and in their order; a member who was not found is replaced by one of whom nothing is
/// known.
pub proof fn law_the_people_of_a_page_are_those_looked_up(
    page: Json,
    pm: Option<NotionMember>,
    participants: Seq<Option<NotionMember>>,
)
    ensures
        pm matches Some(member) ==> {
            &&& project_of(page, pm, participants).pm.id == member.id@
            &&& project_of(page, pm, participants).pm.name == member.name@
            &&& project_of(page, pm, participants).pm.discord_id == member.discord_id@
        },
        pm is None ==> {
            &&& project_of(page, pm, participants).pm.id.len() == 0
            &&& project_of(page, pm, participants).pm.name.len() == 0
            &&& project_of(page, pm, participants).pm.discord_id.len() == 0
        },
        project_of(page, pm, participants).participants.len() == participants.len(),
        forall|i: int|
            0 <= i < participants.len() ==> match #[trigger] participants[i] {
                Some(member) => {
                    let read = project_of(page, pm, participants).participants[i];
                    read.id == member.id@ && read.name == member.name@ && read.discord_id
                        == member.discord_id@
                },
                None => {
                    let read = project_of(page, pm, participants).participants[i];
                    read.id.len() == 0 && read.name.len() == 0 && read.discord_id.len() == 0
                },
            },
{
}

/// Where a page keeps what a project holds: under which properties, and at which place in them.
/// Every text that is not there is empty.
pub proof fn law_where_a_page_keeps_a_project(
    page: Json,
    pm: Option<NotionMember>,
    participants: Seq<Option<NotionMember>>,
)
    ensures
        ({
            let properties = page.field("properties"@);
            let project = project_of(page, pm, participants);
            let people = properties.field("participants"@).field("people"@);
            &&& project.id == page.field("id"@).text()
            &&& project.name == properties.field("name"@).field("title"@).item(0).field(
                "text"@,
            ).field("content"@).text()
            &&& project.status == status_of(
                properties.field("status"@).field("select"@).field("name"@).text(),
            )
            &&& project.github == properties.field("github"@).field("url"@).text()
            &&& project.category_id == properties.field("category_id"@).field(
                "rich_text"@,
            ).item(0).field("text"@).field("content"@).text()
            &&& pm_id_of(page) == properties.field("PM"@).field("people"@).item(0).field(
                "id"@,
            ).text()
            &&& participant_ids_of(page).len() == people.items().len()
            &&& forall|i: int|
                0 <= i < people.items().len() ==> #[trigger] participant_ids_of(page)[i]
                    == people.item(i).field("id"@).text()
        }),
{
}

} // verus!
