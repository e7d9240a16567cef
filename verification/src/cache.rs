//! The members and projects that the bot has fetched, with indexes into them.
//!
//! Fetching is left to the caller. A look-up that misses asks for a refresh once and is repeated
//! after it.

use crate::integration::notion::member::{MemberView, NotionMember};
use crate::integration::notion::project::{Project, ProjectView};
use crate::text::{convert_string_to_discord_id, discord_id};
use std::collections::HashMap;
use vstd::hash_map::StringHashMap;
use vstd::prelude::*;

verus! {

broadcast use vstd::std_specs::hash::group_hash_axioms;

/// The place of the last member with a Discord id.
pub open spec fn last_member(members: Seq<NotionMember>, user_id: u64) -> Option<int>
    decreases members.len(),
{
    if members.len() == 0 {
        None
    } else if discord_id(members.last().discord_id@) == Some(user_id) {
        Some(members.len() - 1)
    } else {
        last_member(members.drop_last(), user_id)
    }
}

/// The place of the last project with a name.
pub open spec fn last_named(projects: Seq<Project>, name: Seq<char>) -> Option<int>
    decreases projects.len(),
{
    if projects.len() == 0 {
        None
    } else if projects.last().name@ == name {
        Some(projects.len() - 1)
    } else {
        last_named(projects.drop_last(), name)
    }
}

/// The place of the last project with a Notion id.
pub open spec fn last_with_id(projects: Seq<Project>, id: Seq<char>) -> Option<int>
    decreases projects.len(),
{
    if projects.len() == 0 {
        None
    } else if projects.last().id@ == id {
        Some(projects.len() - 1)
    } else {
        last_with_id(projects.drop_last(), id)
    }
}

/// Whether `index` leads from each Discord id to the last member with it, and from nothing else.
pub open spec fn indexes_members(index: Map<u64, usize>, members: Seq<NotionMember>) -> bool {
    forall|user_id: u64|
        #![trigger index.contains_key(user_id)]
        #![trigger last_member(members, user_id)]
        {
            &&& index.contains_key(user_id) <==> last_member(members, user_id) is Some
            &&& index.contains_key(user_id) ==> index[user_id] as int == last_member(
                members,
                user_id,
            )->0
        }
}

/// Whether `index` leads from each name to the Notion id of the last project with it, and from
/// nothing else.
pub open spec fn indexes_names(index: Map<Seq<char>, String>, projects: Seq<Project>) -> bool {
    forall|name: Seq<char>|
        #![trigger index.contains_key(name)]
        #![trigger last_named(projects, name)]
        {
            &&& index.contains_key(name) <==> last_named(projects, name) is Some
            &&& index.contains_key(name) ==> index[name]@ == projects[last_named(
                projects,
                name,
            )->0].id@
        }
}

/// Whether `index` leads from each Notion id to the last project with it, and from nothing else.
pub open spec fn indexes_ids(index: Map<Seq<char>, usize>, projects: Seq<Project>) -> bool {
    forall|id: Seq<char>|
        #![trigger index.contains_key(id)]
        #![trigger last_with_id(projects, id)]
        {
            &&& index.contains_key(id) <==> last_with_id(projects, id) is Some
            &&& index.contains_key(id) ==> index[id] as int == last_with_id(projects, id)->0
        }
}

/// Where a member was found, there is one, and none after it has the id.
proof fn lemma_last_member(members: Seq<NotionMember>, user_id: u64)
    ensures
        match last_member(members, user_id) {
            Some(i) => 0 <= i < members.len() && discord_id(members[i].discord_id@) == Some(
                user_id,
            ) && forall|j: int|
                i < j < members.len() ==> discord_id((#[trigger] members[j]).discord_id@) != Some(
                    user_id,
                ),
            None => forall|j: int|
                0 <= j < members.len() ==> discord_id((#[trigger] members[j]).discord_id@) != Some(
                    user_id,
                ),
        },
    decreases members.len(),
{
    if members.len() > 0 && discord_id(members.last().discord_id@) != Some(user_id) {
        lemma_last_member(members.drop_last(), user_id);
        assert forall|j: int| 0 <= j < members.len() - 1 implies #[trigger] members[j]
            == members.drop_last()[j] by {}
    }
}

/// Where a project was found by its name, there is one, and none after it has the name.
proof fn lemma_last_named(projects: Seq<Project>, name: Seq<char>)
    ensures
        match last_named(projects, name) {
            Some(i) => 0 <= i < projects.len() && projects[i].name@ == name && forall|j: int|
                i < j < projects.len() ==> (#[trigger] projects[j]).name@ != name,
            None => forall|j: int| 0 <= j < projects.len() ==> (#[trigger] projects[j]).name@ != name,
        },
    decreases projects.len(),
{
    if projects.len() > 0 && projects.last().name@ != name {
        lemma_last_named(projects.drop_last(), name);
        assert forall|j: int| 0 <= j < projects.len() - 1 implies #[trigger] projects[j]
            == projects.drop_last()[j] by {}
    }
}

/// Where a project was found by its id, there is one, and none after it has the id.
proof fn lemma_last_with_id(projects: Seq<Project>, id: Seq<char>)
    ensures
        match last_with_id(projects, id) {
            Some(i) => 0 <= i < projects.len() && projects[i].id@ == id && forall|j: int|
                i < j < projects.len() ==> (#[trigger] projects[j]).id@ != id,
            None => forall|j: int| 0 <= j < projects.len() ==> (#[trigger] projects[j]).id@ != id,
        },
    decreases projects.len(),
{
    if projects.len() > 0 && projects.last().id@ != id {
        lemma_last_with_id(projects.drop_last(), id);
        assert forall|j: int| 0 <= j < projects.len() - 1 implies #[trigger] projects[j]
            == projects.drop_last()[j] by {}
    }
}

/// What came of a look-up.
pub enum Lookup<T> {
    /// The value was there.
    Found(T),
    /// It was not, and the cache is to be refreshed before the look-up is repeated.
    Refresh,
    /// It was not there after a refresh either.
    Missing,
}

/// How far the look-up of a project by its name has come.
pub enum ProjectQuery {
    /// The id is looked up by the name.
    ByName { refreshed: bool },
    /// The project is looked up by the id.
    ById { id: String, refreshed: bool },
}

/// What came of the look-up of a project by its name.
pub enum ProjectLookup {
    Found(Project),
    /// The cache is to be refreshed before the look-up goes on from here.
    Refresh(ProjectQuery),
    Missing,
}

/// What a look-up makes of a value that may be there.
pub open spec fn lookup_of<T>(value: Option<T>, refreshed: bool) -> Lookup<T> {
    match value {
        Some(found) => Lookup::Found(found),
        None => if refreshed {
            Lookup::Missing
        } else {
            Lookup::Refresh
        },
    }
}

/// The members and projects that the bot shares among its commands.
pub struct BotCache {
    pub user_id_to_index: HashMap<u64, usize>,
    pub all_members: Vec<NotionMember>,
    pub project_name_to_id: StringHashMap<String>,
    pub project_id_to_index: StringHashMap<usize>,
    pub all_projects: Vec<Project>,
}

impl BotCache {
    /// Whether the index of the members belongs to the members that are held.
    pub open spec fn members_indexed(self) -> bool {
        indexes_members(self.user_id_to_index@, self.all_members@)
    }

    /// Whether the indexes of the projects belong to the projects that are held.
    pub open spec fn projects_indexed(self) -> bool {
        &&& indexes_names(self.project_name_to_id@, self.all_projects@)
        &&& indexes_ids(self.project_id_to_index@, self.all_projects@)
    }

    /// Whether the indexes belong to what is held.
    pub open spec fn well_formed(self) -> bool {
        self.members_indexed() && self.projects_indexed()
    }

    /// The member with a Discord id: the last one that has it.
    pub open spec fn member_by_user_id(self, user_id: u64) -> Option<MemberView> {
        match last_member(self.all_members@, user_id) {
            Some(i) => Some(self.all_members@[i]@),
            None => None,
        }
    }

    /// The Notion id that belongs to a project name: that of the last project with the name.
    pub open spec fn project_id_by_name(self, name: Seq<char>) -> Option<Seq<char>> {
        match last_named(self.all_projects@, name) {
            Some(i) => Some(self.all_projects@[i].id@),
            None => None,
        }
    }

    /// The project with a Notion id: the last one that has it.
    pub open spec fn project_by_id(self, id: Seq<char>) -> Option<ProjectView> {
        match last_with_id(self.all_projects@, id) {
            Some(i) => Some(self.all_projects@[i]@),
            None => None,
        }
    }

    /// A cache that holds nothing yet.
    pub fn new() -> (cache: Self)
        ensures
            cache.well_formed(),
            cache.all_members@ == Seq::<NotionMember>::empty(),
            cache.all_projects@ == Seq::<Project>::empty(),
    {
        BotCache {
            user_id_to_index: HashMap::new(),
            all_members: Vec::new(),
            project_name_to_id: StringHashMap::new(),
            project_id_to_index: StringHashMap::new(),
            all_projects: Vec::new(),
        }
    }

    /// Decides how a look-up goes on: a value that is there is the answer, and one that is not is
    /// looked up again after a refresh, once.
    pub fn get_or_refresh<T>(value: Option<T>, refreshed: bool) -> (lookup: Lookup<T>)
        ensures
            lookup == lookup_of(value, refreshed),
    {
        match value {
            Some(found) => Lookup::Found(found),
            None => if refreshed {
                Lookup::Missing
            } else {
                Lookup::Refresh
            },
        }
    }

    /// Looks up the member with a Discord id. `refreshed` tells whether the members have been
    /// refreshed for this look-up.
    pub fn get_member_by_user_id(&self, user_id: u64, refreshed: bool) -> (lookup: Lookup<
        NotionMember,
    >)
        requires
            self.members_indexed(),
        ensures
            match self.member_by_user_id(user_id) {
                Some(member) => lookup is Found && lookup->Found_0@ == member,
                None => lookup == lookup_of(None::<NotionMember>, refreshed),
            },
    {
        proof {
            lemma_last_member(self.all_members@, user_id);
        }
        let member = match self.user_id_to_index.get(&user_id) {
            Some(index) => Some(self.all_members[*index].clone()),
            None => None,
        };
        Self::get_or_refresh(member, refreshed)
    }

    /// Looks up the Notion id that belongs to a project name.
    pub fn get_project_id_by_name(&self, project_name: &str, refreshed: bool) -> (lookup: Lookup<
        String,
    >)
        requires
            self.projects_indexed(),
        ensures
            match self.project_id_by_name(project_name@) {
                Some(id) => lookup is Found && lookup->Found_0@ == id,
                None => lookup == lookup_of(None::<String>, refreshed),
            },
    {
        let id = match self.project_name_to_id.get(project_name) {
            Some(id) => Some(id.clone()),
            None => None,
        };
        assert(self.project_name_to_id@.contains_key(project_name@) == (id is Some));
        Self::get_or_refresh(id, refreshed)
    }

    /// Looks up the project with a Notion id.
    pub fn get_project_by_id(&self, project_id: &str, refreshed: bool) -> (lookup: Lookup<Project>)
        requires
            self.projects_indexed(),
        ensures
            match self.project_by_id(project_id@) {
                Some(project) => lookup is Found && lookup->Found_0@ == project,
                None => lookup == lookup_of(None::<Project>, refreshed),
            },
    {
        proof {
            lemma_last_with_id(self.all_projects@, project_id@);
        }
        let project = match self.project_id_to_index.get(project_id) {
            Some(index) => Some(self.all_projects[*index].clone()),
            None => None,
        };
        Self::get_or_refresh(project, refreshed)
    }

    /// Whether a project of that name is known.
    pub fn knows_project(&self, name: &str) -> (known: bool)
        requires
            self.projects_indexed(),
        ensures
            known == (self.project_id_by_name(name@) is Some),
    {
        self.project_name_to_id.contains_key(name)
    }

    /// Looks up a project by its name, from where `query` has got to: first the id that belongs to
    /// the name, then the project with that id. Each of the two asks for one refresh where it
    /// misses.
    pub fn get_project_by_name(&self, project_name: &str, query: ProjectQuery) -> (lookup:
        ProjectLookup)
        requires
            self.projects_indexed(),
        ensures
            project_lookup_follows(*self, project_name@, query, lookup),
    {
        match query {
            ProjectQuery::ByName { refreshed } => {
                match self.get_project_id_by_name(project_name, refreshed) {
                    Lookup::Found(id) => self.find_project(id, false),
                    Lookup::Refresh => ProjectLookup::Refresh(
                        ProjectQuery::ByName { refreshed: true },
                    ),
                    Lookup::Missing => ProjectLookup::Missing,
                }
            },
            ProjectQuery::ById { id, refreshed } => self.find_project(id, refreshed),
        }
    }

    /// The second half of the look-up of a project by its name.
    fn find_project(&self, id: String, refreshed: bool) -> (lookup: ProjectLookup)
        requires
            self.projects_indexed(),
        ensures
            project_found_by_id(*self, id@, refreshed, lookup),
    {
        match self.get_project_by_id(id.as_str(), refreshed) {
            Lookup::Found(project) => ProjectLookup::Found(project),
            Lookup::Refresh => ProjectLookup::Refresh(ProjectQuery::ById { id, refreshed: true }),
            Lookup::Missing => ProjectLookup::Missing,
        }
    }

    /// Takes over the projects that were fetched. Where they could not be fetched, the cache stays
    /// as it is and the error is handed on.
    pub fn refresh_about_project<E>(&mut self, fetched: Result<Vec<Project>, E>) -> (outcome:
        Result<(), E>)
        ensures
            match fetched {
                Ok(projects) => {
                    &&& outcome is Ok
                    &&& final(self).projects_indexed()
                    &&& final(self).all_projects == projects
                    &&& final(self).user_id_to_index == old(self).user_id_to_index
                    &&& final(self).all_members == old(self).all_members
                    &&& old(self).members_indexed() ==> final(self).members_indexed()
                },
                Err(error) => outcome == Err::<(), E>(error) && *final(self) == *old(self),
            },
    {
        let projects = match fetched {
            Ok(projects) => projects,
            Err(error) => return Err(error),
        };
        self.project_name_to_id.clear();
        self.project_id_to_index.clear();
        let mut index: usize = 0;
        assert(projects@.take(0) =~= Seq::<Project>::empty());
        while index < projects.len()
            invariant
                index <= projects.len(),
                indexes_names(self.project_name_to_id@, projects@.take(index as int)),
                indexes_ids(self.project_id_to_index@, projects@.take(index as int)),
                self.user_id_to_index == old(self).user_id_to_index,
                self.all_members == old(self).all_members,
            decreases projects.len() - index,
        {
            let ghost seen = projects@.take(index as int);
            let ghost longer = projects@.take(index + 1);
            let ghost names = self.project_name_to_id@;
            let ghost ids = self.project_id_to_index@;
            let project = &projects[index];
            self.project_name_to_id.insert(project.name.clone(), project.id.clone());
            self.project_id_to_index.insert(project.id.clone(), index);
            proof {
                assert(longer.drop_last() =~= seen);
                assert forall|name: Seq<char>|
                    #![trigger self.project_name_to_id@.contains_key(name)]
                    #![trigger last_named(longer, name)]
                    {
                        &&& self.project_name_to_id@.contains_key(name) <==> last_named(
                            longer,
                            name,
                        ) is Some
                        &&& self.project_name_to_id@.contains_key(name)
                            ==> self.project_name_to_id@[name]@ == longer[last_named(
                            longer,
                            name,
                        )->0].id@
                    } by {
                    lemma_last_named(seen, name);
                    assert(names.contains_key(name) <==> last_named(seen, name) is Some);
                }
                assert forall|id: Seq<char>|
                    #![trigger self.project_id_to_index@.contains_key(id)]
                    #![trigger last_with_id(longer, id)]
                    {
                        &&& self.project_id_to_index@.contains_key(id) <==> last_with_id(
                            longer,
                            id,
                        ) is Some
                        &&& self.project_id_to_index@.contains_key(id)
                            ==> self.project_id_to_index@[id] as int == last_with_id(longer, id)->0
                    } by {
                    assert(ids.contains_key(id) <==> last_with_id(seen, id) is Some);
                }
            }
            index = index + 1;
        }
        assert(projects@.take(index as int) =~= projects@);
        self.all_projects = projects;
        Ok(())
    }

    /// Takes over the members that were fetched; one whose Discord id cannot be read is held but
    /// not indexed. Where they could not be fetched, the cache stays as it is and the error is
    /// handed on.
    pub fn refresh_about_member<E>(&mut self, fetched: Result<Vec<NotionMember>, E>) -> (outcome:
        Result<(), E>)
        ensures
            match fetched {
                Ok(members) => {
                    &&& outcome is Ok
                    &&& final(self).members_indexed()
                    &&& final(self).all_members == members
                    &&& final(self).project_name_to_id == old(self).project_name_to_id
                    &&& final(self).project_id_to_index == old(self).project_id_to_index
                    &&& final(self).all_projects == old(self).all_projects
                    &&& old(self).projects_indexed() ==> final(self).projects_indexed()
                },
                Err(error) => outcome == Err::<(), E>(error) && *final(self) == *old(self),
            },
    {
        let members = match fetched {
            Ok(members) => members,
            Err(error) => return Err(error),
        };
        self.user_id_to_index.clear();
        let mut index: usize = 0;
        assert(members@.take(0) =~= Seq::<NotionMember>::empty());
        while index < members.len()
            invariant
                index <= members.len(),
                indexes_members(self.user_id_to_index@, members@.take(index as int)),
                self.project_name_to_id == old(self).project_name_to_id,
                self.project_id_to_index == old(self).project_id_to_index,
                self.all_projects == old(self).all_projects,
            decreases members.len() - index,
        {
            let ghost seen = members@.take(index as int);
            let ghost longer = members@.take(index + 1);
            let ghost ids = self.user_id_to_index@;
            match convert_string_to_discord_id(members[index].discord_id.as_str()) {
                Some(user_id) => {
                    self.user_id_to_index.insert(user_id, index);
                },
                None => {},
            }
            proof {
                assert(longer.drop_last() =~= seen);
                assert forall|user_id: u64|
                    #![trigger self.user_id_to_index@.contains_key(user_id)]
                    #![trigger last_member(longer, user_id)]
                    {
                        &&& self.user_id_to_index@.contains_key(user_id) <==> last_member(
                            longer,
                            user_id,
                        ) is Some
                        &&& self.user_id_to_index@.contains_key(user_id)
                            ==> self.user_id_to_index@[user_id] as int == last_member(
                            longer,
                            user_id,
                        )->0
                    } by {
                    assert(ids.contains_key(user_id) <==> last_member(seen, user_id) is Some);
                }
            }
            index = index + 1;
        }
        assert(members@.take(index as int) =~= members@);
        self.all_members = members;
        Ok(())
    }
}

/// Whether `lookup` is what comes of looking a project up by its id.
pub open spec fn project_found_by_id(
    cache: BotCache,
    id: Seq<char>,
    refreshed: bool,
    lookup: ProjectLookup,
) -> bool {
    match cache.project_by_id(id) {
        Some(project) => lookup is Found && lookup->Found_0@ == project,
        None => if refreshed {
            lookup is Missing
        } else {
            lookup is Refresh && lookup->Refresh_0 is ById && lookup->Refresh_0->id@ == id
                && lookup->Refresh_0->ById_refreshed
        },
    }
}

/// Whether `lookup` is what comes of looking a project up by its name, from where `query` has got
/// to.
pub open spec fn project_lookup_follows(
    cache: BotCache,
    name: Seq<char>,
    query: ProjectQuery,
    lookup: ProjectLookup,
) -> bool {
    match query {
        ProjectQuery::ByName { refreshed } => match cache.project_id_by_name(name) {
            Some(id) => project_found_by_id(cache, id, false, lookup),
            None => if refreshed {
                lookup is Missing
            } else {
                lookup == ProjectLookup::Refresh(ProjectQuery::ByName { refreshed: true })
            },
        },
        ProjectQuery::ById { id, refreshed } => project_found_by_id(cache, id@, refreshed, lookup),
    }
}

/// How many refreshes the look-up of a project by its name can still ask for.
pub open spec fn refreshes_left(query: ProjectQuery) -> nat {
    match query {
        ProjectQuery::ByName { refreshed } => if refreshed {
            1
        } else {
            2
        },
        ProjectQuery::ById { id, refreshed } => if refreshed {
            0
        } else {
            1
        },
    }
}

/// A look-up in the members or the projects never asks for a second refresh.
pub proof fn law_lookup_refreshes_once<T>(value: Option<T>)
    ensures
        !(lookup_of(value, true) is Refresh),
        lookup_of(value, false) is Refresh <==> value is None,
{
}

/// The look-up of a project by its name asks for two refreshes at most, whatever the cache holds
/// each time.
pub proof fn law_project_lookup_ends(
    cache: BotCache,
    name: Seq<char>,
    query: ProjectQuery,
    lookup: ProjectLookup,
)
    requires
        project_lookup_follows(cache, name, query, lookup),
    ensures
        lookup is Refresh ==> refreshes_left(lookup->Refresh_0) < refreshes_left(query),
{
}

/// A project that is held can be found by its name without a refresh: the name of every project
/// that is held leads to an id, and that id leads to a project.
pub proof fn law_held_projects_are_found(cache: BotCache, i: int, lookup: ProjectLookup)
    requires
        0 <= i < cache.all_projects@.len(),
        project_lookup_follows(
            cache,
            cache.all_projects@[i].name@,
            ProjectQuery::ByName { refreshed: false },
            lookup,
        ),
    ensures
        lookup is Found,
{
    let projects = cache.all_projects@;
    lemma_last_named(projects, projects[i].name@);
    let j = last_named(projects, projects[i].name@)->0;
    lemma_last_with_id(projects, projects[j].id@);
}

/// The look-up by a name gives the last project that has it, unless a later one has its id.
pub proof fn law_project_is_found_by_its_name(cache: BotCache, i: int, lookup: ProjectLookup)
    requires
        0 <= i < cache.all_projects@.len(),
        forall|j: int|
            i < j < cache.all_projects@.len() ==> (#[trigger] cache.all_projects@[j]).name@
                != cache.all_projects@[i].name@ && cache.all_projects@[j].id@
                != cache.all_projects@[i].id@,
        project_lookup_follows(
            cache,
            cache.all_projects@[i].name@,
            ProjectQuery::ByName { refreshed: false },
            lookup,
        ),
    ensures
        lookup is Found,
        lookup->Found_0@ == cache.all_projects@[i]@,
{
    let projects = cache.all_projects@;
    lemma_last_named(projects, projects[i].name@);
    let j = last_named(projects, projects[i].name@)->0;
    lemma_last_with_id(projects, projects[j].id@);
}

/// A member whose Discord id can be read is found by it, unless a later one has the same.
pub proof fn law_member_is_found_by_id(cache: BotCache, i: int, user_id: u64)
    requires
        0 <= i < cache.all_members@.len(),
        discord_id(cache.all_members@[i].discord_id@) == Some(user_id),
        forall|j: int|
            i < j < cache.all_members@.len() ==> discord_id(
                (#[trigger] cache.all_members@[j]).discord_id@,
            ) != Some(user_id),
    ensures
        cache.member_by_user_id(user_id) == Some(cache.all_members@[i]@),
{
    lemma_last_member(cache.all_members@, user_id);
}

/// Whoever is found by a Discord id is a member that is held, has that id, and is the last who has
/// it; nobody is found exactly where no member that is held has it.
pub proof fn law_which_member_is_found(cache: BotCache, user_id: u64)
    ensures
        match cache.member_by_user_id(user_id) {
            Some(member) => exists|i: int|
                0 <= i < cache.all_members@.len() && (#[trigger] cache.all_members@[i])@ == member
                    && discord_id(cache.all_members@[i].discord_id@) == Some(user_id) && forall|
                    j: int,
                |
                    i < j < cache.all_members@.len() ==> discord_id(
                        (#[trigger] cache.all_members@[j]).discord_id@,
                    ) != Some(user_id),
            None => forall|i: int|
                0 <= i < cache.all_members@.len() ==> discord_id(
                    (#[trigger] cache.all_members@[i]).discord_id@,
                ) != Some(user_id),
        },
{
    lemma_last_member(cache.all_members@, user_id);
    if last_member(cache.all_members@, user_id) is Some {
        let i = last_member(cache.all_members@, user_id)->0;
        assert(cache.all_members@[i]@ == cache.member_by_user_id(user_id)->0);
    }
}

/// The id that belongs to a project name is that of a project that is held and has the name, the
/// last one; there is none exactly where no project that is held has the name.
pub proof fn law_which_id_belongs_to_a_name(cache: BotCache, name: Seq<char>)
    ensures
        match cache.project_id_by_name(name) {
            Some(id) => exists|i: int|
                0 <= i < cache.all_projects@.len() && (#[trigger] cache.all_projects@[i]).id@ == id
                    && cache.all_projects@[i].name@ == name && forall|j: int|
                    i < j < cache.all_projects@.len() ==> (#[trigger] cache.all_projects@[j]).name@
                        != name,
            None => forall|i: int|
                0 <= i < cache.all_projects@.len() ==> (#[trigger] cache.all_projects@[i]).name@
                    != name,
        },
{
    lemma_last_named(cache.all_projects@, name);
    if last_named(cache.all_projects@, name) is Some {
        let i = last_named(cache.all_projects@, name)->0;
        assert(cache.all_projects@[i].id@ == cache.project_id_by_name(name)->0);
    }
}

/// The project that is found by an id is one that is held and has the id, the last one; none is
/// found exactly where no project that is held has the id.
pub proof fn law_which_project_has_an_id(cache: BotCache, id: Seq<char>)
    ensures
        match cache.project_by_id(id) {
            Some(project) => exists|i: int|
                0 <= i < cache.all_projects@.len() && (#[trigger] cache.all_projects@[i])@
                    == project && cache.all_projects@[i].id@ == id && forall|j: int|
                    i < j < cache.all_projects@.len() ==> (#[trigger] cache.all_projects@[j]).id@
                        != id,
            None => forall|i: int|
                0 <= i < cache.all_projects@.len() ==> (#[trigger] cache.all_projects@[i]).id@
                    != id,
        },
{
    lemma_last_with_id(cache.all_projects@, id);
    if last_with_id(cache.all_projects@, id) is Some {
        let i = last_with_id(cache.all_projects@, id)->0;
        assert(cache.all_projects@[i]@ == cache.project_by_id(id)->0);
    }
}

/// A look-up gives the value that is there; where there is none, it asks for a refresh first and
/// gives up after one.
pub proof fn law_what_a_look_up_gives<T>(value: T, refreshed: bool)
    ensures
        lookup_of(Some(value), refreshed) == Lookup::Found(value),
        lookup_of(None::<T>, false) == Lookup::<T>::Refresh,
        lookup_of(None::<T>, true) == Lookup::<T>::Missing,
{
}

/// The look-up of a project by its name gives the last project that has the id of the last project
/// of that name. Where no project that is held has the name, it asks for a refresh, once.
pub proof fn law_what_a_look_up_by_name_gives(
    cache: BotCache,
    name: Seq<char>,
    refreshed: bool,
    lookup: ProjectLookup,
    i: int,
    j: int,
)
    requires
        project_lookup_follows(cache, name, ProjectQuery::ByName { refreshed }, lookup),
    ensures
        (forall|k: int|
            0 <= k < cache.all_projects@.len() ==> (#[trigger] cache.all_projects@[k]).name@
                != name) ==> lookup == if refreshed {
            ProjectLookup::Missing
        } else {
            ProjectLookup::Refresh(ProjectQuery::ByName { refreshed: true })
        },
        0 <= i < cache.all_projects@.len() && cache.all_projects@[i].name@ == name && (forall|
            k: int,
        |
            i < k < cache.all_projects@.len() ==> (#[trigger] cache.all_projects@[k]).name@ != name)
            && 0 <= j < cache.all_projects@.len() && cache.all_projects@[j].id@
            == cache.all_projects@[i].id@ && (forall|k: int|
            j < k < cache.all_projects@.len() ==> (#[trigger] cache.all_projects@[k]).id@
                != cache.all_projects@[i].id@) ==> lookup is Found && lookup->Found_0@
            == cache.all_projects@[j]@,
{
    lemma_last_named(cache.all_projects@, name);
    if last_named(cache.all_projects@, name) is Some {
        let place = last_named(cache.all_projects@, name)->0;
        lemma_last_with_id(cache.all_projects@, cache.all_projects@[place].id@);
    }
}

/// The second half of that look-up gives the last project with the id. Where no project that is
/// held has the id, it asks for a refresh, once, and goes on with the same id.
pub proof fn law_what_a_look_up_by_id_gives(
    cache: BotCache,
    name: Seq<char>,
    id: String,
    refreshed: bool,
    lookup: ProjectLookup,
    j: int,
)
    requires
        project_lookup_follows(cache, name, ProjectQuery::ById { id, refreshed }, lookup),
    ensures
        (forall|k: int|
            0 <= k < cache.all_projects@.len() ==> (#[trigger] cache.all_projects@[k]).id@ != id@)
            ==> match lookup {
            ProjectLookup::Missing => refreshed,
            ProjectLookup::Refresh(ProjectQuery::ById { id: kept, refreshed: again }) => !refreshed
                && kept@ == id@ && again,
            _ => false,
        },
        0 <= j < cache.all_projects@.len() && cache.all_projects@[j].id@ == id@ && (forall|k: int|
            j < k < cache.all_projects@.len() ==> (#[trigger] cache.all_projects@[k]).id@ != id@)
            ==> lookup is Found && lookup->Found_0@ == cache.all_projects@[j]@,
{
    lemma_last_with_id(cache.all_projects@, id@);
}

} // verus!
