use project_bot::cache::{BotCache, Lookup, ProjectLookup, ProjectQuery};
use project_bot::integration::notion::member::NotionMember;
use project_bot::integration::notion::project::Project;

fn member(name: &str, discord_id: &str) -> NotionMember {
    NotionMember {
        id: String::new(),
        name: name.to_string(),
        discord_id: discord_id.to_string(),
    }
}

fn project(id: &str, name: &str) -> Project {
    Project { id: id.to_string(), name: name.to_string(), ..Default::default() }
}

fn cache_of(projects: Vec<Project>, members: Vec<NotionMember>) -> BotCache {
    let mut cache = BotCache::new();
    assert!(cache.refresh_about_project::<()>(Ok(projects)).is_ok());
    assert!(cache.refresh_about_member::<()>(Ok(members)).is_ok());
    cache
}

fn found<T>(lookup: Lookup<T>) -> T {
    match lookup {
        Lookup::Found(value) => value,
        _ => panic!("nothing was found"),
    }
}

fn found_project(lookup: ProjectLookup) -> Project {
    match lookup {
        ProjectLookup::Found(project) => project,
        _ => panic!("no project was found"),
    }
}

#[test]
fn a_new_cache_knows_nothing() {
    let cache = BotCache::new();
    assert!(cache.all_members.is_empty());
    assert!(cache.all_projects.is_empty());
    assert!(!cache.knows_project("a"));
    assert!(matches!(cache.get_member_by_user_id(1, false), Lookup::Refresh));
}

#[test]
fn a_look_up_asks_for_one_refresh() {
    assert!(matches!(BotCache::get_or_refresh(Some(5), false), Lookup::Found(5)));
    assert!(matches!(BotCache::get_or_refresh(Some(5), true), Lookup::Found(5)));
    assert!(matches!(BotCache::get_or_refresh(None::<u8>, false), Lookup::Refresh));
    assert!(matches!(BotCache::get_or_refresh(None::<u8>, true), Lookup::Missing));
}

#[test]
fn members_are_found_by_their_discord_ids() {
    let cache = cache_of(vec![], vec![member("a", "11"), member("b", "x"), member("c", "12")]);
    assert_eq!(found(cache.get_member_by_user_id(11, false)).name, "a");
    assert_eq!(found(cache.get_member_by_user_id(12, true)).name, "c");
    assert!(matches!(cache.get_member_by_user_id(13, true), Lookup::Missing));
    assert_eq!(cache.all_members.len(), 3);
}

#[test]
fn the_last_member_with_an_id_is_found() {
    let cache = cache_of(vec![], vec![member("a", "11"), member("b", "+11")]);
    assert_eq!(found(cache.get_member_by_user_id(11, false)).name, "b");
}

#[test]
fn projects_are_found_by_name_and_by_id() {
    let cache = cache_of(vec![project("p1", "alpha"), project("p2", "beta")], vec![]);
    assert!(cache.knows_project("alpha"));
    assert!(!cache.knows_project("Alpha"));
    assert_eq!(found(cache.get_project_id_by_name("beta", false)), "p2");
    assert_eq!(found(cache.get_project_by_id("p1", false)).name, "alpha");
    assert!(matches!(cache.get_project_id_by_name("gamma", false), Lookup::Refresh));
    assert!(matches!(cache.get_project_id_by_name("gamma", true), Lookup::Missing));
    assert!(matches!(cache.get_project_by_id("p3", false), Lookup::Refresh));
    assert!(matches!(cache.get_project_by_id("p3", true), Lookup::Missing));
    for name in ["alpha", "beta"] {
        let query = ProjectQuery::ByName { refreshed: false };
        assert_eq!(found_project(cache.get_project_by_name(name, query)).name, name);
    }
}

#[test]
fn the_last_project_of_a_name_counts() {
    let cache = cache_of(vec![project("p1", "alpha"), project("p2", "alpha")], vec![]);
    let query = ProjectQuery::ByName { refreshed: false };
    assert_eq!(found_project(cache.get_project_by_name("alpha", query)).id, "p2");
}

#[test]
fn projects_that_are_held_are_found_even_where_they_share_an_id() {
    let cache = cache_of(vec![project("p", "alpha"), project("p", "beta")], vec![]);
    let query = ProjectQuery::ByName { refreshed: false };
    assert_eq!(found_project(cache.get_project_by_name("alpha", query)).name, "beta");
}

#[test]
fn the_look_up_of_a_project_refreshes_at_most_twice() {
    let mut cache = BotCache::new();
    let query = match cache.get_project_by_name("alpha", ProjectQuery::ByName { refreshed: false })
    {
        ProjectLookup::Refresh(query) => query,
        _ => panic!("no refresh is asked for"),
    };
    assert!(matches!(query, ProjectQuery::ByName { refreshed: true }));
    assert!(matches!(cache.get_project_by_name("alpha", query), ProjectLookup::Missing));

    let query = ProjectQuery::ById { id: "p1".to_string(), refreshed: false };
    let query = match cache.get_project_by_name("alpha", query) {
        ProjectLookup::Refresh(query) => query,
        _ => panic!("no refresh is asked for"),
    };
    assert!(cache.refresh_about_project::<()>(Ok(vec![project("p1", "renamed")])).is_ok());
    assert_eq!(found_project(cache.get_project_by_name("alpha", query)).name, "renamed");
    let query = ProjectQuery::ById { id: "p2".to_string(), refreshed: true };
    assert!(matches!(cache.get_project_by_name("alpha", query), ProjectLookup::Missing));
}

#[test]
fn a_refresh_replaces_what_was_held() {
    let mut cache = cache_of(vec![project("p1", "alpha")], vec![member("a", "11")]);
    assert!(cache.refresh_about_project::<()>(Ok(vec![project("p2", "beta")])).is_ok());
    assert!(!cache.knows_project("alpha"));
    assert!(cache.knows_project("beta"));
    assert_eq!(found(cache.get_member_by_user_id(11, false)).name, "a");
    assert!(cache.refresh_about_member::<()>(Ok(vec![member("b", "12")])).is_ok());
    assert!(matches!(cache.get_member_by_user_id(11, true), Lookup::Missing));
    assert_eq!(found(cache.get_member_by_user_id(12, false)).name, "b");
    assert!(cache.knows_project("beta"));
}

#[test]
fn a_failed_refresh_changes_nothing() {
    let mut cache = cache_of(vec![project("p1", "alpha")], vec![member("a", "11")]);
    assert_eq!(cache.refresh_about_project(Err("down")), Err("down"));
    assert_eq!(cache.refresh_about_member(Err("down")), Err("down"));
    assert!(cache.knows_project("alpha"));
    assert_eq!(found(cache.get_member_by_user_id(11, false)).name, "a");
}
