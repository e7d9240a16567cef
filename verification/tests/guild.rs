use project_bot::commands::guild::{
    build_permission_overwrites, find_role_like, find_role_named, is_server_admin, Guild,
    GuildRole, Overwrite, OverwriteTarget,
};
use serenity::all::Permissions;
use std::collections::HashMap;

fn guild(roles: &[(u64, Permissions)]) -> Guild {
    let mut role_permissions = HashMap::new();
    for (id, permissions) in roles {
        role_permissions.insert(*id, permissions.bits());
    }
    Guild { owner_id: 1, role_permissions }
}

fn roles(names: &[(u64, &str)]) -> Vec<GuildRole> {
    names.iter().map(|(id, name)| GuildRole { id: *id, name: name.to_string() }).collect()
}

#[test]
fn the_owner_administers_the_server() {
    assert!(is_server_admin(&guild(&[]), 1, &vec![]));
    assert!(!is_server_admin(&guild(&[]), 2, &vec![]));
}

#[test]
fn a_role_can_make_an_administrator() {
    let server = guild(&[
        (10, Permissions::MANAGE_CHANNELS),
        (11, Permissions::ADMINISTRATOR | Permissions::SEND_MESSAGES),
        (12, Permissions::all() - Permissions::ADMINISTRATOR),
    ]);
    assert!(is_server_admin(&server, 2, &vec![10, 11]));
    assert!(!is_server_admin(&server, 2, &vec![10]));
    assert!(!is_server_admin(&server, 2, &vec![12]));
    assert!(!is_server_admin(&server, 2, &vec![99]));
}

#[test]
fn roles_are_found_whatever_the_case_of_ascii_letters() {
    let all = roles(&[(1, "beta"), (2, "ALPHA"), (3, "alpha"), (4, "É"), (5, "봇")]);
    assert_eq!(find_role_like(&all, "Alpha"), Some(2));
    assert_eq!(find_role_like(&all, "봇"), Some(5));
    assert_eq!(find_role_like(&all, "é"), None);
    assert_eq!(find_role_like(&all, "alph"), None);
    assert_eq!(find_role_like(&roles(&[]), "alpha"), None);
}

#[test]
fn roles_are_found_by_their_exact_names() {
    let all = roles(&[(1, "beta"), (2, "ALPHA"), (3, "alpha"), (4, "alpha")]);
    assert_eq!(find_role_named(&all, "alpha"), Some(3));
    assert_eq!(find_role_named(&all, "Alpha"), None);
}

#[test]
fn the_overwrites_of_a_project_are_those_of_discord() {
    let overwrites = build_permission_overwrites(100, 200, 300, 400);
    assert_eq!(
        overwrites.deny_everyone,
        Overwrite { allow: 0, deny: 0x400, target: OverwriteTarget::Role(100) }
    );
    assert_eq!(
        overwrites.allow_project,
        Overwrite { allow: 0xc00, deny: 0, target: OverwriteTarget::Role(200) }
    );
    assert_eq!(
        overwrites.readonly_project,
        Overwrite { allow: 0x400, deny: 0x800, target: OverwriteTarget::Role(200) }
    );
    assert_eq!(
        overwrites.allow_pm,
        Overwrite { allow: 0xc00, deny: 0, target: OverwriteTarget::Member(400) }
    );
    assert_eq!(
        overwrites.allow_bot,
        Overwrite { allow: 0xc10, deny: 0, target: OverwriteTarget::Member(300) }
    );
}

#[test]
fn overwrites_grant_and_withhold_what_they_should() {
    let overwrites = build_permission_overwrites(1, 2, 3, 4);
    let allowed = |overwrite: Overwrite| Permissions::from_bits_retain(overwrite.allow);
    let denied = |overwrite: Overwrite| Permissions::from_bits_retain(overwrite.deny);
    assert!(denied(overwrites.deny_everyone).view_channel());
    assert!(allowed(overwrites.allow_project).send_messages());
    assert!(denied(overwrites.readonly_project).send_messages());
    assert!(allowed(overwrites.readonly_project).view_channel());
    assert!(allowed(overwrites.allow_pm).send_messages());
    assert!(allowed(overwrites.allow_bot).manage_channels());
    assert!(!allowed(overwrites.allow_pm).manage_channels());
}

#[test]
fn overwrites_do_not_contradict_themselves() {
    let overwrites = build_permission_overwrites(1, 2, 3, 4);
    for overwrite in [
        overwrites.deny_everyone,
        overwrites.allow_project,
        overwrites.readonly_project,
        overwrites.allow_pm,
        overwrites.allow_bot,
    ] {
        assert_eq!(overwrite.allow & overwrite.deny, 0);
    }
}
