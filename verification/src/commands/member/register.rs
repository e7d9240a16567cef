//! The member command as Discord is told of it.

use crate::commands::definition::{
    add_option, add_sub_option, allow_in_dm, argument, build_argument, definition, describe,
    new_command, new_option, option_definition, subcommand, CommandView, OptionKind, OptionView,
};
use serenity::all::{CreateCommand, CreateCommandOption};
use vstd::prelude::*;

verus! {

/// The three users that a subcommand can name, of whom only the first is required.
pub open spec fn user_arguments(
    first: Seq<char>,
    second: Seq<char>,
    third: Seq<char>,
) -> Seq<OptionView> {
    seq![
        argument(OptionKind::User, "user1"@, first, true),
        argument(OptionKind::User, "user2"@, second, false),
        argument(OptionKind::User, "user3"@, third, false),
    ]
}

/// The member command: it lists, adds and removes those who take part in a project.
pub open spec fn member_command() -> CommandView {
    CommandView {
        name: "member"@,
        description: Some("프로젝트 멤버를 관리하는 명령어입니다."@),
        dm_permission: Some(false),
        default_member_permissions: None,
        options: seq![
            subcommand("list"@, "현재 프로젝트에 참여 중인 인원 목록을 확인합니다."@, Seq::empty()),
            subcommand(
                "add"@,
                "프로젝트에 새 멤버를 추가하고 역할을 부여합니다."@,
                user_arguments(
                    "추가할 첫 번째 유저"@,
                    "추가할 두 번째 유저 (선택)"@,
                    "추가할 세 번째 유저 (선택)"@,
                ),
            ),
            subcommand(
                "remove"@,
                "프로젝트에서 멤버를 내보내고 역할을 회수합니다."@,
                user_arguments(
                    "내보낼 첫 번째 유저"@,
                    "내보낼 두 번째 유저 (선택)"@,
                    "내보낼 세 번째 유저 (선택)"@,
                ),
            ),
        ],
    }
}

/// Builds a subcommand that names up to three users.
fn build_user_subcommand(
    name: &str,
    description: &str,
    first: &str,
    second: &str,
    third: &str,
) -> (option: CreateCommandOption)
    ensures
        option_definition(option) == subcommand(
            name@,
            description@,
            user_arguments(first@, second@, third@),
        ),
{
    let option = new_option(OptionKind::SubCommand, name, description);
    let option = add_sub_option(option, build_argument(OptionKind::User, "user1", first, true));
    let option = add_sub_option(option, build_argument(OptionKind::User, "user2", second, false));
    let option = add_sub_option(option, build_argument(OptionKind::User, "user3", third, false));
    assert(option_definition(option).options =~= user_arguments(first@, second@, third@));
    option
}

/// The member command, to be made known to Discord.
pub fn register_member_command() -> (command: CreateCommand)
    ensures
        definition(command) == member_command(),
{
    let list = new_option(
        OptionKind::SubCommand,
        "list",
        "현재 프로젝트에 참여 중인 인원 목록을 확인합니다.",
    );
    let add = build_user_subcommand(
        "add",
        "프로젝트에 새 멤버를 추가하고 역할을 부여합니다.",
        "추가할 첫 번째 유저",
        "추가할 두 번째 유저 (선택)",
        "추가할 세 번째 유저 (선택)",
    );
    let remove = build_user_subcommand(
        "remove",
        "프로젝트에서 멤버를 내보내고 역할을 회수합니다.",
        "내보낼 첫 번째 유저",
        "내보낼 두 번째 유저 (선택)",
        "내보낼 세 번째 유저 (선택)",
    );
    let command = describe(new_command("member"), "프로젝트 멤버를 관리하는 명령어입니다.");
    let command = allow_in_dm(command, false);
    let command = add_option(add_option(add_option(command, list), add), remove);
    assert(definition(command).options =~= member_command().options);
    command
}

/// The member command in full, as Discord is told of it.
pub proof fn law_the_member_command_in_full()
    ensures
        member_command() == (CommandView {
            name: "member"@,
            description: Some("프로젝트 멤버를 관리하는 명령어입니다."@),
            dm_permission: Some(false),
            default_member_permissions: None,
            options: seq![
                OptionView {
                    kind: OptionKind::SubCommand,
                    name: "list"@,
                    description: "현재 프로젝트에 참여 중인 인원 목록을 확인합니다."@,
                    required: false,
                    options: Seq::empty(),
                },
                OptionView {
                    kind: OptionKind::SubCommand,
                    name: "add"@,
                    description: "프로젝트에 새 멤버를 추가하고 역할을 부여합니다."@,
                    required: false,
                    options: seq![
                        OptionView {
                            kind: OptionKind::User,
                            name: "user1"@,
                            description: "추가할 첫 번째 유저"@,
                            required: true,
                            options: Seq::empty(),
                        },
                        OptionView {
                            kind: OptionKind::User,
                            name: "user2"@,
                            description: "추가할 두 번째 유저 (선택)"@,
                            required: false,
                            options: Seq::empty(),
                        },
                        OptionView {
                            kind: OptionKind::User,
                            name: "user3"@,
                            description: "추가할 세 번째 유저 (선택)"@,
                            required: false,
                            options: Seq::empty(),
                        },
                    ],
                },
                OptionView {
                    kind: OptionKind::SubCommand,
                    name: "remove"@,
                    description: "프로젝트에서 멤버를 내보내고 역할을 회수합니다."@,
                    required: false,
                    options: seq![
                        OptionView {
                            kind: OptionKind::User,
                            name: "user1"@,
                            description: "내보낼 첫 번째 유저"@,
                            required: true,
                            options: Seq::empty(),
                        },
                        OptionView {
                            kind: OptionKind::User,
                            name: "user2"@,
                            description: "내보낼 두 번째 유저 (선택)"@,
                            required: false,
                            options: Seq::empty(),
                        },
                        OptionView {
                            kind: OptionKind::User,
                            name: "user3"@,
                            description: "내보낼 세 번째 유저 (선택)"@,
                            required: false,
                            options: Seq::empty(),
                        },
                    ],
                },
            ],
        }),
{
}

} // verus!
