//! The project command as Discord is told of it.

use crate::commands::definition::{
    add_option, add_sub_option, allow_in_dm, argument, build_argument, definition, describe,
    new_command, new_option, require_permissions, subcommand, CommandView, OptionKind, OptionView,
};
use crate::commands::guild::{manage_channels, MANAGE_CHANNELS};
use serenity::all::CreateCommand;
use vstd::prelude::*;

verus! {

/// The project command: it sets up, renames and deletes projects, and is for those who may manage
/// channels.
pub open spec fn project_command() -> CommandView {
    CommandView {
        name: "project"@,
        description: Some("프로젝트 관련 명령어"@),
        dm_permission: Some(false),
        default_member_permissions: Some(MANAGE_CHANNELS),
        options: seq![
            subcommand(
                "generate"@,
                "새 프로젝트를 생성합니다."@,
                seq![argument(OptionKind::Text, "name"@, "생성할 프로젝트 이름"@, true)],
            ),
            subcommand(
                "rename"@,
                "프로젝트 이름을 변경합니다."@,
                seq![argument(OptionKind::Text, "new_name"@, "변경할 새 프로젝트 이름"@, true)],
            ),
            subcommand("delete"@, "프로젝트를 완전히 삭제합니다."@, Seq::empty()),
        ],
    }
}

/// The project command, to be made known to Discord.
pub fn register_project_command() -> (command: CreateCommand)
    ensures
        definition(command) == project_command(),
{
    let generate = add_sub_option(
        new_option(OptionKind::SubCommand, "generate", "새 프로젝트를 생성합니다."),
        build_argument(OptionKind::Text, "name", "생성할 프로젝트 이름", true),
    );
    let rename = add_sub_option(
        new_option(OptionKind::SubCommand, "rename", "프로젝트 이름을 변경합니다."),
        build_argument(OptionKind::Text, "new_name", "변경할 새 프로젝트 이름", true),
    );
    let delete = new_option(OptionKind::SubCommand, "delete", "프로젝트를 완전히 삭제합니다.");
    let command = describe(new_command("project"), "프로젝트 관련 명령어");
    let command = require_permissions(allow_in_dm(command, false), manage_channels());
    let command = add_option(add_option(add_option(command, generate), rename), delete);
    assert(definition(command).options =~~= project_command().options);
    command
}

/// The project command in full, as Discord is told of it.
pub proof fn law_the_project_command_in_full()
    ensures
        project_command() == (CommandView {
            name: "project"@,
            description: Some("프로젝트 관련 명령어"@),
            dm_permission: Some(false),
            default_member_permissions: Some(0x10),
            options: seq![
                OptionView {
                    kind: OptionKind::SubCommand,
                    name: "generate"@,
                    description: "새 프로젝트를 생성합니다."@,
                    required: false,
                    options: seq![
                        OptionView {
                            kind: OptionKind::Text,
                            name: "name"@,
                            description: "생성할 프로젝트 이름"@,
                            required: true,
                            options: Seq::empty(),
                        },
                    ],
                },
                OptionView {
                    kind: OptionKind::SubCommand,
                    name: "rename"@,
                    description: "프로젝트 이름을 변경합니다."@,
                    required: false,
                    options: seq![
                        OptionView {
                            kind: OptionKind::Text,
                            name: "new_name"@,
                            description: "변경할 새 프로젝트 이름"@,
                            required: true,
                            options: Seq::empty(),
                        },
                    ],
                },
                OptionView {
                    kind: OptionKind::SubCommand,
                    name: "delete"@,
                    description: "프로젝트를 완전히 삭제합니다."@,
                    required: false,
                    options: Seq::empty(),
                },
            ],
        }),
{
}

} // verus!
