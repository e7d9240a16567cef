//! Which command is meant.

use crate::commands::member::register::member_command;
use crate::commands::member::state::{purpose_of, Purpose};
use crate::commands::option::CommandOption;
use crate::commands::project::register::project_command;
use crate::text::same_text;
use vstd::prelude::*;

verus! {

/// The commands that are known.
#[derive(Debug, Clone, Copy, PartialEq, Eq, Structural)]
pub enum KnownCommand {
    Help,
    Project,
    Member,
    /// None of them.
    Unknown,
}

/// The command that has a name.
pub open spec fn command_of(name: Seq<char>) -> KnownCommand {
    if name == "help"@ {
        KnownCommand::Help
    } else if name == "project"@ {
        KnownCommand::Project
    } else if name == "member"@ {
        KnownCommand::Member
    } else {
        KnownCommand::Unknown
    }
}

/// Finds the command that has a name.
pub fn find_command(name: &str) -> (command: KnownCommand)
    ensures
        command == command_of(name@),
{
    if same_text(name, "help") {
        KnownCommand::Help
    } else if same_text(name, "project") {
        KnownCommand::Project
    } else if same_text(name, "member") {
        KnownCommand::Member
    } else {
        KnownCommand::Unknown
    }
}

/// The commands of which Discord is told are found by the names under which they are told, and
/// every subcommand of the member command has a purpose.
pub proof fn law_registered_commands_are_known(option: CommandOption, i: int)
    requires
        0 <= i < member_command().options.len(),
        option.name@ == member_command().options[i].name,
    ensures
        command_of(project_command().name) == KnownCommand::Project,
        command_of(member_command().name) == KnownCommand::Member,
        purpose_of(Some(option)) != Purpose::Unknown,
{
    reveal_strlit("help");
    reveal_strlit("project");
    reveal_strlit("member");
    assert("help"@.len() == 4);
    assert("project"@.len() == 7);
    assert("member"@.len() == 6);
}

/// A command is found exactly by its own name, and every other name is unknown.
pub proof fn law_each_command_has_one_name(name: Seq<char>)
    ensures
        command_of(name) == KnownCommand::Help <==> name == "help"@,
        command_of(name) == KnownCommand::Project <==> name == "project"@,
        command_of(name) == KnownCommand::Member <==> name == "member"@,
        command_of(name) == KnownCommand::Unknown <==> name != "help"@ && name != "project"@ && name
            != "member"@,
{
    reveal_strlit("help");
    reveal_strlit("project");
    reveal_strlit("member");
    assert("help"@.len() == 4);
    assert("project"@.len() == 7);
    assert("member"@.len() == 6);
}

} // verus!
