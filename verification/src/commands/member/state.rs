//! Where a member command stands, what it waits for and what it has learnt so far.

use crate::commands::member::message::MemberRefusal;
use crate::commands::option::CommandOption;
use crate::integration::notion::project::Project;
use vstd::prelude::*;

verus! {

/// What a member command is for.
#[derive(Debug, Clone, Copy, PartialEq, Eq, Structural)]
pub enum Purpose {
    List,
    Add,
    Remove,
    /// Nothing that is known.
    Unknown,
}

/// Where a member command stands.
#[derive(Debug, Clone, Copy, PartialEq, Eq, Structural)]
pub enum MemberState {
    /// Discord is told that an answer will follow.
    Defer,
    /// The command goes no further, and says why.
    Refuse(MemberRefusal),
    /// The category of the project is looked for.
    Locate,
    FetchName { category_id: u64 },
    FindProject { category_id: u64 },
    /// The member at a place of the list is looked up.
    LookUp { index: usize },
    ShowList,
    CheckAdmin { category_id: u64 },
    CheckManager { category_id: u64, is_admin: bool },
    FetchRoles,
    /// The user at a place is looked up before they are added.
    FindTarget { role_id: u64, index: usize },
    /// The user at a place is given the role.
    Grant { role_id: u64, index: usize },
    /// The role is taken from the user at a place.
    Revoke { role_id: u64, index: usize },
    Report,
    Update,
    Finished,
    /// The command broke off because Discord could not be reached.
    Failed,
}

/// A member command on its way.
pub struct MemberCommand {
    /// The server in which the command was given.
    pub guild_id: Option<u64>,
    pub user_id: u64,
    /// The roles of the user, where the user is a member of the server.
    pub member_roles: Option<Vec<u64>>,
    /// The first option of the command: the subcommand.
    pub option: Option<CommandOption>,
    /// The name of the category.
    pub project_name: String,
    /// The project, with the changes that have been made.
    pub project: Option<Project>,
    /// Who took part in the project when it was found.
    pub included: Vec<u64>,
    /// Whom the command names.
    pub targets: Vec<u64>,
    /// For whom it has been carried out.
    pub processed: Vec<u64>,
    /// The list as far as it has been written.
    pub list: String,
    /// The name of the user who is being added.
    pub target_name: String,
    pub state: MemberState,
}

/// Whether a command stands at its end.
pub open spec fn is_over(state: MemberState) -> bool {
    state == MemberState::Finished || state == MemberState::Failed
}

/// What a subcommand is for.
pub open spec fn purpose_of(option: Option<CommandOption>) -> Purpose {
    match option {
        None => Purpose::Unknown,
        Some(option) => if option.name@ == "list"@ {
            Purpose::List
        } else if option.name@ == "add"@ {
            Purpose::Add
        } else if option.name@ == "remove"@ {
            Purpose::Remove
        } else {
            Purpose::Unknown
        },
    }
}

impl MemberCommand {
    /// Whether what the command has learnt fits where it stands.
    pub open spec fn well_formed(self) -> bool {
        match self.state {
            MemberState::LookUp { index } => index < self.included@.len(),
            MemberState::CheckAdmin { .. } => self.project is Some,
            MemberState::CheckManager { .. } => self.project is Some,
            MemberState::FetchRoles => self.project is Some,
            MemberState::FindTarget { role_id: _, index } => self.project is Some && index
                < self.targets@.len(),
            MemberState::Grant { role_id: _, index } => self.project is Some && index
                < self.targets@.len(),
            MemberState::Revoke { role_id: _, index } => self.project is Some && index
                < self.targets@.len(),
            MemberState::Report => self.project is Some,
            MemberState::Update => self.project is Some,
            MemberState::Refuse(MemberRefusal::NoRole) => self.project is Some,
            _ => true,
        }
    }

    /// A command as it has come in.
    pub fn new(
        guild_id: Option<u64>,
        user_id: u64,
        member_roles: Option<Vec<u64>>,
        option: Option<CommandOption>,
    ) -> (command: Self)
        ensures
            command.well_formed(),
            command.guild_id == guild_id,
            command.user_id == user_id,
            command.member_roles == member_roles,
            command.option == option,
            command.project_name@ == Seq::<char>::empty(),
            command.project is None,
            command.included@ == Seq::<u64>::empty(),
            command.targets@ == Seq::<u64>::empty(),
            command.processed@ == Seq::<u64>::empty(),
            command.list@ == Seq::<char>::empty(),
            command.target_name@ == Seq::<char>::empty(),
            command.state == MemberState::Defer,
    {
        MemberCommand {
            guild_id,
            user_id,
            member_roles,
            option,
            project_name: String::new(),
            project: None,
            included: Vec::new(),
            targets: Vec::new(),
            processed: Vec::new(),
            list: String::new(),
            target_name: String::new(),
            state: MemberState::Defer,
        }
    }
}

/// Each purpose is served by exactly one subcommand.
pub proof fn law_what_subcommands_are_for(option: CommandOption)
    ensures
        purpose_of(None) == Purpose::Unknown,
        purpose_of(Some(option)) == Purpose::List <==> option.name@ == "list"@,
        purpose_of(Some(option)) == Purpose::Add <==> option.name@ == "add"@,
        purpose_of(Some(option)) == Purpose::Remove <==> option.name@ == "remove"@,
{
    reveal_strlit("list");
    reveal_strlit("add");
    reveal_strlit("remove");
    assert("list"@.len() == 4);
    assert("add"@.len() == 3);
    assert("remove"@.len() == 6);
}

} // verus!
