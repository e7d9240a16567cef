//! What comes back from what a command has asked to be done.

use crate::commands::guild::{Guild, GuildChannel, GuildRole};
use crate::integration::notion::member::NotionMember;
use crate::integration::notion::project::Project;
use vstd::prelude::*;

verus! {

/// What came back from what was done last.
pub enum Event {
    /// It was done, and there is nothing more to say.
    Done,
    /// It failed, for the reason that is given.
    Failed(String),
    /// It was done to the thing with this id.
    Id(u64),
    /// The category of the channel in which the command was given.
    Category(Option<u64>),
    /// Whether the user manages the project.
    Manager(bool),
    /// The name of a channel; `None` where it is no channel of a server.
    ChannelName(Option<String>),
    Guild(Guild),
    Roles(Vec<GuildRole>),
    Channels(Vec<GuildChannel>),
    Member(Option<NotionMember>),
    Project(Option<Project>),
    ProjectId(Option<String>),
}

} // verus!
