//! How commands are made known to Discord, in the builders of serenity.
//!
//! `CreateCommand` and `CreateCommandOption` are opaque to the proofs. [`definition`] and
//! [`option_definition`] name what a builder has been told, and the functions below build in terms
//! of that.

use serenity::all::{CommandOptionType, CreateCommand, CreateCommandOption, Permissions};
use vstd::prelude::*;

verus! {

/// What an option of a command holds.
#[derive(Debug, Clone, Copy, PartialEq, Eq, Structural)]
pub enum OptionKind {
    SubCommand,
    Text,
    User,
}

/// What an option of a command is like.
#[verifier::ext_equal]
pub struct OptionView {
    pub kind: OptionKind,
    pub name: Seq<char>,
    pub description: Seq<char>,
    pub required: bool,
    pub options: Seq<OptionView>,
}

/// What a command is like. `default_member_permissions` are the bits of the permissions that a
/// member needs to give the command.
#[verifier::ext_equal]
pub struct CommandView {
    pub name: Seq<char>,
    pub description: Option<Seq<char>>,
    pub dm_permission: Option<bool>,
    pub default_member_permissions: Option<u64>,
    pub options: Seq<OptionView>,
}

/// `CreateCommand` of serenity, carried through as it is.
#[verifier::external_type_specification]
#[verifier::external_body]
pub struct ExCreateCommand(serenity::all::CreateCommand);

/// `CreateCommandOption` of serenity, carried through as it is.
#[verifier::external_type_specification]
#[verifier::external_body]
pub struct ExCreateCommandOption(serenity::all::CreateCommandOption);

/// What a `CreateCommand` has been told.
pub uninterp spec fn definition(command: serenity::all::CreateCommand) -> CommandView;

/// What a `CreateCommandOption` has been told.
pub uninterp spec fn option_definition(option: serenity::all::CreateCommandOption) -> OptionView;

/// `CreateCommand::new`: a command with a name and nothing else.
#[verifier::external_body]
pub(crate) fn new_command(name: &str) -> (command: CreateCommand)
    ensures
        definition(command) == (CommandView {
            name: name@,
            description: None,
            dm_permission: None,
            default_member_permissions: None,
            options: Seq::empty(),
        }),
{
    CreateCommand::new(name)
}

/// `CreateCommand::description`: sets the description and nothing else.
#[verifier::external_body]
pub(crate) fn describe(command: CreateCommand, description: &str) -> (described: CreateCommand)
    ensures
        definition(described) == (CommandView {
            description: Some(description@),
            ..definition(command)
        }),
{
    command.description(description)
}

/// `CreateCommand::dm_permission`: sets whether the command can be given in a direct message, and
/// nothing else.
#[verifier::external_body]
pub(crate) fn allow_in_dm(command: CreateCommand, enabled: bool) -> (set: CreateCommand)
    ensures
        definition(set) == (CommandView { dm_permission: Some(enabled), ..definition(command) }),
{
    command.dm_permission(enabled)
}

/// `CreateCommand::default_member_permissions`, with the permissions that have the given bits: sets
/// the permissions that a member needs, and nothing else.
#[verifier::external_body]
pub(crate) fn require_permissions(command: CreateCommand, bits: u64) -> (set: CreateCommand)
    ensures
        definition(set) == (CommandView {
            default_member_permissions: Some(bits),
            ..definition(command)
        }),
{
    command.default_member_permissions(Permissions::from_bits_retain(bits))
}

/// `CreateCommand::add_option`: puts an option behind those that the command has.
#[verifier::external_body]
pub(crate) fn add_option(command: CreateCommand, option: CreateCommandOption) -> (longer:
    CreateCommand)
    ensures
        definition(longer) == (CommandView {
            options: definition(command).options.push(option_definition(option)),
            ..definition(command)
        }),
{
    command.add_option(option)
}

/// `CreateCommandOption::new`: an option with a kind, a name and a description that is not required
/// and has no options of its own.
#[verifier::external_body]
pub(crate) fn new_option(kind: OptionKind, name: &str, description: &str) -> (option:
    CreateCommandOption)
    ensures
        option_definition(option) == (OptionView {
            kind,
            name: name@,
            description: description@,
            required: false,
            options: Seq::empty(),
        }),
{
    let kind = match kind {
        OptionKind::SubCommand => CommandOptionType::SubCommand,
        OptionKind::Text => CommandOptionType::String,
        OptionKind::User => CommandOptionType::User,
    };
    CreateCommandOption::new(kind, name, description)
}

/// `CreateCommandOption::required`: sets whether the option is required, and nothing else.
#[verifier::external_body]
pub(crate) fn set_required(option: CreateCommandOption, required: bool) -> (set:
    CreateCommandOption)
    ensures
        option_definition(set) == (OptionView { required, ..option_definition(option) }),
{
    option.required(required)
}

/// `CreateCommandOption::add_sub_option`: puts an option behind those that the option has.
#[verifier::external_body]
pub(crate) fn add_sub_option(option: CreateCommandOption, sub_option: CreateCommandOption) -> (
    longer: CreateCommandOption)
    ensures
        option_definition(longer) == (OptionView {
            options: option_definition(option).options.push(option_definition(sub_option)),
            ..option_definition(option)
        }),
{
    option.add_sub_option(sub_option)
}

/// An argument of a subcommand.
pub open spec fn argument(
    kind: OptionKind,
    name: Seq<char>,
    description: Seq<char>,
    required: bool,
) -> OptionView {
    OptionView { kind, name, description, required, options: Seq::empty() }
}

/// A subcommand.
pub open spec fn subcommand(
    name: Seq<char>,
    description: Seq<char>,
    arguments: Seq<OptionView>,
) -> OptionView {
    OptionView {
        kind: OptionKind::SubCommand,
        name,
        description,
        required: false,
        options: arguments,
    }
}

/// Builds an argument of a subcommand.
pub(crate) fn build_argument(kind: OptionKind, name: &str, description: &str, required: bool) -> (
    option: CreateCommandOption)
    ensures
        option_definition(option) == argument(kind, name@, description@, required),
{
    set_required(new_option(kind, name, description), required)
}

} // verus!
