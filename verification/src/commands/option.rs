//! The options with which a command is given.

use crate::text::same_text;
use vstd::prelude::*;

verus! {

/// The value of an option.
pub enum OptionValue {
    SubCommand(Vec<CommandOption>),
    Text(String),
    User(u64),
    Other,
}

/// An option of a command, or of a subcommand.
pub struct CommandOption {
    pub name: String,
    pub value: OptionValue,
}

/// The options that are given to a subcommand.
pub open spec fn arguments(option: CommandOption) -> Seq<CommandOption> {
    match option.value {
        OptionValue::SubCommand(options) => options@,
        _ => Seq::empty(),
    }
}

/// The first option of a name.
pub open spec fn first_of_name(options: Seq<CommandOption>, name: Seq<char>) -> Option<CommandOption>
    decreases options.len(),
{
    if options.len() == 0 {
        None
    } else if options[0].name@ == name {
        Some(options[0])
    } else {
        first_of_name(options.skip(1), name)
    }
}

/// The text that is given to a subcommand under a name.
pub open spec fn string_arg(option: CommandOption, name: Seq<char>) -> Option<Seq<char>> {
    match first_of_name(arguments(option), name) {
        Some(CommandOption { name: _, value: OptionValue::Text(text) }) => Some(text@),
        _ => None,
    }
}

/// The text that is given to a subcommand under a name.
pub fn get_string_arg(option: &CommandOption, name: &str) -> (text: Option<String>)
    ensures
        text is Some <==> string_arg(*option, name@) is Some,
        text is Some ==> string_arg(*option, name@) == Some(text->0@),
{
    let options = match &option.value {
        OptionValue::SubCommand(options) => options,
        _ => return None,
    };
    let mut next: usize = 0;
    assert(options@.skip(0) =~= options@);
    while next < options.len()
        invariant
            next <= options.len(),
            options@ == arguments(*option),
            first_of_name(options@, name@) == first_of_name(options@.skip(next as int), name@),
        decreases options.len() - next,
    {
        assert(options@.skip(next as int).skip(1) =~= options@.skip(next + 1));
        if same_text(options[next].name.as_str(), name) {
            return match &options[next].value {
                OptionValue::Text(text) => Some(text.clone()),
                _ => None,
            };
        }
        next = next + 1;
    }
    None
}

/// The text that is given to a subcommand under a name is that of the first of its options that
/// has the name, where that option holds a text; there is none where no option has the name, where
/// the first that has it holds something else, or where the option is no subcommand.
pub proof fn law_the_first_argument_of_a_name(option: CommandOption, name: Seq<char>)
    ensures
        match option.value {
            OptionValue::SubCommand(options) => {
                &&& (forall|i: int| 0 <= i < options@.len() ==> (#[trigger] options@[i]).name@
                    != name) ==> string_arg(option, name) is None
                &&& forall|i: int|
                    0 <= i < options@.len() && (#[trigger] options@[i]).name@ == name && (forall|
                        j: int,
                    |
                        0 <= j < i ==> (#[trigger] options@[j]).name@ != name) ==> string_arg(
                        option,
                        name,
                    ) == match options@[i].value {
                        OptionValue::Text(text) => Some(text@),
                        _ => None,
                    }
            },
            _ => string_arg(option, name) is None,
        },
{
    match option.value {
        OptionValue::SubCommand(options) => {
            lemma_first_of_name(options@, name);
        },
        _ => {},
    }
}

/// The first option of a name is found.
proof fn lemma_first_of_name(options: Seq<CommandOption>, name: Seq<char>)
    ensures
        (forall|i: int| 0 <= i < options.len() ==> (#[trigger] options[i]).name@ != name)
            ==> first_of_name(options, name) is None,
        forall|i: int|
            0 <= i < options.len() && (#[trigger] options[i]).name@ == name && (forall|j: int|
                0 <= j < i ==> (#[trigger] options[j]).name@ != name) ==> first_of_name(
                options,
                name,
            ) == Some(options[i]),
    decreases options.len(),
{
    if options.len() > 0 && options[0].name@ != name {
        let others = options.skip(1);
        lemma_first_of_name(others, name);
        assert forall|i: int| 0 <= i < others.len() implies #[trigger] others[i] == options[i
            + 1] by {}
        assert forall|i: int|
            0 <= i < options.len() && (#[trigger] options[i]).name@ == name && (forall|j: int|
                0 <= j < i ==> (#[trigger] options[j]).name@ != name) implies first_of_name(
            options,
            name,
        ) == Some(options[i]) by {
            assert(others[i - 1] == options[i]);
            assert forall|j: int| 0 <= j < i - 1 implies (#[trigger] others[j]).name@ != name by {
                assert(others[j] == options[j + 1]);
            }
        }
    } else if options.len() > 0 {
        assert forall|i: int|
            0 <= i < options.len() && (#[trigger] options[i]).name@ == name && (forall|j: int|
                0 <= j < i ==> (#[trigger] options[j]).name@ != name) implies i == 0 by {
            if i > 0 {
                assert(options[0].name@ == name);
            }
        }
    }
}

/// The options that are given to a subcommand are those that it holds; other options hold none.
pub proof fn law_the_arguments_of_a_subcommand(option: CommandOption)
    ensures
        option.value matches OptionValue::SubCommand(options) ==> arguments(option) == options@,
        !(option.value is SubCommand) ==> arguments(option).len() == 0,
{
}

} // verus!
