//! The channels of a project: those that are made for it and those that are deleted with it.

use crate::commands::guild::{GuildChannel, Overwrite, ProjectOverwrites};
use vstd::prelude::*;

verus! {

/// The kinds of channels that are made.
#[derive(Debug, Clone, Copy, PartialEq, Eq, Structural)]
pub enum ChannelKind {
    Category,
    Text,
    Voice,
}

/// A channel to be made. Without overwrites of its own it takes over those of its category.
pub struct NewChannel {
    pub name: String,
    pub kind: ChannelKind,
    pub category_id: Option<u64>,
    pub overwrites: Option<Vec<Overwrite>>,
}

/// What a channel to be made is like.
#[verifier::ext_equal]
pub struct NewChannelView {
    pub name: Seq<char>,
    pub kind: ChannelKind,
    pub category_id: Option<u64>,
    pub overwrites: Option<Seq<Overwrite>>,
}

impl View for NewChannel {
    type V = NewChannelView;

    open spec fn view(&self) -> NewChannelView {
        NewChannelView {
            name: self.name@,
            kind: self.kind,
            category_id: self.category_id,
            overwrites: match self.overwrites {
                Some(overwrites) => Some(overwrites@),
                None => None,
            },
        }
    }
}

/// How many channels are made inside the category of a project.
pub const PROJECT_CHANNELS: usize = 9;

/// The category of a project.
pub open spec fn project_category(name: Seq<char>, overwrites: ProjectOverwrites) -> NewChannelView {
    NewChannelView {
        name,
        kind: ChannelKind::Category,
        category_id: None,
        overwrites: Some(
            seq![overwrites.deny_everyone, overwrites.allow_project, overwrites.allow_bot],
        ),
    }
}

/// The names of the channels inside the category, in the order in which they are made.
pub open spec fn channel_names() -> Seq<Seq<char>> {
    seq![
        "📜information"@,
        "🤖bot"@,
        "🌐dev"@,
        "🚩issue"@,
        "✅progress"@,
        "📢notice"@,
        "🎡random"@,
        "🖥️github"@,
        "🎙️ voice chat"@,
    ]
}

/// The overwrites of the channel at a place: the members of the project may only read what is in
/// the first channel, where the manager writes, and in the last text channel, where the bot does.
pub open spec fn channel_overwrites(index: int, overwrites: ProjectOverwrites) -> Option<
    Seq<Overwrite>,
> {
    if index == 0 {
        Some(
            seq![
                overwrites.deny_everyone,
                overwrites.readonly_project,
                overwrites.allow_pm,
                overwrites.allow_bot,
            ],
        )
    } else if index == 7 {
        Some(seq![overwrites.deny_everyone, overwrites.readonly_project, overwrites.allow_bot])
    } else {
        None
    }
}

/// The channel at a place inside the category of a project. The last one is for voice.
pub open spec fn project_channel(
    index: int,
    category_id: u64,
    overwrites: ProjectOverwrites,
) -> NewChannelView {
    NewChannelView {
        name: channel_names()[index],
        kind: if index == 8 {
            ChannelKind::Voice
        } else {
            ChannelKind::Text
        },
        category_id: Some(category_id),
        overwrites: channel_overwrites(index, overwrites),
    }
}

/// How long to wait after a channel has been made, in milliseconds.
pub open spec fn pause_after(index: int) -> u64 {
    if index == 8 {
        0
    } else {
        10
    }
}

/// The category of a project.
pub fn build_category(name: &str, overwrites: &ProjectOverwrites) -> (channel: NewChannel)
    ensures
        channel@ == project_category(name@, *overwrites),
{
    let mut list: Vec<Overwrite> = Vec::new();
    list.push(overwrites.deny_everyone);
    list.push(overwrites.allow_project);
    list.push(overwrites.allow_bot);
    assert(list@ =~= project_category(name@, *overwrites).overwrites->0);
    NewChannel {
        name: name.to_string(),
        kind: ChannelKind::Category,
        category_id: None,
        overwrites: Some(list),
    }
}

/// The name of the channel at a place.
fn channel_name(index: usize) -> (name: &'static str)
    requires
        index < PROJECT_CHANNELS,
    ensures
        name@ == channel_names()[index as int],
{
    if index == 0 {
        "📜information"
    } else if index == 1 {
        "🤖bot"
    } else if index == 2 {
        "🌐dev"
    } else if index == 3 {
        "🚩issue"
    } else if index == 4 {
        "✅progress"
    } else if index == 5 {
        "📢notice"
    } else if index == 6 {
        "🎡random"
    } else if index == 7 {
        "🖥️github"
    } else {
        "🎙️ voice chat"
    }
}

/// The channel at a place inside the category of a project.
pub fn build_channel(index: usize, category_id: u64, overwrites: &ProjectOverwrites) -> (channel:
    NewChannel)
    requires
        index < PROJECT_CHANNELS,
    ensures
        channel@ == project_channel(index as int, category_id, *overwrites),
{
    let list: Option<Vec<Overwrite>> = if index == 0 {
        let mut list: Vec<Overwrite> = Vec::new();
        list.push(overwrites.deny_everyone);
        list.push(overwrites.readonly_project);
        list.push(overwrites.allow_pm);
        list.push(overwrites.allow_bot);
        assert(list@ =~= channel_overwrites(0, *overwrites)->0);
        Some(list)
    } else if index == 7 {
        let mut list: Vec<Overwrite> = Vec::new();
        list.push(overwrites.deny_everyone);
        list.push(overwrites.readonly_project);
        list.push(overwrites.allow_bot);
        assert(list@ =~= channel_overwrites(7, *overwrites)->0);
        Some(list)
    } else {
        None
    };
    NewChannel {
        name: channel_name(index).to_string(),
        kind: if index == 8 {
            ChannelKind::Voice
        } else {
            ChannelKind::Text
        },
        category_id: Some(category_id),
        overwrites: list,
    }
}

/// Whether a channel goes before the one in which the deletion was asked for.
pub open spec fn goes_first(channel: GuildChannel, category_id: u64, command_channel: u64) -> bool {
    channel.parent_id == Some(category_id) && channel.id != command_channel
}

/// The channels of a category but for the one in which the deletion was asked for, in the order
/// in which they were listed.
pub open spec fn other_channels(
    channels: Seq<GuildChannel>,
    category_id: u64,
    command_channel: u64,
) -> Seq<u64>
    decreases channels.len(),
{
    if channels.len() == 0 {
        Seq::empty()
    } else {
        let before = other_channels(channels.drop_last(), category_id, command_channel);
        if goes_first(channels.last(), category_id, command_channel) {
            before.push(channels.last().id)
        } else {
            before
        }
    }
}

/// The channels that are deleted with a category, in their order: the one in which the deletion
/// was asked for comes last.
pub open spec fn doomed_channels(
    channels: Seq<GuildChannel>,
    category_id: u64,
    command_channel: u64,
) -> Seq<u64> {
    other_channels(channels, category_id, command_channel).push(command_channel)
}

/// The channels that are deleted with a category.
pub fn find_doomed_channels(
    channels: &Vec<GuildChannel>,
    category_id: u64,
    command_channel: u64,
) -> (doomed: Vec<u64>)
    ensures
        doomed@ == doomed_channels(channels@, category_id, command_channel),
{
    let mut doomed: Vec<u64> = Vec::new();
    let mut next: usize = 0;
    while next < channels.len()
        invariant
            next <= channels.len(),
            doomed@ == other_channels(
                channels@.take(next as int),
                category_id,
                command_channel,
            ),
        decreases channels.len() - next,
    {
        assert(channels@.take(next + 1).drop_last() =~= channels@.take(next as int));
        let inside = match channels[next].parent_id {
            Some(parent_id) => parent_id == category_id,
            None => false,
        };
        if inside && channels[next].id != command_channel {
            doomed.push(channels[next].id);
        }
        next = next + 1;
    }
    assert(channels@.take(next as int) =~= channels@);
    doomed.push(command_channel);
    doomed
}

/// The channels before the last are those that go first.
proof fn lemma_other_channels(channels: Seq<GuildChannel>, category_id: u64, command_channel: u64)
    ensures
        forall|id: u64| #[trigger]
            other_channels(channels, category_id, command_channel).contains(id) <==> exists|i: int|
                0 <= i < channels.len() && (#[trigger] channels[i]).id == id && goes_first(
                    channels[i],
                    category_id,
                    command_channel,
                ),
    decreases channels.len(),
{
    let doomed = other_channels(channels, category_id, command_channel);
    if channels.len() > 0 {
        let fewer = channels.drop_last();
        let before = other_channels(fewer, category_id, command_channel);
        lemma_other_channels(fewer, category_id, command_channel);
        assert forall|id: u64| #[trigger] doomed.contains(id) <==> exists|i: int|
            0 <= i < channels.len() && (#[trigger] channels[i]).id == id && goes_first(
                channels[i],
                category_id,
                command_channel,
            ) by {
            if doomed.contains(id) {
                let k = choose|k: int| 0 <= k < doomed.len() && doomed[k] == id;
                if k < before.len() {
                    assert(before[k] == id);
                    assert(before.contains(id));
                    let i = choose|i: int|
                        0 <= i < fewer.len() && (#[trigger] fewer[i]).id == id && goes_first(
                            fewer[i],
                            category_id,
                            command_channel,
                        );
                    assert(channels[i] == fewer[i]);
                } else {
                    assert(channels[channels.len() - 1] == channels.last());
                }
            }
            if exists|i: int|
                0 <= i < channels.len() && (#[trigger] channels[i]).id == id && goes_first(
                    channels[i],
                    category_id,
                    command_channel,
                ) {
                let i = choose|i: int|
                    0 <= i < channels.len() && (#[trigger] channels[i]).id == id && goes_first(
                        channels[i],
                        category_id,
                        command_channel,
                    );
                if i < fewer.len() {
                    assert(fewer[i] == channels[i]);
                    assert(before.contains(id));
                    let k = choose|k: int| 0 <= k < before.len() && before[k] == id;
                    assert(doomed[k] == id);
                } else {
                    assert(doomed[doomed.len() - 1] == id);
                }
            }
        }
    }
}

/// With a category go all of its channels and the channel in which the deletion was asked for, and
/// no others; that channel goes last, and only then.
pub proof fn law_doomed_channels(channels: Seq<GuildChannel>, category_id: u64, command_channel: u64)
    ensures
        forall|id: u64| #[trigger]
            doomed_channels(channels, category_id, command_channel).contains(id) <==> (id
                == command_channel || exists|i: int|
                0 <= i < channels.len() && (#[trigger] channels[i]).id == id
                    && channels[i].parent_id == Some(category_id)),
        forall|k: int|
            0 <= k < doomed_channels(channels, category_id, command_channel).len() ==> ((
            #[trigger] doomed_channels(channels, category_id, command_channel)[k])
                == command_channel <==> k == doomed_channels(
                channels,
                category_id,
                command_channel,
            ).len() - 1),
{
    let others = other_channels(channels, category_id, command_channel);
    let doomed = doomed_channels(channels, category_id, command_channel);
    lemma_other_channels(channels, category_id, command_channel);
    assert forall|id: u64| #[trigger] doomed.contains(id) <==> (id == command_channel || exists|
        i: int,
    |
        0 <= i < channels.len() && (#[trigger] channels[i]).id == id && channels[i].parent_id
            == Some(category_id)) by {
        if doomed.contains(id) && id != command_channel {
            let k = choose|k: int| 0 <= k < doomed.len() && doomed[k] == id;
            assert(others[k] == id);
            assert(others.contains(id));
        }
        if id == command_channel {
            assert(doomed[doomed.len() - 1] == id);
        } else if exists|i: int|
            0 <= i < channels.len() && (#[trigger] channels[i]).id == id && channels[i].parent_id
                == Some(category_id) {
            let i = choose|i: int|
                0 <= i < channels.len() && (#[trigger] channels[i]).id == id
                    && channels[i].parent_id == Some(category_id);
            assert(goes_first(channels[i], category_id, command_channel));
            assert(others.contains(id));
            let k = choose|k: int| 0 <= k < others.len() && others[k] == id;
            assert(doomed[k] == id);
        }
    }
    assert forall|k: int| 0 <= k < doomed.len() implies ((#[trigger] doomed[k]) == command_channel
        <==> k == doomed.len() - 1) by {
        if k < doomed.len() - 1 {
            assert(others[k] == doomed[k]);
            assert(others.contains(doomed[k]));
        }
    }
}

/// Where no two channels share an id, none is deleted twice.
pub proof fn law_no_channel_is_deleted_twice(
    channels: Seq<GuildChannel>,
    category_id: u64,
    command_channel: u64,
)
    requires
        forall|i: int, j: int|
            0 <= i < j < channels.len() ==> (#[trigger] channels[i]).id != (
            #[trigger] channels[j]).id,
    ensures
        doomed_channels(channels, category_id, command_channel).no_duplicates(),
{
    let others = other_channels(channels, category_id, command_channel);
    lemma_others_differ(channels, category_id, command_channel);
    lemma_other_channels(channels, category_id, command_channel);
    assert forall|k: int| 0 <= k < others.len() implies others[k] != command_channel by {
        assert(others.contains(others[k]));
    }
}

/// Where no two channels share an id, none goes first twice.
proof fn lemma_others_differ(channels: Seq<GuildChannel>, category_id: u64, command_channel: u64)
    requires
        forall|i: int, j: int|
            0 <= i < j < channels.len() ==> (#[trigger] channels[i]).id != (
            #[trigger] channels[j]).id,
    ensures
        other_channels(channels, category_id, command_channel).no_duplicates(),
    decreases channels.len(),
{
    if channels.len() > 0 {
        let fewer = channels.drop_last();
        let before = other_channels(fewer, category_id, command_channel);
        lemma_others_differ(fewer, category_id, command_channel);
        lemma_other_channels(fewer, category_id, command_channel);
        assert forall|k: int| 0 <= k < before.len() implies before[k] != channels.last().id by {
            assert(before.contains(before[k]));
            let i = choose|i: int|
                0 <= i < fewer.len() && (#[trigger] fewer[i]).id == before[k] && goes_first(
                    fewer[i],
                    category_id,
                    command_channel,
                );
            assert(channels[i] == fewer[i]);
            assert(channels[channels.len() - 1] == channels.last());
        }
    }
}

/// What is said of a channel to be made is said of all that is asked for.
pub proof fn law_the_view_of_a_new_channel_is_whole(channel: NewChannel)
    ensures
        channel@.name == channel.name@,
        channel@.kind == channel.kind,
        channel@.category_id == channel.category_id,
        channel.overwrites matches Some(list) ==> channel@.overwrites == Some(list@),
        channel.overwrites is None ==> channel@.overwrites is None,
{
}

/// The category of a project bears its name and stands in no other; everyone is shut out of it but
/// those who have the role of the project, and the bot.
pub proof fn law_the_category_in_full(name: Seq<char>, overwrites: ProjectOverwrites)
    ensures
        project_category(name, overwrites).name == name,
        project_category(name, overwrites).kind == ChannelKind::Category,
        project_category(name, overwrites).category_id is None,
        project_category(name, overwrites).overwrites == Some(
            seq![overwrites.deny_everyone, overwrites.allow_project, overwrites.allow_bot],
        ),
{
}

/// The nine channels inside the category of a project, in full: eight for text and a last one for
/// voice, in this order and under these names. The first and the last one for text have overwrites
/// of their own; the others take over those of the category. There is a short wait after each but
/// the last.
pub proof fn law_the_channels_in_full(
    index: int,
    category_id: u64,
    overwrites: ProjectOverwrites,
)
    requires
        0 <= index < 9,
    ensures
        PROJECT_CHANNELS == 9,
        project_channel(index, category_id, overwrites).name == seq![
            "📜information"@,
            "🤖bot"@,
            "🌐dev"@,
            "🚩issue"@,
            "✅progress"@,
            "📢notice"@,
            "🎡random"@,
            "🖥️github"@,
            "🎙️ voice chat"@,
        ][index],
        project_channel(index, category_id, overwrites).category_id == Some(category_id),
        project_channel(index, category_id, overwrites).kind == ChannelKind::Voice <==> index == 8,
        project_channel(index, category_id, overwrites).kind == ChannelKind::Text <==> index < 8,
        index == 0 ==> project_channel(index, category_id, overwrites).overwrites == Some(
            seq![
                overwrites.deny_everyone,
                overwrites.readonly_project,
                overwrites.allow_pm,
                overwrites.allow_bot,
            ],
        ),
        index == 7 ==> project_channel(index, category_id, overwrites).overwrites == Some(
            seq![overwrites.deny_everyone, overwrites.readonly_project, overwrites.allow_bot],
        ),
        index != 0 && index != 7 ==> project_channel(
            index,
            category_id,
            overwrites,
        ).overwrites is None,
        index < 8 ==> pause_after(index) == 10,
        index == 8 ==> pause_after(index) == 0,
{
}

/// The channels that go are taken from a list piece by piece, in its order: each that stands in the
/// category and is not the one of the command, and no other; the one of the command goes last.
pub proof fn law_doomed_channels_keep_their_order(
    front: Seq<GuildChannel>,
    channel: GuildChannel,
    category_id: u64,
    command_channel: u64,
)
    ensures
        doomed_channels(Seq::empty(), category_id, command_channel) == seq![command_channel],
        channel.parent_id == Some(category_id) && channel.id != command_channel ==> doomed_channels(
            front.push(channel),
            category_id,
            command_channel,
        ) == doomed_channels(front, category_id, command_channel).drop_last().push(channel.id).push(
            command_channel,
        ),
        !(channel.parent_id == Some(category_id) && channel.id != command_channel)
            ==> doomed_channels(front.push(channel), category_id, command_channel)
            == doomed_channels(front, category_id, command_channel),
{
    assert(front.push(channel).drop_last() =~= front);
    let others = other_channels(front, category_id, command_channel);
    assert(others.push(command_channel).drop_last() =~= others);
    assert(doomed_channels(Seq::empty(), category_id, command_channel) =~= seq![command_channel]);
}

} // verus!
