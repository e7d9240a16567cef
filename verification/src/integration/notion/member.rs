//! Members of the workspace.

use vstd::prelude::*;

verus! {

/// A member as Notion knows them, with the Discord account that belongs to them.
#[derive(Debug)]
pub struct NotionMember {
    pub id: String,
    pub name: String,
    pub discord_id: String,
}

/// The texts that a member holds.
#[verifier::ext_equal]
pub struct MemberView {
    pub id: Seq<char>,
    pub name: Seq<char>,
    pub discord_id: Seq<char>,
}

impl View for NotionMember {
    type V = MemberView;

    open spec fn view(&self) -> MemberView {
        MemberView { id: self.id@, name: self.name@, discord_id: self.discord_id@ }
    }
}

impl MemberView {
    /// A member of whom nothing is known.
    pub open spec fn unknown() -> MemberView {
        MemberView { id: Seq::empty(), name: Seq::empty(), discord_id: Seq::empty() }
    }
}

/// The members that a sequence holds, as the texts that they hold.
pub open spec fn member_views(members: Seq<NotionMember>) -> Seq<MemberView> {
    Seq::new(members.len(), |i: int| members[i]@)
}

/// What is left of a member who may not have been found.
pub open spec fn member_or_unknown(member: Option<NotionMember>) -> MemberView {
    match member {
        Some(found) => found@,
        None => MemberView::unknown(),
    }
}

impl Default for NotionMember {
    fn default() -> (member: Self)
        ensures
            member@ == MemberView::unknown(),
    {
        NotionMember { id: String::new(), name: String::new(), discord_id: String::new() }
    }
}

impl Clone for NotionMember {
    fn clone(&self) -> (copy: Self)
        ensures
            copy == *self,
    {
        NotionMember {
            id: self.id.clone(),
            name: self.name.clone(),
            discord_id: self.discord_id.clone(),
        }
    }
}

/// What is said of a member is said of all of their texts.
pub proof fn law_the_view_of_a_member_is_whole(member: NotionMember)
    ensures
        member@.id == member.id@,
        member@.name == member.name@,
        member@.discord_id == member.discord_id@,
{
}

/// What is said of several members is said of each, in their order.
pub proof fn law_members_are_seen_one_by_one(members: Seq<NotionMember>)
    ensures
        member_views(members).len() == members.len(),
        forall|i: int| 0 <= i < members.len() ==> member_views(members)[i] == (
        #[trigger] members[i])@,
{
}

/// A member who was found is taken as a whole; one who was not has no id, no name and no Discord id.
pub proof fn law_a_found_member_is_taken_whole(member: NotionMember)
    ensures
        member_or_unknown(Some(member)).id == member.id@,
        member_or_unknown(Some(member)).name == member.name@,
        member_or_unknown(Some(member)).discord_id == member.discord_id@,
        member_or_unknown(None).id.len() == 0,
        member_or_unknown(None).name.len() == 0,
        member_or_unknown(None).discord_id.len() == 0,
{
}

} // verus!
