//! What is said in answer to the member commands.

use crate::text::{mentions, user_mentions};
use vstd::prelude::*;

verus! {

/// Why a member command goes no further.
#[derive(Debug, Clone, Copy, PartialEq, Eq, Structural)]
pub enum MemberRefusal {
    NotInServer,
    OutsideCategory,
    NoSubcommand,
    NotAllowed,
    NoRole,
    NothingChanged,
}

/// Whether a refusal counts as given even where it could not be delivered.
pub open spec fn is_lenient(refusal: MemberRefusal) -> bool {
    refusal != MemberRefusal::NotInServer && refusal != MemberRefusal::NoSubcommand
}

/// Whether a refusal counts as given even where it could not be delivered.
pub fn refusal_is_lenient(refusal: MemberRefusal) -> (lenient: bool)
    ensures
        lenient == is_lenient(refusal),
{
    match refusal {
        MemberRefusal::NotInServer => false,
        MemberRefusal::NoSubcommand => false,
        _ => true,
    }
}

/// The text of a refusal. `name` is the name of the project.
pub open spec fn refusal_text(refusal: MemberRefusal, name: Seq<char>) -> Seq<char> {
    match refusal {
        MemberRefusal::NotInServer => "❌ 이 명령어는 서버 안에서만 사용 가능합니다."@,
        MemberRefusal::OutsideCategory => "❌ 이 명령어는 프로젝트 카테고리 내부 채널에서만 사용 가능합니다."@,
        MemberRefusal::NoSubcommand => "⚠️ 올바른 하위 명령어를 선택해주세요."@,
        MemberRefusal::NotAllowed => "❌ 이 명령어를 사용할 권한이 없습니다. (PM 혹은 관리자만 가능)"@,
        MemberRefusal::NoRole => "❌ 서버에서 '"@ + name + "' 프로젝트에 해당하는 역할을 찾을 수 없습니다."@,
        MemberRefusal::NothingChanged => "❌ 변동 사항이 없거나 작업 가능한 대상 유저가 없습니다."@,
    }
}

/// The text of a refusal.
pub fn render_refusal(refusal: MemberRefusal, name: &str) -> (text: String)
    ensures
        text@ == refusal_text(refusal, name@),
{
    match refusal {
        MemberRefusal::NotInServer => "❌ 이 명령어는 서버 안에서만 사용 가능합니다.".to_string(),
        MemberRefusal::OutsideCategory => "❌ 이 명령어는 프로젝트 카테고리 내부 채널에서만 사용 가능합니다.".to_string(),
        MemberRefusal::NoSubcommand => "⚠️ 올바른 하위 명령어를 선택해주세요.".to_string(),
        MemberRefusal::NotAllowed => "❌ 이 명령어를 사용할 권한이 없습니다. (PM 혹은 관리자만 가능)".to_string(),
        MemberRefusal::NoRole => {
            let mut text = "❌ 서버에서 '".to_string();
            text.append(name);
            text.append("' 프로젝트에 해당하는 역할을 찾을 수 없습니다.");
            text
        },
        MemberRefusal::NothingChanged => "❌ 변동 사항이 없거나 작업 가능한 대상 유저가 없습니다.".to_string(),
    }
}

/// The head of the list of those who take part in a project, with a remark where there is nobody.
pub open spec fn list_head(project_name: Seq<char>, nobody: bool) -> Seq<char> {
    let title = "📌 **'"@ + project_name + "' 프로젝트 참여 인원 명단**\n"@;
    if nobody {
        title + "현재 등록된 멤버가 없습니다.\n"@
    } else {
        title
    }
}

/// The head of the list of those who take part in a project, with a remark where there is nobody.
pub fn render_list_head(project_name: &str, nobody: bool) -> (text: String)
    ensures
        text@ == list_head(project_name@, nobody),
{
    let mut text = "📌 **'".to_string();
    text.append(project_name);
    text.append("' 프로젝트 참여 인원 명단**\n");
    if nobody {
        text.append("현재 등록된 멤버가 없습니다.\n");
    }
    text
}

/// The line of the list for a member.
pub open spec fn list_line(name: Seq<char>) -> Seq<char> {
    "• "@ + name + "\n"@
}

/// Puts the line for a member behind a list.
pub fn push_list_line(list: &mut String, name: &str)
    ensures
        final(list)@ == old(list)@ + list_line(name@),
{
    let mut line = "• ".to_string();
    line.append(name);
    line.append("\n");
    list.append(line.as_str());
}

/// What is said when members have been added.
pub open spec fn added_text(user_ids: Seq<u64>, project_name: Seq<char>) -> Seq<char> {
    "✅ "@ + mentions(user_ids) + " 님이 '"@ + project_name + "' 프로젝트 멤버로 추가되었습니다!"@
}

/// What is said when members have been removed.
pub open spec fn removed_text(user_ids: Seq<u64>, project_name: Seq<char>) -> Seq<char> {
    "🗑️ "@ + mentions(user_ids) + " 님이 '"@ + project_name + "' 프로젝트 멤버에서 제외되었습니다."@
}

/// What is said when members have been added.
pub fn render_added(user_ids: &Vec<u64>, project_name: &str) -> (text: String)
    ensures
        text@ == added_text(user_ids@, project_name@),
{
    let mut text = "✅ ".to_string();
    text.append(user_mentions(user_ids).as_str());
    text.append(" 님이 '");
    text.append(project_name);
    text.append("' 프로젝트 멤버로 추가되었습니다!");
    text
}

/// What is said when members have been removed.
pub fn render_removed(user_ids: &Vec<u64>, project_name: &str) -> (text: String)
    ensures
        text@ == removed_text(user_ids@, project_name@),
{
    let mut text = "🗑️ ".to_string();
    text.append(user_mentions(user_ids).as_str());
    text.append(" 님이 '");
    text.append(project_name);
    text.append("' 프로젝트 멤버에서 제외되었습니다.");
    text
}

/// What each refusal says, whatever the names in it.
pub proof fn law_what_refusals_say(refusal: MemberRefusal, name: Seq<char>)
    ensures
        match refusal {
            MemberRefusal::NotInServer => refusal_text(refusal, name) == "❌ 이 명령어는 서버 안에서만 사용 가능합니다."@,
            MemberRefusal::OutsideCategory => refusal_text(refusal, name) == "❌ 이 명령어는 프로젝트 카테고리 내부 채널에서만 사용 가능합니다."@,
            MemberRefusal::NoSubcommand => refusal_text(refusal, name) == "⚠️ 올바른 하위 명령어를 선택해주세요."@,
            MemberRefusal::NotAllowed => refusal_text(refusal, name) == "❌ 이 명령어를 사용할 권한이 없습니다. (PM 혹은 관리자만 가능)"@,
            MemberRefusal::NoRole => refusal_text(refusal, name) == "❌ 서버에서 '"@ + name + "' 프로젝트에 해당하는 역할을 찾을 수 없습니다."@,
            MemberRefusal::NothingChanged => refusal_text(refusal, name) == "❌ 변동 사항이 없거나 작업 가능한 대상 유저가 없습니다."@,
        },
{
}

/// What is said on the way of each command, whatever the names and users in it.
pub proof fn law_what_is_said_on_the_way(name: Seq<char>, user_ids: Seq<u64>)
    ensures
        list_head(name, false) == "📌 **'"@ + name + "' 프로젝트 참여 인원 명단**\n"@,
        list_head(name, true) == "📌 **'"@ + name + "' 프로젝트 참여 인원 명단**\n"@
            + "현재 등록된 멤버가 없습니다.\n"@,
        list_line(name) == "• "@ + name + "\n"@,
        added_text(user_ids, name) == "✅ "@ + mentions(user_ids) + " 님이 '"@ + name + "' 프로젝트 멤버로 추가되었습니다!"@,
        removed_text(user_ids, name) == "🗑️ "@ + mentions(user_ids) + " 님이 '"@ + name + "' 프로젝트 멤버에서 제외되었습니다."@,
{
}

/// Exactly two refusals must be delivered: that a command belongs into a server, and that it needs
/// a subcommand.
pub proof fn law_which_refusals_are_lenient(refusal: MemberRefusal)
    ensures
        !is_lenient(refusal) <==> refusal == MemberRefusal::NotInServer || refusal
            == MemberRefusal::NoSubcommand,
{
}

} // verus!
