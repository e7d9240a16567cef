//! What is said in answer to the project commands.

use crate::text::{decimal, law_how_a_user_is_mentioned, mention, user_mention};
use vstd::prelude::*;

verus! {

/// Why a project command goes no further.
#[derive(Debug, Clone, Copy, PartialEq, Eq, Structural)]
pub enum Refusal {
    NotInServer,
    NoSubcommand,
    NoProjectName,
    NoNewName,
    NameTaken,
    OutsideCategoryToRename,
    OutsideCategoryToDelete,
    NotManager,
    NotAdministrator,
    NoBotUser,
    RoleNotCreated,
    CategoryNotCreated,
    CategoryNotRenamed,
}

/// Whether a refusal counts as given even where it could not be delivered.
pub open spec fn is_lenient(refusal: Refusal) -> bool {
    refusal == Refusal::NameTaken || refusal == Refusal::OutsideCategoryToRename || refusal
        == Refusal::OutsideCategoryToDelete
}

/// Whether a refusal counts as given even where it could not be delivered.
pub fn refusal_is_lenient(refusal: Refusal) -> (lenient: bool)
    ensures
        lenient == is_lenient(refusal),
{
    match refusal {
        Refusal::NameTaken => true,
        Refusal::OutsideCategoryToRename => true,
        Refusal::OutsideCategoryToDelete => true,
        _ => false,
    }
}

/// The text of a refusal. `name` is the project name that was asked for and `error` what went
/// wrong when a category was renamed.
pub open spec fn refusal_text(refusal: Refusal, name: Seq<char>, error: Seq<char>) -> Seq<char> {
    match refusal {
        Refusal::NotInServer => "❌ 이 명령어는 서버 안에서만 사용 가능합니다."@,
        Refusal::NoSubcommand => "❌ 올바른 하위 명령어를 선택해주세요."@,
        Refusal::NoProjectName => "⚠️ 생성할 프로젝트 이름을 제대로 입력해주세요."@,
        Refusal::NoNewName => "⚠️ 변경할 새 이름을 입력해주세요."@,
        Refusal::NameTaken => "❌ 이미 '"@ + name + "' 이름의 프로젝트가 존재합니다."@,
        Refusal::OutsideCategoryToRename => "❌ 프로젝트 카테고리 내부 채널에서 명령어를 입력해주세요."@,
        Refusal::OutsideCategoryToDelete => "❌ 삭제할 프로젝트 카테고리 내부의 채널에서 명령어를 입력해주세요."@,
        Refusal::NotManager => "❌ 프로젝트 PM만 이름 변경이 가능합니다."@,
        Refusal::NotAdministrator => "❌ 이 명령어는 서버 관리자(ADMINISTRATOR) 권한이 필요합니다."@,
        Refusal::NoBotUser => "❌ 봇 정보를 가져오지 못했습니다."@,
        Refusal::RoleNotCreated => "❌ 역할 생성 실패"@,
        Refusal::CategoryNotCreated => "❌ 카테고리 생성 실패"@,
        Refusal::CategoryNotRenamed => "❌ 이름 변경 실패: "@ + error,
    }
}

/// The text of a refusal.
pub fn render_refusal(refusal: Refusal, name: &str, error: &str) -> (text: String)
    ensures
        text@ == refusal_text(refusal, name@, error@),
{
    match refusal {
        Refusal::NotInServer => "❌ 이 명령어는 서버 안에서만 사용 가능합니다.".to_string(),
        Refusal::NoSubcommand => "❌ 올바른 하위 명령어를 선택해주세요.".to_string(),
        Refusal::NoProjectName => "⚠️ 생성할 프로젝트 이름을 제대로 입력해주세요.".to_string(),
        Refusal::NoNewName => "⚠️ 변경할 새 이름을 입력해주세요.".to_string(),
        Refusal::NameTaken => {
            let mut text = "❌ 이미 '".to_string();
            text.append(name);
            text.append("' 이름의 프로젝트가 존재합니다.");
            text
        },
        Refusal::OutsideCategoryToRename => "❌ 프로젝트 카테고리 내부 채널에서 명령어를 입력해주세요.".to_string(),
        Refusal::OutsideCategoryToDelete => "❌ 삭제할 프로젝트 카테고리 내부의 채널에서 명령어를 입력해주세요.".to_string(),
        Refusal::NotManager => "❌ 프로젝트 PM만 이름 변경이 가능합니다.".to_string(),
        Refusal::NotAdministrator => "❌ 이 명령어는 서버 관리자(ADMINISTRATOR) 권한이 필요합니다.".to_string(),
        Refusal::NoBotUser => "❌ 봇 정보를 가져오지 못했습니다.".to_string(),
        Refusal::RoleNotCreated => "❌ 역할 생성 실패".to_string(),
        Refusal::CategoryNotCreated => "❌ 카테고리 생성 실패".to_string(),
        Refusal::CategoryNotRenamed => {
            let mut text = "❌ 이름 변경 실패: ".to_string();
            text.append(error);
            text
        },
    }
}

/// What is said while a project is being set up.
pub open spec fn setup_text(name: Seq<char>) -> Seq<char> {
    "🏗️ '"@ + name + "' 프로젝트 생성을 시작합니다. 세팅 중..."@
}

/// What is said while a project is being set up.
pub fn render_setup(name: &str) -> (text: String)
    ensures
        text@ == setup_text(name@),
{
    let mut text = "🏗️ '".to_string();
    text.append(name);
    text.append("' 프로젝트 생성을 시작합니다. 세팅 중...");
    text
}

/// What is said when a project has been set up.
pub open spec fn ready_text(user_id: u64) -> Seq<char> {
    "🚀 "@ + mention(user_id) + " 님, 프로젝트 서버 세팅이 완료되었습니다!"@
}

/// What is said when a project has been set up.
pub fn render_ready(user_id: u64) -> (text: String)
    ensures
        text@ == ready_text(user_id),
{
    let mut text = "🚀 ".to_string();
    text.append(user_mention(user_id).as_str());
    text.append(" 님, 프로젝트 서버 세팅이 완료되었습니다!");
    text
}

/// What is said when a project has been renamed, with or without its role.
pub open spec fn renamed_text(name: Seq<char>, role_renamed: bool) -> Seq<char> {
    if role_renamed {
        "📝 프로젝트 카테고리와 역할 이름이 모두 '"@ + name + "'으로 변경되었습니다."@
    } else {
        "📝 프로젝트 이름은 '"@ + name + "'으로 변경되었으나, 동명의 기존 역할을 찾지 못했습니다."@
    }
}

/// What is said when a project has been renamed, with or without its role.
pub fn render_renamed(name: &str, role_renamed: bool) -> (text: String)
    ensures
        text@ == renamed_text(name@, role_renamed),
{
    if role_renamed {
        let mut text = "📝 프로젝트 카테고리와 역할 이름이 모두 '".to_string();
        text.append(name);
        text.append("'으로 변경되었습니다.");
        text
    } else {
        let mut text = "📝 프로젝트 이름은 '".to_string();
        text.append(name);
        text.append("'으로 변경되었으나, 동명의 기존 역할을 찾지 못했습니다.");
        text
    }
}

/// What is said while a project is being deleted.
pub open spec fn cleanup_text() -> Seq<char> {
    "🧹 프로젝트 채널들과 역할을 완전히 삭제합니다..."@
}

/// What is said while a project is being deleted.
pub fn render_cleanup() -> (text: String)
    ensures
        text@ == cleanup_text(),
{
    "🧹 프로젝트 채널들과 역할을 완전히 삭제합니다...".to_string()
}

/// What each refusal says, whatever the names in it.
pub proof fn law_what_refusals_say(refusal: Refusal, name: Seq<char>, error: Seq<char>)
    ensures
        match refusal {
            Refusal::NotInServer => refusal_text(refusal, name, error) == "❌ 이 명령어는 서버 안에서만 사용 가능합니다."@,
            Refusal::NoSubcommand => refusal_text(refusal, name, error) == "❌ 올바른 하위 명령어를 선택해주세요."@,
            Refusal::NoProjectName => refusal_text(refusal, name, error) == "⚠️ 생성할 프로젝트 이름을 제대로 입력해주세요."@,
            Refusal::NoNewName => refusal_text(refusal, name, error) == "⚠️ 변경할 새 이름을 입력해주세요."@,
            Refusal::NameTaken => refusal_text(refusal, name, error) == "❌ 이미 '"@ + name + "' 이름의 프로젝트가 존재합니다."@,
            Refusal::OutsideCategoryToRename => refusal_text(refusal, name, error) == "❌ 프로젝트 카테고리 내부 채널에서 명령어를 입력해주세요."@,
            Refusal::OutsideCategoryToDelete => refusal_text(refusal, name, error) == "❌ 삭제할 프로젝트 카테고리 내부의 채널에서 명령어를 입력해주세요."@,
            Refusal::NotManager => refusal_text(refusal, name, error) == "❌ 프로젝트 PM만 이름 변경이 가능합니다."@,
            Refusal::NotAdministrator => refusal_text(refusal, name, error) == "❌ 이 명령어는 서버 관리자(ADMINISTRATOR) 권한이 필요합니다."@,
            Refusal::NoBotUser => refusal_text(refusal, name, error) == "❌ 봇 정보를 가져오지 못했습니다."@,
            Refusal::RoleNotCreated => refusal_text(refusal, name, error) == "❌ 역할 생성 실패"@,
            Refusal::CategoryNotCreated => refusal_text(refusal, name, error) == "❌ 카테고리 생성 실패"@,
            Refusal::CategoryNotRenamed => refusal_text(refusal, name, error) == "❌ 이름 변경 실패: "@ + error,
        },
{
}

/// What is said on the way of each command, whatever the names and users in it.
pub proof fn law_what_is_said_on_the_way(name: Seq<char>, user_id: u64)
    ensures
        setup_text(name) == "🏗️ '"@ + name + "' 프로젝트 생성을 시작합니다. 세팅 중..."@,
        ready_text(user_id) == "🚀 "@ + (seq!['<', '@'] + decimal(user_id as nat) + seq!['>']) + " 님, 프로젝트 서버 세팅이 완료되었습니다!"@,
        renamed_text(name, true) == "📝 프로젝트 카테고리와 역할 이름이 모두 '"@ + name + "'으로 변경되었습니다."@,
        renamed_text(name, false) == "📝 프로젝트 이름은 '"@ + name + "'으로 변경되었으나, 동명의 기존 역할을 찾지 못했습니다."@,
        cleanup_text() == "🧹 프로젝트 채널들과 역할을 완전히 삭제합니다..."@,
{
    law_how_a_user_is_mentioned(user_id);
}

/// Exactly three refusals count as given even where they could not be delivered: that a name is
/// taken, and that a command was not given inside a category.
pub proof fn law_which_refusals_are_lenient(refusal: Refusal)
    ensures
        is_lenient(refusal) <==> refusal == Refusal::NameTaken || refusal
            == Refusal::OutsideCategoryToRename || refusal == Refusal::OutsideCategoryToDelete,
{
}

} // verus!
