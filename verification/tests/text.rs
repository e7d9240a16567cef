use project_bot::text::{
    convert_string_to_discord_id, same_text, to_decimal, user_mention, user_mentions,
};

#[test]
fn texts_are_the_same_only_where_all_characters_are() {
    assert!(same_text("봇", "봇"));
    assert!(same_text("", ""));
    assert!(!same_text("bot", "Bot"));
    assert!(!same_text("bot", "bots"));
}

#[test]
fn numbers_are_written_in_decimal() {
    assert_eq!(to_decimal(0), "0");
    assert_eq!(to_decimal(9), "9");
    assert_eq!(to_decimal(10), "10");
    assert_eq!(to_decimal(1_234_567_890), "1234567890");
    assert_eq!(to_decimal(u64::MAX), "18446744073709551615");
}

#[test]
fn discord_ids_are_positive_decimal_numbers() {
    assert_eq!(convert_string_to_discord_id("175928847299117063"), Some(175928847299117063));
    assert_eq!(convert_string_to_discord_id("+42"), Some(42));
    assert_eq!(convert_string_to_discord_id("007"), Some(7));
    assert_eq!(convert_string_to_discord_id("18446744073709551615"), Some(u64::MAX));
}

#[test]
fn other_texts_are_no_discord_ids() {
    for text in ["", "+", "0", "000", "-1", "12a", "1 2", "++1", "１２", "18446744073709551616"] {
        assert_eq!(convert_string_to_discord_id(text), None, "{}", text);
    }
    assert_eq!(convert_string_to_discord_id("99999999999999999999999"), None);
}

#[test]
fn discord_ids_are_read_back() {
    for id in [1, 10, 999, 1_000_000_007, u64::MAX] {
        assert_eq!(convert_string_to_discord_id(&to_decimal(id)), Some(id));
    }
}

#[test]
fn different_ids_are_written_differently() {
    assert_ne!(to_decimal(12), to_decimal(21));
    assert_ne!(to_decimal(1), to_decimal(10));
    assert_eq!(to_decimal(77), to_decimal(77));
}

#[test]
fn users_are_mentioned_by_their_ids() {
    assert_eq!(user_mention(5), "<@5>");
    assert_eq!(user_mentions(&vec![]), "");
    assert_eq!(user_mentions(&vec![5]), "<@5>");
    assert_eq!(user_mentions(&vec![5, 23, 100]), "<@5>, <@23>, <@100>");
}
