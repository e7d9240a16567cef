//! Texts: comparison, decimal numbers, Discord ids and mentions.

use vstd::arithmetic::power::pow;
use vstd::prelude::*;

verus! {

/// The character of a decimal digit.
pub open spec fn digit_char(digit: nat) -> char {
    (digit + '0' as nat) as char
}

/// Whether a character is a decimal digit.
pub open spec fn is_digit(c: char) -> bool {
    '0' <= c <= '9'
}

/// The decimal notation of a number, without leading zeros.
pub open spec fn decimal(number: nat) -> Seq<char>
    decreases number,
{
    if number < 10 {
        seq![digit_char(number)]
    } else {
        decimal(number / 10).push(digit_char(number % 10))
    }
}

/// The number that a text of digits denotes.
pub open spec fn decimal_value(digits: Seq<char>) -> nat
    decreases digits.len(),
{
    if digits.len() == 0 {
        0
    } else {
        decimal_value(digits.drop_last()) * 10 + (digits.last() as nat - '0' as nat) as nat
    }
}

/// Whether every character of a text is a digit, and there is one.
pub open spec fn all_digits(text: Seq<char>) -> bool {
    text.len() > 0 && forall|i: int| 0 <= i < text.len() ==> is_digit(#[trigger] text[i])
}

/// The digits of a number in decimal notation, behind an optional plus sign.
pub open spec fn after_plus(text: Seq<char>) -> Seq<char> {
    if text.len() > 0 && text[0] == '+' {
        text.skip(1)
    } else {
        text
    }
}

/// The Discord id that a text denotes: a positive 64-bit number in decimal notation.
pub open spec fn discord_id(text: Seq<char>) -> Option<u64> {
    let digits = after_plus(text);
    if all_digits(digits) && 0 < decimal_value(digits) <= u64::MAX {
        Some(decimal_value(digits) as u64)
    } else {
        None
    }
}

/// An upper-case ASCII letter in lower case; any other character as it is.
pub open spec fn lower_ascii(c: char) -> char {
    if 'A' <= c <= 'Z' {
        (c as nat + 32) as char
    } else {
        c
    }
}

/// Whether two texts are the same but for the case of their ASCII letters.
pub open spec fn same_ignoring_ascii_case(a: Seq<char>, b: Seq<char>) -> bool {
    a.len() == b.len() && forall|i: int|
        0 <= i < a.len() ==> lower_ascii(#[trigger] a[i]) == lower_ascii(b[i])
}

/// The characters of several texts.
pub open spec fn texts(strings: Seq<String>) -> Seq<Seq<char>> {
    Seq::new(strings.len(), |i: int| strings[i]@)
}

/// How a message names a user.
pub open spec fn mention(user_id: u64) -> Seq<char> {
    "<@"@ + decimal(user_id as nat) + ">"@
}

/// The mentions of several users, separated by commas.
pub open spec fn mentions(user_ids: Seq<u64>) -> Seq<char>
    decreases user_ids.len(),
{
    if user_ids.len() == 0 {
        Seq::empty()
    } else if user_ids.len() == 1 {
        mention(user_ids[0])
    } else {
        mentions(user_ids.drop_last()) + ", "@ + mention(user_ids.last())
    }
}

/// `str::eq_ignore_ascii_case` of std: whether two texts match when upper-case and lower-case
/// ASCII letters count as the same.
pub assume_specification[ str::eq_ignore_ascii_case ](text: &str, other: &str) -> (same: bool)
    ensures
        same == same_ignoring_ascii_case(text@, other@),
;

/// Whether two texts are the same.
pub fn same_text(a: &str, b: &str) -> (same: bool)
    ensures
        same == (a@ == b@),
{
    a.to_string() == b.to_string()
}

/// The text of a digit.
fn digit_text(digit: u64) -> (text: &'static str)
    requires
        digit < 10,
    ensures
        text@ == seq![digit_char(digit as nat)],
{
    proof {
        reveal_strlit("0");
        reveal_strlit("1");
        reveal_strlit("2");
        reveal_strlit("3");
        reveal_strlit("4");
        reveal_strlit("5");
        reveal_strlit("6");
        reveal_strlit("7");
        reveal_strlit("8");
        reveal_strlit("9");
    }
    if digit == 0 {
        "0"
    } else if digit == 1 {
        "1"
    } else if digit == 2 {
        "2"
    } else if digit == 3 {
        "3"
    } else if digit == 4 {
        "4"
    } else if digit == 5 {
        "5"
    } else if digit == 6 {
        "6"
    } else if digit == 7 {
        "7"
    } else if digit == 8 {
        "8"
    } else {
        "9"
    }
}

/// A number in decimal notation.
pub fn to_decimal(number: u64) -> (text: String)
    ensures
        text@ == decimal(number as nat),
    decreases number,
{
    if number < 10 {
        digit_text(number).to_string()
    } else {
        let mut text = to_decimal(number / 10);
        text.append(digit_text(number % 10));
        text
    }
}

/// The digit that a character stands for.
fn digit_value(c: char) -> (digit: Option<u64>)
    ensures
        digit is Some <==> is_digit(c),
        digit is Some ==> digit->0 == c as nat - '0' as nat && digit->0 < 10,
{
    if '0' <= c && c <= '9' {
        Some((c as u64) - ('0' as u64))
    } else {
        None
    }
}

/// A prefix of a text of digits denotes no more than the whole.
proof fn lemma_prefix_value(digits: Seq<char>, length: int)
    requires
        0 <= length <= digits.len(),
    ensures
        decimal_value(digits.take(length)) <= decimal_value(digits),
    decreases digits.len(),
{
    if length == digits.len() {
        assert(digits.take(length) =~= digits);
    } else {
        lemma_prefix_value(digits.drop_last(), length);
        assert(digits.drop_last().take(length) =~= digits.take(length));
    }
}

/// The Discord id that a text denotes, if it denotes one.
pub fn convert_string_to_discord_id(text: &str) -> (id: Option<u64>)
    ensures
        id == discord_id(text@),
{
    let length = text.unicode_len();
    let start: usize = if length > 0 && text.get_char(0) == '+' {
        1
    } else {
        0
    };
    let ghost digits = after_plus(text@);
    assert(digits =~= text@.skip(start as int));
    if start == length {
        return None;
    }
    let mut value: u64 = 0;
    let mut next: usize = start;
    while next < length
        invariant
            start <= next <= length,
            length == text@.len(),
            start < length,
            digits == text@.skip(start as int),
            digits == after_plus(text@),
            forall|i: int| 0 <= i < next - start ==> is_digit(#[trigger] digits[i]),
            value == decimal_value(digits.take(next - start)),
        decreases length - next,
    {
        let ghost seen = digits.take(next - start);
        let ghost longer = digits.take(next - start + 1);
        proof {
            assert(longer.drop_last() =~= seen);
            assert(longer.last() == digits[next - start]);
            assert(digits[next - start] == text@[next as int]);
            lemma_prefix_value(digits, next - start + 1);
        }
        let c = text.get_char(next);
        match digit_value(c) {
            Some(digit) => {
                if value > (u64::MAX - digit) / 10 {
                    return None;
                }
                value = value * 10 + digit;
            },
            None => {
                assert(!all_digits(digits));
                return None;
            },
        }
        next = next + 1;
    }
    assert(digits.take(length - start) =~= digits);
    if value == 0 {
        None
    } else {
        Some(value)
    }
}

/// How a message names a user.
pub fn user_mention(user_id: u64) -> (text: String)
    ensures
        text@ == mention(user_id),
{
    let mut text = "<@".to_string();
    text.append(to_decimal(user_id).as_str());
    text.append(">");
    text
}

/// The mentions of several users, separated by commas.
pub fn user_mentions(user_ids: &Vec<u64>) -> (text: String)
    ensures
        text@ == mentions(user_ids@),
{
    let mut text = String::new();
    let mut next: usize = 0;
    while next < user_ids.len()
        invariant
            next <= user_ids.len(),
            text@ == mentions(user_ids@.take(next as int)),
        decreases user_ids.len() - next,
    {
        if next > 0 {
            text.append(", ");
        }
        text.append(user_mention(user_ids[next]).as_str());
        proof {
            let longer = user_ids@.take(next + 1);
            assert(longer.drop_last() =~= user_ids@.take(next as int));
            if next == 0 {
                assert(text@ =~= mention(user_ids@[0]));
            }
        }
        next = next + 1;
    }
    assert(user_ids@.take(next as int) =~= user_ids@);
    text
}

/// The decimal notation of a number is made of digits, and denotes the number.
pub proof fn lemma_decimal_denotes(number: nat)
    ensures
        all_digits(decimal(number)),
        decimal_value(decimal(number)) == number,
    decreases number,
{
    if number < 10 {
        let one = decimal(number);
        assert(one.drop_last() =~= Seq::<char>::empty());
        assert(decimal_value(one.drop_last()) == 0);
    } else {
        lemma_decimal_denotes(number / 10);
        let text = decimal(number);
        assert(text.drop_last() =~= decimal(number / 10));
        assert forall|i: int| 0 <= i < text.len() implies is_digit(#[trigger] text[i]) by {
            if i < text.len() - 1 {
                assert(text[i] == decimal(number / 10)[i]);
            }
        }
    }
}

/// A Discord id that is written down is read back.
pub proof fn law_discord_id_round_trip(id: u64)
    requires
        id != 0,
    ensures
        discord_id(decimal(id as nat)) == Some(id),
{
    lemma_decimal_denotes(id as nat);
    let text = decimal(id as nat);
    assert(is_digit(text[0]));
    assert(after_plus(text) == text);
}

/// Different ids are written differently.
pub proof fn law_decimal_is_injective(a: u64, b: u64)
    ensures
        decimal(a as nat) == decimal(b as nat) <==> a == b,
{
    lemma_decimal_denotes(a as nat);
    lemma_decimal_denotes(b as nat);
}

/// A text of digits denotes a number by the place of each digit: whatever stands in front counts
/// for ten times as much with every digit behind it.
pub proof fn law_digits_count_by_their_place(front: Seq<char>, back: Seq<char>)
    ensures
        decimal_value(front + back) == decimal_value(front) * pow(10, back.len()) + decimal_value(
            back,
        ),
    decreases back.len(),
{
    reveal(pow);
    if back.len() == 0 {
        assert(front + back =~= front);
        assert(decimal_value(back) == 0);
        assert(decimal_value(front) * 1 == decimal_value(front));
    } else {
        let shorter = back.drop_last();
        law_digits_count_by_their_place(front, shorter);
        assert((front + back).drop_last() =~= front + shorter);
        let high = decimal_value(front) as int;
        let low = decimal_value(shorter) as int;
        let scale = pow(10, shorter.len());
        assert(pow(10, back.len()) == 10 * scale);
        assert((high * scale + low) * 10 == high * (10 * scale) + low * 10) by (nonlinear_arith);
    }
}

/// A single digit denotes what it shows, and no digit at all denotes zero.
pub proof fn law_a_digit_denotes_what_it_shows(c: char)
    requires
        '0' <= c <= '9',
    ensures
        decimal_value(seq![c]) == c as nat - 48,
        decimal_value(Seq::empty()) == 0,
{
    let one = seq![c];
    assert(one.drop_last() =~= Seq::<char>::empty());
    assert(decimal_value(one.drop_last()) == 0);
}

/// The decimal notation of a number is made of the digits from nought to nine, denotes the number,
/// and does not begin with a nought unless it is nothing else.
pub proof fn law_decimal_is_shortest(number: nat)
    ensures
        decimal(number).len() > 0,
        forall|i: int| 0 <= i < decimal(number).len() ==> '0' <= #[trigger] decimal(number)[i] <= '9',
        decimal_value(decimal(number)) == number,
        decimal(number)[0] == '0' ==> number == 0 && decimal(number).len() == 1,
    decreases number,
{
    lemma_decimal_denotes(number);
    assert forall|i: int| 0 <= i < decimal(number).len() implies '0' <= #[trigger] decimal(
        number,
    )[i] <= '9' by {
        assert(is_digit(decimal(number)[i]));
    }
    if number >= 10 {
        law_decimal_is_shortest(number / 10);
        assert(decimal(number)[0] == decimal(number / 10)[0]);
    }
}

/// As many noughts as are asked for.
pub open spec fn noughts(count: nat) -> Seq<char> {
    Seq::new(count, |i: int| '0')
}

/// Noughts denote nothing.
proof fn lemma_noughts(count: nat)
    ensures
        decimal_value(noughts(count)) == 0,
    decreases count,
{
    if count > 0 {
        assert(noughts(count).drop_last() =~= noughts((count - 1) as nat));
        lemma_noughts((count - 1) as nat);
    }
}

/// A text of digits is the decimal notation of what it denotes behind noughts, or noughts alone.
proof fn lemma_digits_are_decimal(digits: Seq<char>)
    requires
        forall|i: int| 0 <= i < digits.len() ==> is_digit(#[trigger] digits[i]),
    ensures
        decimal_value(digits) == 0 ==> digits == noughts(digits.len()),
        decimal_value(digits) > 0 ==> decimal(decimal_value(digits)).len() <= digits.len()
            && digits == noughts(
            (digits.len() - decimal(decimal_value(digits)).len()) as nat,
        ) + decimal(decimal_value(digits)),
    decreases digits.len(),
{
    if digits.len() > 0 {
        let shorter = digits.drop_last();
        let c = digits.last();
        assert(is_digit(digits[digits.len() - 1]));
        assert forall|i: int| 0 <= i < shorter.len() implies is_digit(#[trigger] shorter[i]) by {
            assert(shorter[i] == digits[i]);
        }
        lemma_digits_are_decimal(shorter);
        let high = decimal_value(shorter);
        let value = decimal_value(digits);
        let digit = (c as nat - '0' as nat) as nat;
        assert(digit_char(digit) == c);
        assert(value == high * 10 + digit);
        assert(shorter.push(c) =~= digits);
        if high > 0 {
            assert(value / 10 == high && value % 10 == digit);
            assert(decimal(value) == decimal(high).push(c));
            assert(digits =~= noughts((digits.len() - decimal(value).len()) as nat) + decimal(
                value,
            ));
        } else if digit > 0 {
            assert(decimal(value) =~= seq![c]);
            assert(digits =~= noughts((digits.len() - 1) as nat) + decimal(value));
        } else {
            assert(digits =~= noughts(digits.len()));
        }
    } else {
        assert(digits =~= noughts(0));
    }
}

/// A text denotes a Discord id exactly where it is the decimal notation of that id, which is not
/// nought, with nothing in front but noughts and, before them, a plus sign.
pub proof fn law_what_a_discord_id_is(text: Seq<char>, id: u64)
    ensures
        discord_id(text) == Some(id) <==> id > 0 && exists|count: nat|
            text == #[trigger] noughts(count) + decimal(id as nat) || text == seq!['+'] + noughts(
                count,
            ) + decimal(id as nat),
{
    let number = decimal(id as nat);
    if discord_id(text) == Some(id) {
        let digits = after_plus(text);
        lemma_digits_are_decimal(digits);
        let count = (digits.len() - number.len()) as nat;
        assert(digits == noughts(count) + number);
        if text.len() > 0 && text[0] == '+' {
            assert(text =~= seq!['+'] + text.skip(1));
            assert(seq!['+'] + (noughts(count) + number) =~= seq!['+'] + noughts(count) + number);
        }
    }
    if id > 0 && exists|count: nat|
        text == #[trigger] noughts(count) + number || text == seq!['+'] + noughts(count) + number {
        let count = choose|count: nat|
            text == #[trigger] noughts(count) + number || text == seq!['+'] + noughts(count)
                + number;
        let digits = noughts(count) + number;
        lemma_noughts(count);
        lemma_decimal_denotes(id as nat);
        law_digits_count_by_their_place(noughts(count), number);
        assert(0 * pow(10, number.len()) == 0);
        assert forall|i: int| 0 <= i < digits.len() implies is_digit(#[trigger] digits[i]) by {
            if i >= count {
                assert(digits[i] == number[i - count]);
            }
        }
        assert(is_digit(digits[0]));
        if text == seq!['+'] + noughts(count) + number {
            assert(text.skip(1) =~= digits);
        }
        assert(after_plus(text) == digits);
    }
}

/// Two texts are the same but for the case of their ASCII letters exactly where they are equally
/// long and at every place hold the same character, or the capital and the small form of one ASCII
/// letter.
pub proof fn law_which_letters_count_as_the_same(a: Seq<char>, b: Seq<char>)
    ensures
        same_ignoring_ascii_case(a, b) <==> a.len() == b.len() && forall|i: int|
            0 <= i < a.len() ==> {
                ||| #[trigger] a[i] == b[i]
                ||| 'A' <= a[i] <= 'Z' && b[i] as nat == a[i] as nat + 32
                ||| 'A' <= b[i] <= 'Z' && a[i] as nat == b[i] as nat + 32
            },
{
}

/// A user is mentioned by an opening bracket and an at sign, the decimal notation of their id, and
/// a closing bracket.
pub proof fn law_how_a_user_is_mentioned(user_id: u64)
    ensures
        mention(user_id) == seq!['<', '@'] + decimal(user_id as nat) + seq!['>'],
        mentions(seq![user_id]) == mention(user_id),
        mentions(Seq::empty()).len() == 0,
{
    reveal_strlit("<@");
    reveal_strlit(">");
    assert("<@"@ =~= seq!['<', '@']);
    assert(">"@ =~= seq!['>']);
}

/// Several users are mentioned one after the other, in their order, with a comma and a space between
/// any two: nobody is left out and nobody is named twice.
pub proof fn law_mentions_are_joined(front: Seq<u64>, back: Seq<u64>)
    requires
        front.len() > 0,
        back.len() > 0,
    ensures
        mentions(front + back) == mentions(front) + seq![',', ' '] + mentions(back),
        back.len() == 1 ==> mentions(back) == mention(back[0]),
    decreases back.len(),
{
    reveal_strlit(", ");
    assert(", "@ =~= seq![',', ' ']);
    let all = front + back;
    if back.len() == 1 {
        assert(all.drop_last() =~= front);
        assert(all.last() == back[0]);
    } else {
        law_mentions_are_joined(front, back.drop_last());
        assert(all.drop_last() =~= front + back.drop_last());
        assert(mentions(all) =~= mentions(front) + seq![',', ' '] + mentions(back));
    }
}

/// The characters of several texts are those of each, in their order.
pub proof fn law_texts_are_those_of_each(strings: Seq<String>)
    ensures
        texts(strings).len() == strings.len(),
        forall|i: int| 0 <= i < strings.len() ==> texts(strings)[i] == (#[trigger] strings[i])@,
{
}

} // verus!
