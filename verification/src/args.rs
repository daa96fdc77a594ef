//! What the words behind a command say about whom the command is about.

use crate::text::{
    chars_of, leading_digits, parse_u64, parse_unsigned, starts_with, strip_prefix, take_digits,
};
use vstd::prelude::*;

verus! {

/// The inside of a mention `<@..>` or `<@!..>`.
pub open spec fn mention_inside(text: Seq<char>) -> Option<Seq<char>> {
    if starts_with(text, "<@!"@) {
        closed_by(text.subrange("<@!"@.len() as int, text.len() as int))
    } else if starts_with(text, "<@"@) {
        closed_by(text.subrange("<@"@.len() as int, text.len() as int))
    } else {
        None
    }
}

/// `rest` without the `>` at its end, where it ends with one.
pub open spec fn closed_by(rest: Seq<char>) -> Option<Seq<char>> {
    if rest.len() > 0 && rest.last() == '>' {
        Some(rest.drop_last())
    } else {
        None
    }
}

/// The id that a run of digits spells, where it is one and not zero.
pub open spec fn user_id_of(digits: Seq<char>) -> Option<u64> {
    match parse_unsigned(digits, u64::MAX as nat) {
        Some(id) => if id > 0 {
            Some(id as u64)
        } else {
            None
        },
        None => None,
    }
}

/// The user that `text` names: by an id, or by a mention with nothing but
/// the digits of an id in it.
pub open spec fn mentioned_user(text: Seq<char>) -> Option<u64> {
    match user_id_of(text) {
        Some(id) => Some(id),
        None => match mention_inside(text) {
            Some(inside) => if leading_digits(inside) == inside {
                user_id_of(inside)
            } else {
                None
            },
            None => None,
        },
    }
}

fn read_user_id(digits: &str) -> (id: Option<u64>)
    ensures
        id == user_id_of(digits@),
{
    match parse_u64(digits) {
        Some(id) => if id > 0 {
            Some(id)
        } else {
            None
        },
        None => None,
    }
}

fn close<'a>(rest: &'a str) -> (inside: Option<&'a str>)
    ensures
        inside.is_some() == closed_by(rest@).is_some(),
        inside.is_some() ==> inside.unwrap()@ == closed_by(rest@).unwrap(),
{
    let chars = chars_of(rest);
    if chars.len() > 0 && chars[chars.len() - 1] == '>' {
        Some(rest.substring_char(0, chars.len() - 1))
    } else {
        None
    }
}

fn inside_of<'a>(text: &'a str) -> (inside: Option<&'a str>)
    ensures
        inside.is_some() == mention_inside(text@).is_some(),
        inside.is_some() ==> inside.unwrap()@ == mention_inside(text@).unwrap(),
{
    match strip_prefix(text, "<@!") {
        Some(rest) => close(rest),
        None => match strip_prefix(text, "<@") {
            Some(rest) => close(rest),
            None => None,
        },
    }
}

/// Reads the user that `text` names.
pub fn get_mention_user(text: &str) -> (user: Option<u64>)
    ensures
        user == mentioned_user(text@),
{
    match read_user_id(text) {
        Some(id) => Some(id),
        None => match inside_of(text) {
            Some(inside) => {
                let digits = take_digits(inside);
                proof {
                    lemma_leading_digits_prefix(inside@);
                    assert(inside@.subrange(0, inside@.len() as int) == inside@);
                }
                if digits.unicode_len() == inside.unicode_len() {
                    read_user_id(inside)
                } else {
                    None
                }
            },
            None => None,
        },
    }
}

/// The run of digits that a text starts with is a start of the text.
pub proof fn lemma_leading_digits_prefix(s: Seq<char>)
    ensures
        leading_digits(s).len() <= s.len(),
        leading_digits(s) == s.subrange(0, leading_digits(s).len() as int),
    decreases s.len(),
{
    if s.len() > 0 && crate::text::is_digit(s[0]) {
        lemma_leading_digits_prefix(s.drop_first());
        let rest = leading_digits(s.drop_first());
        assert(leading_digits(s) =~= s.subrange(0, (rest.len() + 1) as int));
    } else {
        assert(leading_digits(s) =~= s.subrange(0, 0));
    }
}

/// Whom a command is about: a name, or a user of the platform.
pub struct NameArgs {
    pub name: Option<String>,
    pub discord: Option<u64>,
}

/// What the words say: each word that names a user of the platform sets
/// that user, each other word is the name; of several, the last counts.
pub open spec fn name_args(words: Seq<String>) -> (Option<Seq<char>>, Option<u64>)
    decreases words.len(),
{
    if words.len() == 0 {
        (None, None)
    } else {
        let (name, discord) = name_args(words.drop_last());
        match mentioned_user(words.last()@) {
            Some(id) => (name, Some(id)),
            None => (Some(words.last()@), discord),
        }
    }
}

/// Reads whom a command is about from the words behind it.
pub fn read_name_args(words: &Vec<String>) -> (args: NameArgs)
    ensures
        crate::embed::opt_text(args.name) == name_args(words@).0,
        args.discord == name_args(words@).1,
{
    let mut name: Option<String> = None;
    let mut discord: Option<u64> = None;
    let mut i: usize = 0;
    assert(words@.subrange(0, 0) =~= Seq::<String>::empty());
    while i < words.len()
        invariant
            i <= words.len(),
            crate::embed::opt_text(name) == name_args(words@.subrange(0, i as int)).0,
            discord == name_args(words@.subrange(0, i as int)).1,
        decreases words.len() - i,
    {
        proof {
            let longer = words@.subrange(0, i + 1);
            assert(longer.drop_last() == words@.subrange(0, i as int));
            assert(longer.last() == words@[i as int]);
        }
        match get_mention_user(words[i].as_str()) {
            Some(id) => {
                discord = Some(id);
            },
            None => {
                name = Some(words[i].clone());
            },
        }
        i = i + 1;
    }
    assert(words@.subrange(0, words@.len() as int) == words@);
    NameArgs { name, discord }
}

} // verus!
