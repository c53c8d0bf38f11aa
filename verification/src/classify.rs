//! From an inbound chat text to a typed command.
//!
//! A command begins with a lead: the prefix, or a mention of the bot. Behind
//! the lead stands the name of the command, or a word of a group and then
//! the name; what follows the name are the arguments. White space may stand
//! before the lead and between any two of these.
use crate::registry::{
    find_command, group_words_are_words, names_are_distinct_words, resolve, Biconomy, Command,
    PREFIX,
};
use crate::text::{
    chars_of, decimal, decimal_holds_digits, decimal_string, has_at, is_blank, is_space, is_word,
    past_spaces, past_word, skip_spaces, skip_spaces_finds, skip_word, skip_word_finds, starts_at,
};
use vstd::prelude::*;
use vstd::string::*;

verus! {

/// What an inbound text turned out to be.
#[derive(Clone, Debug, PartialEq)]
pub enum Classification {
    /// No command: the text is ordinary talk.
    NormalMessage,
    /// Meant as a command, but no command goes by this name.
    UnknownCommand(String),
    /// A call of `command`, with what follows its name.
    Invoke { command: Command, args: String },
}

/// What a [`Classification`] says.
pub enum Parsed {
    NormalMessage,
    UnknownCommand(Seq<char>),
    Invoke { command: Command, args: Seq<char> },
}

impl View for Classification {
    type V = Parsed;

    open spec fn view(&self) -> Parsed {
        match *self {
            Classification::NormalMessage => Parsed::NormalMessage,
            Classification::UnknownCommand(name) => Parsed::UnknownCommand(name@),
            Classification::Invoke { command, args } => Parsed::Invoke { command, args: args@ },
        }
    }
}

/// How the user `id` is mentioned, plainly or, if `nick`, by nickname.
pub open spec fn mention_text(id: u64, nick: bool) -> Seq<char> {
    if nick {
        "<@!"@ + decimal(id as nat) + ">"@
    } else {
        "<@"@ + decimal(id as nat) + ">"@
    }
}

/// Where the lead of a command ends, if one stands at `at`: a mention of the
/// bot, where its user id is given, or the prefix.
pub open spec fn lead_end(s: Seq<char>, at: int, mention: Option<u64>) -> Option<int> {
    if mention is Some && starts_at(s, at, mention_text(mention.unwrap(), false)) {
        Some(at + mention_text(mention.unwrap(), false).len())
    } else if mention is Some && starts_at(s, at, mention_text(mention.unwrap(), true)) {
        Some(at + mention_text(mention.unwrap(), true).len())
    } else if starts_at(s, at, PREFIX@) {
        Some(at + PREFIX@.len())
    } else {
        None
    }
}

/// What the text `s` is. White space may stand before the lead and after it.
/// A text without a lead, or with nothing behind it, is ordinary talk. Else
/// the words behind the lead are looked up: they call a command, whose
/// arguments are what follows its name and the white space after it, or the
/// first of them is reported as unknown.
pub open spec fn parse(s: Seq<char>, mention: Option<u64>) -> Parsed {
    match lead_end(s, skip_spaces(s, 0), mention) {
        None => Parsed::NormalMessage,
        Some(after_lead) => {
            let first_at = skip_spaces(s, after_lead);
            let first_end = skip_word(s, first_at);
            let second_at = skip_spaces(s, first_end);
            let second_end = skip_word(s, second_at);
            let third_at = skip_spaces(s, second_end);
            if first_at >= s.len() {
                Parsed::NormalMessage
            } else {
                match resolve(s.subrange(first_at, first_end), s.subrange(second_at, second_end)) {
                    Some((command, false)) => Parsed::Invoke {
                        command,
                        args: s.subrange(second_at, s.len() as int),
                    },
                    Some((command, true)) => Parsed::Invoke {
                        command,
                        args: s.subrange(third_at, s.len() as int),
                    },
                    None => Parsed::UnknownCommand(s.subrange(first_at, first_end)),
                }
            }
        },
    }
}

/// Computes [`lead_end`].
fn find_lead(s: &Vec<char>, at: usize, mention: Option<u64>) -> (end: Option<usize>)
    requires
        at <= s.len(),
    ensures
        match end {
            Some(e) => lead_end(s@, at as int, mention) == Some(e as int) && at <= e <= s.len(),
            None => lead_end(s@, at as int, mention) is None,
        },
{
    if let Some(id) = mention {
        let digits = decimal_string(id);
        let plain = chars_of(String::from_str("<@").concat(digits.as_str()).concat(">").as_str());
        if has_at(s, at, &plain) {
            return Some(at + plain.len());
        }
        let nick = chars_of(String::from_str("<@!").concat(digits.as_str()).concat(">").as_str());
        if has_at(s, at, &nick) {
            return Some(at + nick.len());
        }
    }
    let prefix = chars_of(PREFIX);
    if has_at(s, at, &prefix) {
        Some(at + prefix.len())
    } else {
        None
    }
}

/// Says what the inbound text `content` is. `mention` is the user id of the
/// bot, where a mention of it may stand for the prefix.
pub fn classify(content: &str, mention: Option<u64>) -> (found: Classification)
    ensures
        found@ == parse(content@, mention),
{
    let s = chars_of(content);
    let start = past_spaces(&s, 0);
    match find_lead(&s, start, mention) {
        None => Classification::NormalMessage,
        Some(after_lead) => {
            let first_at = past_spaces(&s, after_lead);
            let first_end = past_word(&s, first_at);
            let second_at = past_spaces(&s, first_end);
            let second_end = past_word(&s, second_at);
            let third_at = past_spaces(&s, second_end);
            if first_at >= s.len() {
                return Classification::NormalMessage;
            }
            let first = content.substring_char(first_at, first_end);
            let second = content.substring_char(second_at, second_end);
            match find_command(first, second) {
                Some((command, false)) => Classification::Invoke {
                    command,
                    args: String::from_str(content.substring_char(second_at, s.len())),
                },
                Some((command, true)) => Classification::Invoke {
                    command,
                    args: String::from_str(content.substring_char(third_at, s.len())),
                },
                None => Classification::UnknownCommand(String::from_str(first)),
            }
        },
    }
}

/// Where the prefix stands at `at`, the lead ends behind it, whether or not
/// a mention of the bot would do as well.
proof fn prefix_stands(s: Seq<char>, at: int, mention: Option<u64>)
    requires
        starts_at(s, at, PREFIX@),
    ensures
        !is_space(s[at]),
        lead_end(s, at, mention) == Some(at + 1),
{
    reveal_strlit("!");
    reveal_strlit("<@");
    reveal_strlit("<@!");
    assert(s[at] == s.subrange(at, at + 1)[0]);
    if mention is Some {
        let plain = mention_text(mention.unwrap(), false);
        let nick = mention_text(mention.unwrap(), true);
        assert(plain[0] == '<' && nick[0] == '<');
        if starts_at(s, at, plain) {
            assert(s.subrange(at, at + plain.len())[0] == plain[0]);
        }
        if starts_at(s, at, nick) {
            assert(s.subrange(at, at + nick.len())[0] == nick[0]);
        }
    }
}

/// Where a mention of the bot stands at `at`, the lead ends behind it.
proof fn mention_stands(s: Seq<char>, at: int, id: u64, nick: bool)
    requires
        starts_at(s, at, mention_text(id, nick)),
    ensures
        !is_space(s[at]),
        lead_end(s, at, Some(id)) == Some(at + mention_text(id, nick).len()),
{
    reveal_strlit("<@");
    reveal_strlit("<@!");
    let lead = mention_text(id, nick);
    decimal_holds_digits(id as nat);
    assert(s[at] == s.subrange(at, at + lead.len())[0]);
    assert(lead[0] == '<');
    if nick {
        let plain = mention_text(id, false);
        assert(plain[2] == decimal(id as nat)[0]);
        assert(lead[2] == '!');
        if starts_at(s, at, plain) {
            assert(s.subrange(at, at + plain.len())[2] == plain[2]);
            assert(s.subrange(at, at + lead.len())[2] == lead[2]);
        }
    }
}

/// Where the white space `gap` stands at `at` and ends there, the scan runs
/// over it.
proof fn gap_stands(s: Seq<char>, at: int, gap: Seq<char>)
    requires
        starts_at(s, at, gap),
        is_blank(gap),
        at + gap.len() < s.len() ==> !is_space(s[at + gap.len()]),
    ensures
        skip_spaces(s, at) == at + gap.len(),
{
    assert forall|i: int| at <= i < at + gap.len() implies is_space(#[trigger] s[i]) by {
        assert(s[i] == s.subrange(at, at + gap.len())[i - at]);
    }
    skip_spaces_finds(s, at, at + gap.len());
}

/// Where the word `word` stands at `at` and ends there, the scan runs over
/// it.
proof fn word_stands(s: Seq<char>, at: int, word: Seq<char>)
    requires
        starts_at(s, at, word),
        is_word(word),
        at + word.len() < s.len() ==> is_space(s[at + word.len()]),
    ensures
        !is_space(s[at]),
        skip_word(s, at) == at + word.len(),
{
    assert forall|i: int| at <= i < at + word.len() implies !is_space(#[trigger] s[i]) by {
        assert(s[i] == s.subrange(at, at + word.len())[i - at]);
    }
    skip_word_finds(s, at, at + word.len());
}

/// Every command is called by its name behind the prefix. White space may
/// stand before the prefix and behind it. The arguments are whatever follows
/// the name and the white space behind it, and come out as they went in.
#[verifier::rlimit(50)]
pub proof fn name_calls_command(
    before: Seq<char>,
    between: Seq<char>,
    command: Command,
    gap: Seq<char>,
    args: Seq<char>,
    mention: Option<u64>,
)
    requires
        is_blank(before),
        is_blank(between),
        is_blank(gap),
        args.len() > 0 ==> gap.len() > 0 && !is_space(args[0]),
    ensures
        parse(before + PREFIX@ + between + command.name_of() + gap + args, mention) == (
        Parsed::Invoke { command, args }),
{
    reveal_strlit("!");
    let name = command.name_of();
    let s = before + PREFIX@ + between + name + gap + args;
    let lead_at = before.len() as int;
    let name_at = lead_at + 1 + between.len();
    let gap_at = name_at + name.len();
    let args_at = gap_at + gap.len();
    names_are_distinct_words(command);
    assert(s.subrange(lead_at, lead_at + 1) =~= PREFIX@);
    prefix_stands(s, lead_at, mention);
    assert(s.subrange(0, lead_at) =~= before);
    gap_stands(s, 0, before);
    assert(s.subrange(name_at, gap_at) =~= name);
    assert(gap.len() > 0 ==> s[gap_at] == gap[0]);
    word_stands(s, name_at, name);
    assert(s.subrange(lead_at + 1, name_at) =~= between);
    gap_stands(s, lead_at + 1, between);
    assert(s.subrange(gap_at, args_at) =~= gap);
    assert(args.len() > 0 ==> s[args_at] == args[0]);
    gap_stands(s, gap_at, gap);
    assert(s.subrange(args_at, s.len() as int) =~= args);
}

/// The commands of the Biconomy group are also called by a word of the
/// group, white space and the command's name, behind the prefix.
#[verifier::rlimit(50)]
pub proof fn group_word_calls_command(
    before: Seq<char>,
    between: Seq<char>,
    word: Seq<char>,
    space: Seq<char>,
    command: Command,
    gap: Seq<char>,
    args: Seq<char>,
    mention: Option<u64>,
)
    requires
        is_blank(before),
        is_blank(between),
        Biconomy::names(word),
        is_blank(space),
        space.len() > 0,
        Biconomy::holds(command),
        is_blank(gap),
        args.len() > 0 ==> gap.len() > 0 && !is_space(args[0]),
    ensures
        parse(
            before + PREFIX@ + between + word + space + command.name_of() + gap + args,
            mention,
        ) == (Parsed::Invoke { command, args }),
{
    reveal_strlit("!");
    let name = command.name_of();
    let s = before + PREFIX@ + between + word + space + name + gap + args;
    let lead_at = before.len() as int;
    let word_at = lead_at + 1 + between.len();
    let space_at = word_at + word.len();
    let name_at = space_at + space.len();
    let gap_at = name_at + name.len();
    let args_at = gap_at + gap.len();
    names_are_distinct_words(command);
    group_words_are_words(word);
    assert(s.subrange(lead_at, lead_at + 1) =~= PREFIX@);
    prefix_stands(s, lead_at, mention);
    assert(s.subrange(0, lead_at) =~= before);
    gap_stands(s, 0, before);
    assert(s.subrange(word_at, space_at) =~= word);
    assert(s[space_at] == space[0]);
    word_stands(s, word_at, word);
    assert(s.subrange(lead_at + 1, word_at) =~= between);
    gap_stands(s, lead_at + 1, between);
    assert(s.subrange(name_at, gap_at) =~= name);
    assert(gap.len() > 0 ==> s[gap_at] == gap[0]);
    word_stands(s, name_at, name);
    assert(s.subrange(space_at, name_at) =~= space);
    gap_stands(s, space_at, space);
    assert(s.subrange(gap_at, args_at) =~= gap);
    assert(args.len() > 0 ==> s[args_at] == args[0]);
    gap_stands(s, gap_at, gap);
    assert(s.subrange(args_at, s.len() as int) =~= args);
}

/// Where the user id of the bot is given, a mention of it, plain or by
/// nickname, calls a command as the prefix does.
#[verifier::rlimit(50)]
pub proof fn mention_calls_command(
    before: Seq<char>,
    id: u64,
    nick: bool,
    between: Seq<char>,
    command: Command,
    gap: Seq<char>,
    args: Seq<char>,
)
    requires
        is_blank(before),
        is_blank(between),
        is_blank(gap),
        args.len() > 0 ==> gap.len() > 0 && !is_space(args[0]),
    ensures
        parse(
            before + mention_text(id, nick) + between + command.name_of() + gap + args,
            Some(id),
        ) == (Parsed::Invoke { command, args }),
{
    let name = command.name_of();
    let lead = mention_text(id, nick);
    let s = before + lead + between + name + gap + args;
    let lead_at = before.len() as int;
    let between_at = lead_at + lead.len();
    let name_at = between_at + between.len();
    let gap_at = name_at + name.len();
    let args_at = gap_at + gap.len();
    names_are_distinct_words(command);
    assert(s.subrange(lead_at, between_at) =~= lead);
    mention_stands(s, lead_at, id, nick);
    assert(s.subrange(0, lead_at) =~= before);
    gap_stands(s, 0, before);
    assert(s.subrange(name_at, gap_at) =~= name);
    assert(gap.len() > 0 ==> s[gap_at] == gap[0]);
    word_stands(s, name_at, name);
    assert(s.subrange(between_at, name_at) =~= between);
    gap_stands(s, between_at, between);
    assert(s.subrange(gap_at, args_at) =~= gap);
    assert(args.len() > 0 ==> s[args_at] == args[0]);
    gap_stands(s, gap_at, gap);
    assert(s.subrange(args_at, s.len() as int) =~= args);
}

/// A word behind the prefix that is neither the name of a command nor a word
/// of a group is reported as unknown, whatever follows it.
pub proof fn other_word_is_unknown(
    before: Seq<char>,
    between: Seq<char>,
    word: Seq<char>,
    rest: Seq<char>,
    mention: Option<u64>,
)
    requires
        is_blank(before),
        is_blank(between),
        is_word(word),
        rest.len() > 0 ==> is_space(rest[0]),
        Command::called(word) is None,
        !Biconomy::names(word),
    ensures
        parse(before + PREFIX@ + between + word + rest, mention) == Parsed::UnknownCommand(word),
{
    reveal_strlit("!");
    let s = before + PREFIX@ + between + word + rest;
    let lead_at = before.len() as int;
    let word_at = lead_at + 1 + between.len();
    let rest_at = word_at + word.len();
    assert(s.subrange(lead_at, lead_at + 1) =~= PREFIX@);
    prefix_stands(s, lead_at, mention);
    assert(s.subrange(0, lead_at) =~= before);
    gap_stands(s, 0, before);
    assert(s.subrange(word_at, rest_at) =~= word);
    assert(rest.len() > 0 ==> s[rest_at] == rest[0]);
    word_stands(s, word_at, word);
    assert(s.subrange(lead_at + 1, word_at) =~= between);
    gap_stands(s, lead_at + 1, between);
}

/// A word of the group that no command of the group follows is itself
/// reported as unknown.
#[verifier::rlimit(50)]
pub proof fn group_word_alone_is_unknown(
    before: Seq<char>,
    between: Seq<char>,
    word: Seq<char>,
    space: Seq<char>,
    other: Seq<char>,
    rest: Seq<char>,
    mention: Option<u64>,
)
    requires
        is_blank(before),
        is_blank(between),
        Biconomy::names(word),
        is_blank(space),
        other.len() > 0 ==> space.len() > 0 && is_word(other),
        other.len() == 0 ==> rest.len() == 0,
        rest.len() > 0 ==> is_space(rest[0]),
        Command::called(other) is Some ==> !Biconomy::holds(Command::called(other).unwrap()),
    ensures
        parse(before + PREFIX@ + between + word + space + other + rest, mention)
            == Parsed::UnknownCommand(word),
{
    reveal_strlit("!");
    let s = before + PREFIX@ + between + word + space + other + rest;
    let lead_at = before.len() as int;
    let word_at = lead_at + 1 + between.len();
    let space_at = word_at + word.len();
    let other_at = space_at + space.len();
    let rest_at = other_at + other.len();
    group_words_are_words(word);
    assert(s.subrange(lead_at, lead_at + 1) =~= PREFIX@);
    prefix_stands(s, lead_at, mention);
    assert(s.subrange(0, lead_at) =~= before);
    gap_stands(s, 0, before);
    assert(s.subrange(word_at, space_at) =~= word);
    assert(space.len() > 0 ==> s[space_at] == space[0]);
    word_stands(s, word_at, word);
    assert(s.subrange(lead_at + 1, word_at) =~= between);
    gap_stands(s, lead_at + 1, between);
    assert(s.subrange(space_at, other_at) =~= space);
    assert(other.len() > 0 ==> s[other_at] == other[0]);
    gap_stands(s, space_at, space);
    assert(s.subrange(other_at, rest_at) =~= other);
    assert(rest.len() > 0 ==> s[rest_at] == rest[0]);
    if other.len() > 0 {
        word_stands(s, other_at, other);
    } else {
        skip_word_finds(s, other_at, other_at);
    }
}

/// A lead with nothing but white space behind it calls nothing: the text is
/// ordinary talk.
pub proof fn lead_alone_is_talk(before: Seq<char>, behind: Seq<char>, mention: Option<u64>)
    requires
        is_blank(before),
        is_blank(behind),
    ensures
        parse(before + PREFIX@ + behind, mention) == Parsed::NormalMessage,
{
    reveal_strlit("!");
    let s = before + PREFIX@ + behind;
    let lead_at = before.len() as int;
    assert(s.subrange(lead_at, lead_at + 1) =~= PREFIX@);
    prefix_stands(s, lead_at, mention);
    assert(s.subrange(0, lead_at) =~= before);
    gap_stands(s, 0, before);
    assert(s.subrange(lead_at + 1, s.len() as int) =~= behind);
    gap_stands(s, lead_at + 1, behind);
}

/// A text in which no lead stands first, white space aside, is ordinary
/// talk.
pub proof fn no_lead_is_talk(content: Seq<char>, mention: Option<u64>)
    requires
        lead_end(content, skip_spaces(content, 0), mention) is None,
    ensures
        parse(content, mention) == Parsed::NormalMessage,
{
}

} // verus!
