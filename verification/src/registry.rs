//! The commands the bot knows, and the groups they stand in.
use crate::text::{is_word, str_eq};
use vstd::prelude::*;
use vstd::string::*;

verus! {

/// What begins every command.
pub const PREFIX: &'static str = "!";

/// A command of the bot.
#[derive(Clone, Copy, Debug, PartialEq, Eq, Structural)]
pub enum Command {
    /// Answers with a fixed word.
    Ping,
    /// Looks up the gas tank balance of a dapp.
    CheckGasTank,
    /// Lists the commands and their groups.
    Help,
}

impl Command {
    /// The name by which the command is called and counted.
    pub open spec fn name_of(self) -> Seq<char> {
        match self {
            Command::Ping => "ping"@,
            Command::CheckGasTank => "check_gas_tank"@,
            Command::Help => "help"@,
        }
    }

    /// The command called `word`, if there is one.
    pub open spec fn called(word: Seq<char>) -> Option<Command> {
        if word == Command::Ping.name_of() {
            Some(Command::Ping)
        } else if word == Command::CheckGasTank.name_of() {
            Some(Command::CheckGasTank)
        } else if word == Command::Help.name_of() {
            Some(Command::Help)
        } else {
            None
        }
    }

    /// The role without which the command is not run, if it asks for one.
    pub open spec fn role_of(self) -> Option<Seq<char>> {
        if Biconomy::holds(self) {
            Some(Biconomy::ALLOWED_ROLE@)
        } else {
            None
        }
    }

    /// The name by which the command is called and counted.
    pub fn name(self) -> (name: &'static str)
        ensures
            name@ == self.name_of(),
    {
        match self {
            Command::Ping => "ping",
            Command::CheckGasTank => "check_gas_tank",
            Command::Help => "help",
        }
    }

    /// Finds the command called `word`.
    pub fn by_name(word: &str) -> (found: Option<Command>)
        ensures
            found == Command::called(word@),
    {
        if str_eq(word, Command::Ping.name()) {
            Some(Command::Ping)
        } else if str_eq(word, Command::CheckGasTank.name()) {
            Some(Command::CheckGasTank)
        } else if str_eq(word, Command::Help.name()) {
            Some(Command::Help)
        } else {
            None
        }
    }

    /// The role without which the command is not run, if it asks for one.
    pub fn allowed_role(self) -> (role: Option<&'static str>)
        ensures
            match role {
                Some(r) => self.role_of() == Some(r@),
                None => self.role_of() is None,
            },
    {
        match self {
            Command::CheckGasTank => Some(Biconomy::ALLOWED_ROLE),
            _ => None,
        }
    }
}

/// The group of the commands that anyone may call.
pub struct General;

impl General {
    /// Whether `command` stands in this group.
    pub open spec fn holds(command: Command) -> bool {
        command == Command::Ping
    }

    /// The commands of this group, once each.
    pub fn commands() -> (commands: Vec<Command>)
        ensures
            commands@ == seq![Command::Ping],
            forall|c: Command| commands@.contains(c) <==> General::holds(c),
    {
        vec![Command::Ping]
    }
}

/// The group of the commands that speak to Biconomy. Its commands can also be
/// called behind one of the group's own words, and only by those who hold the
/// group's role.
pub struct Biconomy;

impl Biconomy {
    /// The role that may call the commands of this group.
    pub const ALLOWED_ROLE: &'static str = "The Crew";

    /// What the group is for, where it is shown alone.
    pub const DESCRIPTION: &'static str = "To help with interacting with biconomy.";

    /// What the group is for, where it is listed among others.
    pub const SUMMARY: &'static str = "Interact with Biconomy API!";

    /// Whether `command` stands in this group.
    pub open spec fn holds(command: Command) -> bool {
        command == Command::CheckGasTank
    }

    /// Whether `word` is one of the words of this group.
    pub open spec fn names(word: Seq<char>) -> bool {
        word == "biconomy"@ || word == "bc"@
    }

    /// The commands of this group, once each.
    pub fn commands() -> (commands: Vec<Command>)
        ensures
            commands@ == seq![Command::CheckGasTank],
            forall|c: Command| commands@.contains(c) <==> Biconomy::holds(c),
    {
        vec![Command::CheckGasTank]
    }

    /// The words of this group, the long one first.
    pub fn prefixes() -> (words: Vec<&'static str>)
        ensures
            words.len() == 2,
            words[0]@ == "biconomy"@,
            words[1]@ == "bc"@,
            forall|w: Seq<char>| Biconomy::names(w) <==> exists|i: int|
                0 <= i < words.len() && (#[trigger] words[i])@ == w,
    {
        vec!["biconomy", "bc"]
    }

    /// Tests [`Self::names`].
    pub fn is_prefix(word: &str) -> (yes: bool)
        ensures
            yes == Biconomy::names(word@),
    {
        str_eq(word, "biconomy") || str_eq(word, "bc")
    }
}

/// The command that two leading words call, and whether a group's word was
/// one of them. A command is called by its name alone; a command of
/// [`Biconomy`] also by one of the group's words and then its name.
pub open spec fn resolve(first: Seq<char>, second: Seq<char>) -> Option<(Command, bool)> {
    if let Some(command) = Command::called(first) {
        Some((command, false))
    } else if Biconomy::names(first) && Command::called(second) is Some && Biconomy::holds(
        Command::called(second).unwrap(),
    ) {
        Some((Command::called(second).unwrap(), true))
    } else {
        None
    }
}

/// The names of the commands are words, and no two commands share one: a
/// command is found under its own name.
pub proof fn names_are_distinct_words(command: Command)
    ensures
        is_word(command.name_of()),
        Command::called(command.name_of()) == Some(command),
        !Biconomy::names(command.name_of()),
{
    reveal_strlit("ping");
    reveal_strlit("check_gas_tank");
    reveal_strlit("help");
    reveal_strlit("biconomy");
    reveal_strlit("bc");
    assert("ping"@[0] != "help"@[0]);
}

/// The words of the group are words, and none of them is the name of a
/// command.
pub proof fn group_words_are_words(word: Seq<char>)
    requires
        Biconomy::names(word),
    ensures
        is_word(word),
        Command::called(word) is None,
{
    reveal_strlit("ping");
    reveal_strlit("check_gas_tank");
    reveal_strlit("help");
    reveal_strlit("biconomy");
    reveal_strlit("bc");
    assert("biconomy"@[0] != "ping"@[0] && "biconomy"@[0] != "help"@[0]);
}

/// Computes [`resolve`].
pub fn find_command(first: &str, second: &str) -> (found: Option<(Command, bool)>)
    ensures
        found == resolve(first@, second@),
{
    match Command::by_name(first) {
        Some(command) => Some((command, false)),
        None => {
            if Biconomy::is_prefix(first) {
                match Command::by_name(second) {
                    Some(Command::CheckGasTank) => Some((Command::CheckGasTank, true)),
                    _ => None,
                }
            } else {
                None
            }
        },
    }
}

} // verus!
