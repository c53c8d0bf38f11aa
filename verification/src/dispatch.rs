//! Through the run of a command: the hook before it, the command, the hook
//! after it.
//!
//! The dispatcher decides; the shell around it acts. [`receive`] takes a
//! message and returns a [`Turn`]: the lines for the log and the [`Stage`]
//! reached. Where a command waits for something to be done, the shell does it
//! and hands the outcome to [`reply_sent`], [`backend_answered`] or
//! [`help_shown`], which return the next turn.
use crate::biconomy::{Lookup, Reply};
use crate::classify::{classify, lead_end, parse, Classification, Parsed};
use crate::commands::{
    after, after_line, before, before_line, check_gas_tank, dispatch_error, gas_tank_answered,
    gas_tank_next, gas_tank_start, key_in, my_help, normal_line, normal_message, ping, notice_for,
    reply_end, reply_settled, text_of, unknown_command, unknown_line, DispatchError, Progress,
    ProgressView, RateLimitInfo, KEY_MISSING, PONG,
};
use crate::config::ConfigDependency;
use crate::counter::CommandCounter;
use crate::registry::Command;
use crate::text::skip_spaces;
use vstd::prelude::*;
use vstd::string::*;

verus! {

/// A message as the chat hands it in.
#[derive(Clone, Debug, PartialEq)]
pub struct Inbound {
    /// The text of the message.
    pub content: String,
    /// The name of its author.
    pub author: String,
    /// The names of the roles that the author holds where the message was
    /// written.
    pub roles: Vec<String>,
    /// The rate limit that the author has hit, where the chat reports one.
    pub limit: Option<RateLimitInfo>,
}

/// Whether `role` is among `roles`.
pub open spec fn holds_role(roles: Seq<String>, role: Seq<char>) -> bool {
    exists|i: int| 0 <= i < roles.len() && (#[trigger] roles[i])@ == role
}

/// Whether someone with `roles` may call `command`.
pub open spec fn permitted(command: Command, roles: Seq<String>) -> bool {
    command.role_of() is Some ==> holds_role(roles, command.role_of().unwrap())
}

/// Why `command` is refused when `inbound` calls it, if it is: the author
/// lacks the role, or else has hit a rate limit.
pub open spec fn refusal(command: Command, inbound: Inbound) -> Option<DispatchError> {
    if !permitted(command, inbound.roles@) {
        Some(DispatchError::LackingRole)
    } else if inbound.limit is Some {
        Some(DispatchError::Ratelimited(inbound.limit.unwrap()))
    } else {
        None
    }
}

/// Tests [`permitted`].
pub fn is_permitted(command: Command, roles: &Vec<String>) -> (ok: bool)
    ensures
        ok == permitted(command, roles@),
{
    match command.allowed_role() {
        None => true,
        Some(role) => {
            let wanted = String::from_str(role);
            let mut i: usize = 0;
            while i < roles.len()
                invariant
                    i <= roles.len(),
                    wanted@ == role@,
                    command.role_of() == Some(role@),
                    forall|j: int| 0 <= j < i ==> (#[trigger] roles[j])@ != role@,
                decreases roles.len() - i,
            {
                if roles[i] == wanted {
                    return true;
                }
                i += 1;
            }
            false
        },
    }
}

/// Computes [`refusal`].
pub fn find_refusal(command: Command, inbound: &Inbound) -> (error: Option<DispatchError>)
    ensures
        error == refusal(command, *inbound),
{
    if !is_permitted(command, &inbound.roles) {
        Some(DispatchError::LackingRole)
    } else {
        match inbound.limit {
            Some(info) => Some(DispatchError::Ratelimited(info)),
            None => None,
        }
    }
}

/// How far a message has come.
#[derive(Debug, PartialEq)]
pub enum Stage {
    /// It was ordinary talk. Nothing ran.
    NormalMessage,
    /// It called a command that does not exist. Nothing ran.
    UnknownCommand,
    /// It called a command, which was refused before it ran. `notice` is to
    /// be sent to the channel, if there is one.
    Refused { error: DispatchError, notice: Option<String> },
    /// It called `command`, which has run as far as `progress` says.
    Command { command: Command, progress: Progress },
}

/// What the dispatcher has decided on one event.
#[derive(Debug, PartialEq)]
pub struct Turn {
    /// The lines for the log, in order.
    pub log: Vec<String>,
    /// The stage reached.
    pub stage: Stage,
}

/// What a [`Stage`] says.
pub enum StageView {
    NormalMessage,
    UnknownCommand,
    Refused { error: DispatchError, notice: Option<Seq<char>> },
    Command { command: Command, progress: ProgressView },
}

/// What a [`Turn`] says.
pub struct TurnView {
    pub log: Seq<Seq<char>>,
    pub stage: StageView,
}

impl View for Stage {
    type V = StageView;

    open spec fn view(&self) -> StageView {
        match *self {
            Stage::NormalMessage => StageView::NormalMessage,
            Stage::UnknownCommand => StageView::UnknownCommand,
            Stage::Refused { error, notice } => StageView::Refused {
                error,
                notice: text_of(notice),
            },
            Stage::Command { command, progress } => StageView::Command {
                command,
                progress: progress@,
            },
        }
    }
}

impl View for Turn {
    type V = TurnView;

    open spec fn view(&self) -> TurnView {
        TurnView { log: self.log@.map_values(|line: String| line@), stage: self.stage@ }
    }
}

/// How `command` begins when it is called with `args`.
pub open spec fn begin(command: Command, auth_token: Seq<char>, args: Seq<char>) -> ProgressView {
    match command {
        Command::Ping => ProgressView::Reply(PONG@),
        Command::Help => ProgressView::Help(args),
        Command::CheckGasTank => gas_tank_start(auth_token, key_in(args)),
    }
}

/// The turn for `command` at `progress`, after the lines `log`: a run that
/// is over is followed by the line of the hook after it.
pub open spec fn turn_at(log: Seq<Seq<char>>, command: Command, progress: ProgressView) -> TurnView {
    TurnView {
        log: match progress {
            ProgressView::Finished(result) => log.push(after_line(command.name_of(), result)),
            _ => log,
        },
        stage: StageView::Command { command, progress },
    }
}

/// Whether the message calls a command and is not refused: the command
/// runs.
pub open spec fn runs(mention: Option<u64>, inbound: Inbound) -> bool {
    parse(inbound.content@, mention) matches Parsed::Invoke { command, .. } && refusal(
        command,
        inbound,
    ) is None
}

/// The turn that a message brings. Ordinary talk and unknown commands are
/// logged and nothing else. A command that is refused does not run: the
/// notice for the refusal, if one is due, is to be sent. Any other command is
/// logged by the hook before it and begins.
pub open spec fn reception(auth_token: Seq<char>, mention: Option<u64>, inbound: Inbound) -> TurnView {
    match parse(inbound.content@, mention) {
        Parsed::NormalMessage => TurnView {
            log: seq![normal_line(inbound.content@)],
            stage: StageView::NormalMessage,
        },
        Parsed::UnknownCommand(name) => TurnView {
            log: seq![unknown_line(name)],
            stage: StageView::UnknownCommand,
        },
        Parsed::Invoke { command, args } => match refusal(command, inbound) {
            Some(error) => TurnView {
                log: seq![],
                stage: StageView::Refused { error, notice: notice_for(error) },
            },
            None => turn_at(
                seq![before_line(command.name_of(), inbound.author@)],
                command,
                begin(command, auth_token, args),
            ),
        },
    }
}

/// The counter after a message: a command that runs is counted once, under
/// its name; nothing else is counted.
pub open spec fn counted(counter: CommandCounter, mention: Option<u64>, inbound: Inbound) -> Map<
    Seq<char>,
    u64,
> {
    match parse(inbound.content@, mention) {
        Parsed::Invoke { command, .. } if refusal(command, inbound) is None => counter@.insert(
            command.name_of(),
            (counter.count(command.name_of()) + 1) as u64,
        ),
        _ => counter@,
    }
}

/// Whether a run of any command can still be counted.
pub open spec fn can_count(counter: CommandCounter) -> bool {
    forall|command: Command| counter.count(#[trigger] command.name_of()) < u64::MAX
}

/// Tests [`can_count`].
pub fn has_room(counter: &CommandCounter) -> (ok: bool)
    ensures
        ok == can_count(*counter),
{
    let ok = counter.can_count(Command::Ping.name()) && counter.can_count(
        Command::CheckGasTank.name(),
    ) && counter.can_count(Command::Help.name());
    proof {
        if ok {
            assert forall|command: Command| counter.count(#[trigger] command.name_of())
                < u64::MAX by {
                match command {
                    Command::Ping => {},
                    Command::CheckGasTank => {},
                    Command::Help => {},
                }
            }
        } else {
            assert(counter.count(Command::Ping.name_of()) >= u64::MAX || counter.count(
                Command::CheckGasTank.name_of(),
            ) >= u64::MAX || counter.count(Command::Help.name_of()) >= u64::MAX);
        }
    }
    ok
}

/// Puts the turn together for `command` at `progress`: runs the hook after
/// the command if the run is over.
fn turn_for(log: Vec<String>, command: Command, progress: Progress) -> (turn: Turn)
    ensures
        turn@ == turn_at(log@.map_values(|line: String| line@), command, progress@),
{
    let mut log = log;
    let ghost lines = log@.map_values(|line: String| line@);
    if let Progress::Finished(result) = &progress {
        let line = after(command.name(), result);
        log.push(line);
        assert(log@.map_values(|line: String| line@) =~= lines.push(line@));
    }
    Turn { log, stage: Stage::Command { command, progress } }
}

/// Takes a message in. Says what it is; if it calls a command and is not
/// refused, counts the run and begins the command.
pub fn receive(
    counter: &mut CommandCounter,
    config: &ConfigDependency,
    mention: Option<u64>,
    inbound: &Inbound,
) -> (turn: Turn)
    requires
        can_count(*old(counter)),
    ensures
        turn@ == reception(config@.biconomy_auth_token@, mention, *inbound),
        final(counter)@ == counted(*old(counter), mention, *inbound),
        runs(mention, *inbound) || final(counter)@ == old(counter)@,
{
    let mut log: Vec<String> = Vec::new();
    match classify(inbound.content.as_str(), mention) {
        Classification::NormalMessage => {
            log.push(normal_message(inbound.content.as_str()));
            assert(log@.map_values(|line: String| line@) =~= seq![normal_line(inbound.content@)]);
            Turn { log, stage: Stage::NormalMessage }
        },
        Classification::UnknownCommand(name) => {
            log.push(unknown_command(name.as_str()));
            assert(log@.map_values(|line: String| line@) =~= seq![unknown_line(name@)]);
            Turn { log, stage: Stage::UnknownCommand }
        },
        Classification::Invoke { command, args } => {
            if let Some(error) = find_refusal(command, inbound) {
                let notice = dispatch_error(error, command.name());
                assert(log@.map_values(|line: String| line@) =~= Seq::<Seq<char>>::empty());
                return Turn { log, stage: Stage::Refused { error, notice } };
            }
            let (_, line) = before(counter, inbound.author.as_str(), command.name());
            log.push(line);
            assert(log@.map_values(|line: String| line@) =~= seq![
                before_line(command.name_of(), inbound.author@),
            ]);
            let progress = match command {
                Command::Ping => ping(),
                Command::Help => my_help(args.as_str()),
                Command::CheckGasTank => check_gas_tank(config, args.as_str()),
            };
            turn_for(log, command, progress)
        },
    }
}

/// Takes in whether the reply of `command` went out: the run is over.
pub fn reply_sent(command: Command, outcome: Result<(), String>) -> (turn: Turn)
    ensures
        turn@ == turn_at(
            seq![],
            command,
            reply_end(
                match outcome {
                    Ok(()) => Ok(()),
                    Err(why) => Err(why@),
                },
            ),
        ),
{
    let log: Vec<String> = Vec::new();
    assert(log@.map_values(|line: String| line@) =~= Seq::<Seq<char>>::empty());
    turn_for(log, command, reply_settled(outcome))
}

/// Takes in what the backend answered to the request of `lookup`, which
/// `check_gas_tank` had sent for `api_key`.
pub fn backend_answered(api_key: String, lookup: Lookup, reply: Reply) -> (turn: Turn)
    ensures
        turn@ == turn_at(seq![], Command::CheckGasTank, gas_tank_next(api_key@, lookup, reply)),
{
    let log: Vec<String> = Vec::new();
    assert(log@.map_values(|line: String| line@) =~= Seq::<Seq<char>>::empty());
    turn_for(log, Command::CheckGasTank, gas_tank_answered(api_key, lookup, reply))
}

/// Takes in that the help was shown, or that it could not be: either way the
/// run is over, and has not failed.
pub fn help_shown() -> (turn: Turn)
    ensures
        turn@ == turn_at(seq![], Command::Help, ProgressView::Finished(Ok(()))),
{
    let log: Vec<String> = Vec::new();
    assert(log@.map_values(|line: String| line@) =~= Seq::<Seq<char>>::empty());
    turn_for(log, Command::Help, Progress::Finished(Ok(())))
}

/// A text in which no lead stands first, white space aside, is ordinary
/// talk: it is logged as such, no command runs, and nothing is counted.
pub proof fn talk_is_not_counted(
    counter: CommandCounter,
    auth_token: Seq<char>,
    mention: Option<u64>,
    inbound: Inbound,
)
    requires
        lead_end(inbound.content@, skip_spaces(inbound.content@, 0), mention) is None,
    ensures
        parse(inbound.content@, mention) == Parsed::NormalMessage,
        reception(auth_token, mention, inbound) == (TurnView {
            log: seq![normal_line(inbound.content@)],
            stage: StageView::NormalMessage,
        }),
        counted(counter, mention, inbound) == counter@,
{
}

/// A text that calls no command the bot knows runs nothing and counts
/// nothing.
pub proof fn only_commands_are_counted(
    counter: CommandCounter,
    auth_token: Seq<char>,
    mention: Option<u64>,
    inbound: Inbound,
)
    requires
        !(parse(inbound.content@, mention) is Invoke),
    ensures
        !(reception(auth_token, mention, inbound).stage is Command),
        counted(counter, mention, inbound) == counter@,
{
}

/// A command that is refused does not run and is not counted, and only the
/// first refusal for a rate limit brings a notice.
pub proof fn refused_is_not_counted(
    counter: CommandCounter,
    auth_token: Seq<char>,
    mention: Option<u64>,
    inbound: Inbound,
)
    requires
        parse(inbound.content@, mention) is Invoke,
        !runs(mention, inbound),
    ensures
        reception(auth_token, mention, inbound).stage is Refused,
        reception(auth_token, mention, inbound).log.len() == 0,
        counted(counter, mention, inbound) == counter@,
        reception(auth_token, mention, inbound).stage->notice is Some <==> (refusal(
            parse(inbound.content@, mention)->Invoke_command,
            inbound,
        ) matches Some(DispatchError::Ratelimited(info)) && info.is_first_try),
{
}

/// Where `check_gas_tank` runs with nothing behind its name, the caller is
/// told that the key is missing and the backend is not asked; the run is
/// counted all the same.
pub proof fn bare_check_gas_tank_asks_nobody(
    counter: CommandCounter,
    auth_token: Seq<char>,
    mention: Option<u64>,
    inbound: Inbound,
)
    requires
        runs(mention, inbound),
        parse(inbound.content@, mention) == (Parsed::Invoke {
            command: Command::CheckGasTank,
            args: Seq::empty(),
        }),
    ensures
        reception(auth_token, mention, inbound).stage == (StageView::Command {
            command: Command::CheckGasTank,
            progress: ProgressView::Reply(KEY_MISSING@),
        }),
        counted(counter, mention, inbound) == counter@.insert(
            Command::CheckGasTank.name_of(),
            (counter.count(Command::CheckGasTank.name_of()) + 1) as u64,
        ),
{
}

/// A command that runs is counted exactly once, under its own name, whatever
/// it goes on to do: its count rises by one and no other count moves.
pub proof fn run_is_counted_once(
    counter: CommandCounter,
    mention: Option<u64>,
    inbound: Inbound,
    other: Seq<char>,
)
    requires
        runs(mention, inbound),
        can_count(counter),
    ensures
        ({
            let name = parse(inbound.content@, mention)->Invoke_command.name_of();
            let after = counted(counter, mention, inbound);
            &&& after.dom().contains(name)
            &&& after[name] == counter.count(name) + 1
            &&& other != name ==> after.dom().contains(other) == counter@.dom().contains(other)
            &&& other != name && counter@.dom().contains(other) ==> after[other] == counter@[other]
        }),
{
}

} // verus!
