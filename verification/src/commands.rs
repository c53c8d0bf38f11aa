//! The hooks around every command run, and the commands themselves.
//!
//! Nothing here sends or prints. A hook returns the line that belongs in the
//! log; a command returns, as a [`Progress`], what is to be done next for
//! it, and is handed what came of that.
use crate::biconomy::{
    balance_request, can_ask, Awaiting, BiconomyClient, BiconomyResponse, Fault, Lookup, Reply,
    RequestView, Step,
};
use crate::config::ConfigDependency;
use crate::counter::CommandCounter;
use crate::text::{decimal, decimal_string};
use serenity::framework::standard::{Args, Delimiter};
use vstd::prelude::*;
use vstd::string::*;

verus! {

/// What `ping` answers.
pub const PONG: &'static str = "Pong!";

/// What `check_gas_tank` answers when it is called without a key.
pub const KEY_MISSING: &'static str = "API_KEY is not provided";

/// What separates the arguments of a command.
pub const DELIMITER: char = ' ';

/// The reaction that marks a delayed command: a stopwatch.
pub const STOPWATCH: char = '\u{23F1}';

/// Why a command was refused before it ran.
#[derive(Clone, Copy, Debug, PartialEq, Eq, Structural)]
pub enum DispatchError {
    /// The caller has called too often.
    Ratelimited(RateLimitInfo),
    /// The caller lacks the role that the command asks for.
    LackingRole,
}

/// What is known of a rate limit that was hit.
#[derive(Clone, Copy, Debug, PartialEq, Eq, Structural)]
pub struct RateLimitInfo {
    /// The whole seconds to wait before the command can be called again.
    pub rate_limit_secs: u64,
    /// Whether the caller is told of this limit for the first time.
    pub is_first_try: bool,
}

impl RateLimitInfo {
    /// The whole seconds to wait.
    pub fn as_secs(&self) -> (secs: u64)
        ensures
            secs == self.rate_limit_secs,
    {
        self.rate_limit_secs
    }
}

/// Why a command run failed.
#[derive(Clone, Debug, PartialEq)]
pub enum CommandError {
    /// The reply did not go out; the text says why.
    Undelivered(String),
    /// The lookup ended without an answer.
    Backend(Fault),
    /// The backend could not be asked: the key is empty, or it or the
    /// operator's token cannot travel in a header.
    Unsendable,
}

/// How a command run ended.
pub type CommandResult = Result<(), CommandError>;

/// What is to be done next for a command that is running, or how it ended.
#[derive(Debug, PartialEq)]
pub enum Progress {
    /// The text is to be sent as a reply to the caller.
    Reply(String),
    /// The request of `lookup` is to be sent to the backend.
    Fetch { api_key: String, lookup: Lookup },
    /// The help is to be shown, for these arguments.
    Help(String),
    /// The run is over.
    Finished(CommandResult),
}

/// What a [`CommandError`] says.
pub enum Failure {
    Undelivered(Seq<char>),
    Backend(Fault),
    Unsendable,
}

/// What a [`Progress`] says.
pub enum ProgressView {
    Reply(Seq<char>),
    Fetch { api_key: Seq<char>, request: RequestView, awaiting: Awaiting },
    Help(Seq<char>),
    Finished(Result<(), Failure>),
}

impl View for CommandError {
    type V = Failure;

    open spec fn view(&self) -> Failure {
        match *self {
            CommandError::Undelivered(why) => Failure::Undelivered(why@),
            CommandError::Backend(fault) => Failure::Backend(fault),
            CommandError::Unsendable => Failure::Unsendable,
        }
    }
}

/// What a [`CommandResult`] says.
pub open spec fn result_view(result: CommandResult) -> Result<(), Failure> {
    match result {
        Ok(()) => Ok(()),
        Err(error) => Err(error@),
    }
}

impl View for Progress {
    type V = ProgressView;

    open spec fn view(&self) -> ProgressView {
        match *self {
            Progress::Reply(text) => ProgressView::Reply(text@),
            Progress::Fetch { api_key, lookup } => ProgressView::Fetch {
                api_key: api_key@,
                request: lookup.request@,
                awaiting: lookup.awaiting,
            },
            Progress::Help(args) => ProgressView::Help(args@),
            Progress::Finished(result) => ProgressView::Finished(result_view(result)),
        }
    }
}

/// The words for a failure, as the log shows them.
pub open spec fn failure_text(failure: Failure) -> Seq<char> {
    match failure {
        Failure::Undelivered(why) => "Undelivered("@ + why + ")"@,
        Failure::Backend(Fault::Unreachable) => "Backend(Unreachable)"@,
        Failure::Backend(Fault::Undecodable) => "Backend(Undecodable)"@,
        Failure::Unsendable => "Unsendable"@,
    }
}

impl CommandError {
    /// The words for this failure, as the log shows them.
    pub fn describe(&self) -> (text: String)
        ensures
            text@ == failure_text(self@),
    {
        match self {
            CommandError::Undelivered(why) => String::from_str("Undelivered(").concat(
                why.as_str(),
            ).concat(")"),
            CommandError::Backend(Fault::Unreachable) => String::from_str("Backend(Unreachable)"),
            CommandError::Backend(Fault::Undecodable) => String::from_str("Backend(Undecodable)"),
            CommandError::Unsendable => String::from_str("Unsendable"),
        }
    }
}

/// The line logged before a command runs.
pub open spec fn before_line(command_name: Seq<char>, author: Seq<char>) -> Seq<char> {
    "Got command '"@ + command_name + "' by user '"@ + author + "'"@
}

/// The line logged after a command has run.
pub open spec fn after_line(command_name: Seq<char>, result: Result<(), Failure>) -> Seq<char> {
    match result {
        Ok(()) => "Processed command '"@ + command_name + "'"@,
        Err(why) => "Command '"@ + command_name + "' returned error "@ + failure_text(why),
    }
}

/// The line logged for a name that no command goes by.
pub open spec fn unknown_line(name: Seq<char>) -> Seq<char> {
    "Could not find command named '"@ + name + "'"@
}

/// The line logged for ordinary talk.
pub open spec fn normal_line(content: Seq<char>) -> Seq<char> {
    "Message is not a command '"@ + content + "'"@
}

/// The notice for a caller who has to wait `secs` seconds.
pub open spec fn retry_notice(secs: u64) -> Seq<char> {
    "Try this again in "@ + decimal(secs as nat) + " seconds."@
}

/// The reply that reports a balance.
pub open spec fn balance_reply(balance: Seq<char>, api_key: Seq<char>, in_grace_period: bool) -> Seq<
    char,
> {
    "**"@ + balance + "** is left in Dapp *"@ + api_key + "*. (Grace Period: **"@ + (if in_grace_period {
        "true"@
    } else {
        "false"@
    }) + "**)"@
}

/// The reply that reports an error of the backend.
pub open spec fn error_reply(code: u16, message: Seq<char>) -> Seq<char> {
    "**"@ + decimal(code as nat) + ": "@ + message + "**"@
}

/// Runs before every command: counts the run under the command's name and
/// lets the command go ahead. Returns that it may, and the line for the log.
pub fn before(counter: &mut CommandCounter, author: &str, command_name: &str) -> (out: (
    bool,
    String,
))
    requires
        old(counter).count(command_name@) < u64::MAX,
    ensures
        out.0,
        out.1@ == before_line(command_name@, author@),
        final(counter)@ == old(counter)@.insert(
            command_name@,
            (old(counter).count(command_name@) + 1) as u64,
        ),
        final(counter).count(command_name@) == old(counter).count(command_name@) + 1,
{
    let line = String::from_str("Got command '").concat(command_name).concat("' by user '").concat(
        author,
    ).concat("'");
    counter.increment(command_name);
    (true, line)
}

/// Runs after every command, with its result: returns the line for the log.
pub fn after(command_name: &str, command_result: &CommandResult) -> (line: String)
    ensures
        line@ == after_line(command_name@, result_view(*command_result)),
{
    match command_result {
        Ok(()) => String::from_str("Processed command '").concat(command_name).concat("'"),
        Err(why) => String::from_str("Command '").concat(command_name).concat(
            "' returned error ",
        ).concat(why.describe().as_str()),
    }
}

/// Runs for a name that no command goes by: returns the line for the log.
pub fn unknown_command(unknown_command_name: &str) -> (line: String)
    ensures
        line@ == unknown_line(unknown_command_name@),
{
    String::from_str("Could not find command named '").concat(unknown_command_name).concat("'")
}

/// Runs for ordinary talk: returns the line for the log.
pub fn normal_message(content: &str) -> (line: String)
    ensures
        line@ == normal_line(content@),
{
    String::from_str("Message is not a command '").concat(content).concat("'")
}

/// Runs when a command is delayed: returns the reaction to put on the
/// message.
pub fn delay_action() -> (reaction: char)
    ensures
        reaction == STOPWATCH,
{
    STOPWATCH
}

/// The notice that a refusal brings: only a rate limit is told, and only
/// the first time.
pub open spec fn notice_for(error: DispatchError) -> Option<Seq<char>> {
    match error {
        DispatchError::Ratelimited(info) if info.is_first_try => Some(
            retry_notice(info.rate_limit_secs),
        ),
        _ => None,
    }
}

/// Runs when a command is refused before it ran: returns the notice to send
/// to the channel, if one is due.
pub fn dispatch_error(error: DispatchError, _command_name: &str) -> (notice: Option<String>)
    ensures
        text_of(notice) == notice_for(error),
{
    match error {
        DispatchError::Ratelimited(info) => {
            if info.is_first_try {
                Some(
                    String::from_str("Try this again in ").concat(
                        decimal_string(info.as_secs()).as_str(),
                    ).concat(" seconds."),
                )
            } else {
                None
            }
        },
        DispatchError::LackingRole => None,
    }
}

/// The first argument in `message`, where `delimiter` separates arguments:
/// what `Args::single::<String>` of serenity yields on a fresh `Args`, or
/// `None` where it reports the end of the arguments.
pub uninterp spec fn first_argument(message: Seq<char>, delimiter: char) -> Option<Seq<char>>;

/// The key that `check_gas_tank` finds in its arguments: the first of them.
/// Where nothing follows the command's name, there is none.
pub open spec fn key_in(args: Seq<char>) -> Option<Seq<char>> {
    if args.len() == 0 {
        None
    } else {
        first_argument(args, DELIMITER)
    }
}

/// What an optional text says.
pub open spec fn text_of(text: Option<String>) -> Option<Seq<char>> {
    match text {
        Some(t) => Some(t@),
        None => None,
    }
}

/// Calls `Args::new` of serenity on `message`, with `delimiter` as the one
/// delimiter, and `Args::single::<String>` on what it made. Trusted: the
/// result is the argument that the crate finds first, and an empty message
/// has none.
#[verifier::external_body]
fn single_argument(message: &str, delimiter: char) -> (argument: Option<String>)
    ensures
        text_of(argument) == first_argument(message@, delimiter),
        message@.len() == 0 ==> argument is None,
{
    Args::new(message, &[Delimiter::Single(delimiter)]).single::<String>().ok()
}

/// The command `ping`: a fixed word goes back.
pub fn ping() -> (progress: Progress)
    ensures
        progress@ == ProgressView::Reply(PONG@),
{
    Progress::Reply(String::from_str(PONG))
}

/// The command `help`: the help is to be shown for `args`.
pub fn my_help(args: &str) -> (progress: Progress)
    ensures
        progress@ == ProgressView::Help(args@),
{
    Progress::Help(String::from_str(args))
}

/// How `check_gas_tank` begins, given the key it was called with. Without a
/// key the caller is told so and the backend is not asked. With a key that
/// can be asked for, the lookup begins. Any other key fails the run.
pub open spec fn gas_tank_start(auth_token: Seq<char>, api_key: Option<Seq<char>>) -> ProgressView {
    match api_key {
        None => ProgressView::Reply(KEY_MISSING@),
        Some(key) => if can_ask(auth_token, key) {
            ProgressView::Fetch {
                api_key: key,
                request: balance_request(auth_token, key),
                awaiting: Awaiting::Success,
            }
        } else {
            ProgressView::Finished(Err(Failure::Unsendable))
        },
    }
}

/// How `check_gas_tank` goes on when the backend has answered: a further
/// request, the reply that reports the balance or the backend's error, or a
/// failed run.
pub open spec fn gas_tank_next(api_key: Seq<char>, lookup: Lookup, reply: Reply) -> ProgressView {
    match lookup.next(reply) {
        Step::Send(again) => ProgressView::Fetch {
            api_key,
            request: again.request@,
            awaiting: again.awaiting,
        },
        Step::Done(Ok(balance)) => ProgressView::Reply(
            balance_reply(
                balance.dapp_gas_tank_data.effective_balance_in_standard_form@,
                api_key,
                balance.dapp_gas_tank_data.is_in_grace_period,
            ),
        ),
        Step::Done(Err(error)) => ProgressView::Reply(error_reply(error.code, error.message@)),
        Step::Failed(fault) => ProgressView::Finished(Err(Failure::Backend(fault))),
    }
}

/// How a command ends once it is known whether its reply went out.
pub open spec fn reply_end(outcome: Result<(), Seq<char>>) -> ProgressView {
    match outcome {
        Ok(()) => ProgressView::Finished(Ok(())),
        Err(why) => ProgressView::Finished(Err(Failure::Undelivered(why))),
    }
}

/// Begins `check_gas_tank` with the key it was called with, if any.
pub fn check_gas_tank_with(config: &ConfigDependency, api_key: Option<String>) -> (progress:
    Progress)
    ensures
        progress@ == gas_tank_start(config@.biconomy_auth_token@, text_of(api_key)),
{
    match api_key {
        None => Progress::Reply(String::from_str(KEY_MISSING)),
        Some(key) => {
            let client = BiconomyClient::new(&config.get().biconomy_auth_token);
            if client.can_look_up(&key) {
                let lookup = client.gas_tank_balance(&key);
                Progress::Fetch { api_key: key, lookup }
            } else {
                Progress::Finished(Err(CommandError::Unsendable))
            }
        },
    }
}

/// The command `check_gas_tank`: takes the first argument in `args` as the
/// key of the dapp and begins the lookup of its balance.
pub fn check_gas_tank(config: &ConfigDependency, args: &str) -> (progress: Progress)
    ensures
        progress@ == gas_tank_start(config@.biconomy_auth_token@, key_in(args@)),
{
    check_gas_tank_with(config, single_argument(args, DELIMITER))
}

/// Goes on with `check_gas_tank` when the backend has answered the request
/// of `lookup`.
pub fn gas_tank_answered(api_key: String, lookup: Lookup, reply: Reply) -> (progress: Progress)
    ensures
        progress@ == gas_tank_next(api_key@, lookup, reply),
{
    match lookup.receive(reply) {
        Step::Send(again) => Progress::Fetch { api_key, lookup: again },
        Step::Done(Ok(balance)) => {
            let grace = if balance.dapp_gas_tank_data.is_in_grace_period {
                "true"
            } else {
                "false"
            };
            Progress::Reply(
                String::from_str("**").concat(
                    balance.dapp_gas_tank_data.effective_balance_in_standard_form.as_str(),
                ).concat("** is left in Dapp *").concat(api_key.as_str()).concat(
                    "*. (Grace Period: **",
                ).concat(grace).concat("**)"),
            )
        },
        Step::Done(Err(error)) => Progress::Reply(
            String::from_str("**").concat(decimal_string(error.code as u64).as_str()).concat(
                ": ",
            ).concat(error.message.as_str()).concat("**"),
        ),
        Step::Failed(fault) => Progress::Finished(Err(CommandError::Backend(fault))),
    }
}

/// Ends a command once it is known whether its reply went out: the run has
/// failed if it did not.
pub fn reply_settled(outcome: Result<(), String>) -> (progress: Progress)
    ensures
        progress@ == reply_end(
            match outcome {
                Ok(()) => Ok(()),
                Err(why) => Err(why@),
            },
        ),
{
    match outcome {
        Ok(()) => Progress::Finished(Ok(())),
        Err(why) => Progress::Finished(Err(CommandError::Undelivered(why))),
    }
}

/// Called with nothing behind its name, `check_gas_tank` tells the caller
/// that the key is missing: the backend is not asked and the run has not
/// failed, whoever the operator is.
pub proof fn no_key_no_lookup(auth_token: Seq<char>)
    ensures
        key_in(Seq::empty()) is None,
        gas_tank_start(auth_token, key_in(Seq::empty())) == ProgressView::Reply(KEY_MISSING@),
        !(gas_tank_start(auth_token, key_in(Seq::empty())) is Fetch),
{
}

/// An error that the backend reports is told to the caller as a reply: the
/// run goes on and has not failed.
pub proof fn backend_error_is_a_reply(api_key: Seq<char>, lookup: Lookup, error: BiconomyResponse)
    requires
        lookup.awaiting == Awaiting::Error,
    ensures
        gas_tank_next(api_key, lookup, Reply::Error(error)) == ProgressView::Reply(
            error_reply(error.code, error.message@),
        ),
{
}

/// Of two refusals for the same rate limit, the first told and the second
/// not, exactly one brings a notice.
pub proof fn one_notice_per_limit(secs: u64)
    ensures
        notice_for(
            DispatchError::Ratelimited(RateLimitInfo { rate_limit_secs: secs, is_first_try: true }),
        ) == Some(retry_notice(secs)),
        notice_for(
            DispatchError::Ratelimited(RateLimitInfo { rate_limit_secs: secs, is_first_try: false }),
        ) is None,
{
}

} // verus!
