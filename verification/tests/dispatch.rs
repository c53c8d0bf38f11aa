use discord_bot::biconomy::{
    BiconomyResponse, DappGasTankData, GasTankBalanceResponse, Reply,
};
use discord_bot::commands::{CommandError, DispatchError, Progress, RateLimitInfo};
use discord_bot::config::{Config, ConfigDependency};
use discord_bot::counter::CommandCounter;
use discord_bot::classify::{classify, Classification};
use discord_bot::dispatch::{
    backend_answered, find_refusal, has_room, help_shown, is_permitted, receive, reply_sent,
    Inbound, Stage, Turn,
};
use discord_bot::registry::{find_command, Biconomy, Command, General, PREFIX};

fn shared_config() -> ConfigDependency {
    ConfigDependency::new(Config {
        discord_bot_token: String::from("discord-secret"),
        biconomy_auth_token: String::from("operator-secret"),
    })
    .unwrap()
}

fn message(content: &str, roles: &[&str]) -> Inbound {
    Inbound {
        content: String::from(content),
        author: String::from("alice"),
        roles: roles.iter().map(|r| String::from(*r)).collect(),
        limit: None,
    }
}

fn invoke(command: Command, args: &str) -> Classification {
    Classification::Invoke { command, args: String::from(args) }
}

fn unknown(name: &str) -> Classification {
    Classification::UnknownCommand(String::from(name))
}

fn counts(counter: &CommandCounter) -> (u64, u64, u64) {
    (counter.get("ping"), counter.get("check_gas_tank"), counter.get("help"))
}

#[test]
fn registry_names_its_commands() {
    assert_eq!(Command::Ping.name(), "ping");
    assert_eq!(Command::CheckGasTank.name(), "check_gas_tank");
    assert_eq!(Command::Help.name(), "help");
    assert_eq!(Command::by_name("ping"), Some(Command::Ping));
    assert_eq!(Command::by_name("check_gas_tank"), Some(Command::CheckGasTank));
    assert_eq!(Command::by_name("help"), Some(Command::Help));
    assert_eq!(Command::by_name("Ping"), None);
    assert_eq!(Command::by_name(""), None);
    assert_eq!(PREFIX, "!");
}

#[test]
fn registry_groups_its_commands() {
    assert_eq!(General::commands(), vec![Command::Ping]);
    assert_eq!(Biconomy::commands(), vec![Command::CheckGasTank]);
    assert_eq!(Biconomy::prefixes(), vec!["biconomy", "bc"]);
    assert!(Biconomy::is_prefix("biconomy"));
    assert!(Biconomy::is_prefix("bc"));
    assert!(!Biconomy::is_prefix("b"));
    assert_eq!(Biconomy::ALLOWED_ROLE, "The Crew");
    assert_eq!(Command::CheckGasTank.allowed_role(), Some("The Crew"));
    assert_eq!(Command::Ping.allowed_role(), None);
    assert_eq!(Command::Help.allowed_role(), None);
}

#[test]
fn find_command_by_name_or_group_word() {
    assert_eq!(find_command("ping", ""), Some((Command::Ping, false)));
    assert_eq!(find_command("check_gas_tank", "abc"), Some((Command::CheckGasTank, false)));
    assert_eq!(find_command("bc", "check_gas_tank"), Some((Command::CheckGasTank, true)));
    assert_eq!(find_command("biconomy", "check_gas_tank"), Some((Command::CheckGasTank, true)));
    assert_eq!(find_command("bc", "ping"), None);
    assert_eq!(find_command("bc", "help"), None);
    assert_eq!(find_command("bc", ""), None);
    assert_eq!(find_command("general", "ping"), None);
}

#[test]
fn text_without_prefix_is_normal() {
    assert_eq!(classify("hello there", None), Classification::NormalMessage);
    assert_eq!(classify("", None), Classification::NormalMessage);
    assert_eq!(classify("   ", None), Classification::NormalMessage);
    assert_eq!(classify("ping", None), Classification::NormalMessage);
    assert_eq!(classify("say !ping", None), Classification::NormalMessage);
}

#[test]
fn prefix_alone_is_normal() {
    assert_eq!(classify("!", None), Classification::NormalMessage);
    assert_eq!(classify("  !   ", None), Classification::NormalMessage);
}

#[test]
fn ping_is_recognised() {
    assert_eq!(classify("!ping", None), invoke(Command::Ping, ""));
    assert_eq!(classify("  !ping", None), invoke(Command::Ping, ""));
    assert_eq!(classify("! ping", None), invoke(Command::Ping, ""));
    assert_eq!(classify("!ping   and more ", None), invoke(Command::Ping, "and more "));
    assert_eq!(classify("!ping\nnow", None), invoke(Command::Ping, "now"));
}

#[test]
fn check_gas_tank_is_recognised_in_each_form() {
    assert_eq!(classify("!check_gas_tank abc123", None), invoke(Command::CheckGasTank, "abc123"));
    assert_eq!(
        classify("!biconomy check_gas_tank abc123", None),
        invoke(Command::CheckGasTank, "abc123")
    );
    assert_eq!(classify("!bc check_gas_tank abc123", None), invoke(Command::CheckGasTank, "abc123"));
    assert_eq!(
        classify("!bc   check_gas_tank   abc123 x", None),
        invoke(Command::CheckGasTank, "abc123 x")
    );
    assert_eq!(classify("!bc check_gas_tank", None), invoke(Command::CheckGasTank, ""));
}

#[test]
fn help_is_recognised() {
    assert_eq!(classify("!help", None), invoke(Command::Help, ""));
    assert_eq!(classify("!help ping", None), invoke(Command::Help, "ping"));
}

#[test]
fn unknown_names_are_reported() {
    assert_eq!(classify("!pong", None), unknown("pong"));
    assert_eq!(classify("!PING", None), unknown("PING"));
    assert_eq!(classify("!pingping", None), unknown("pingping"));
    assert_eq!(classify("!helpme", None), unknown("helpme"));
    assert_eq!(classify("!bc", None), unknown("bc"));
    assert_eq!(classify("!bc ping", None), unknown("bc"));
    assert_eq!(classify("!bc foo bar", None), unknown("bc"));
    assert_eq!(classify("!!ping", None), unknown("!ping"));
}

#[test]
fn mention_stands_for_the_prefix() {
    assert_eq!(classify("<@42> ping", Some(42)), invoke(Command::Ping, ""));
    assert_eq!(classify("<@!42> ping", Some(42)), invoke(Command::Ping, ""));
    assert_eq!(classify("<@42>ping", Some(42)), invoke(Command::Ping, ""));
    assert_eq!(
        classify(" <@42>  bc check_gas_tank k", Some(42)),
        invoke(Command::CheckGasTank, "k")
    );
    assert_eq!(classify("!ping", Some(42)), invoke(Command::Ping, ""));
    assert_eq!(classify("<@42>", Some(42)), Classification::NormalMessage);
}

#[test]
fn mention_of_the_largest_id_is_read() {
    assert_eq!(
        classify("<@18446744073709551615> ping", Some(u64::MAX)),
        invoke(Command::Ping, "")
    );
    assert_eq!(classify("<@0> help me", Some(0)), invoke(Command::Help, "me"));
}

#[test]
fn white_space_of_any_kind_separates() {
    assert_eq!(classify("\u{3000}!\u{a0}ping\u{2003}x", None), invoke(Command::Ping, "x"));
    assert_eq!(classify("!bc\tcheck_gas_tank\nabc", None), invoke(Command::CheckGasTank, "abc"));
    assert_eq!(classify("!ping\u{200B}x", None), unknown("ping\u{200B}x"));
}

#[test]
fn mention_of_someone_else_is_normal() {
    assert_eq!(classify("<@43> ping", Some(42)), Classification::NormalMessage);
    assert_eq!(classify("<@042> ping", Some(42)), Classification::NormalMessage);
    assert_eq!(classify("<@4> ping", Some(42)), Classification::NormalMessage);
    assert_eq!(classify("<@42 ping", Some(42)), Classification::NormalMessage);
    assert_eq!(classify("<@42> ping", None), Classification::NormalMessage);
}

#[test]
fn roles_decide_who_may_call() {
    let crew = vec![String::from("Guest"), String::from("The Crew")];
    let guest = vec![String::from("Guest")];
    assert!(is_permitted(Command::CheckGasTank, &crew));
    assert!(!is_permitted(Command::CheckGasTank, &guest));
    assert!(!is_permitted(Command::CheckGasTank, &Vec::new()));
    assert!(!is_permitted(Command::CheckGasTank, &vec![String::from("the crew")]));
    assert!(is_permitted(Command::Ping, &Vec::new()));
    assert!(is_permitted(Command::Help, &guest));
}

#[test]
fn scenario_ping_replies_pong() {
    let mut counter = CommandCounter::new();
    let turn = receive(&mut counter, &shared_config(), None, &message("!ping", &[]));
    assert_eq!(
        turn,
        Turn {
            log: vec![String::from("Got command 'ping' by user 'alice'")],
            stage: Stage::Command {
                command: Command::Ping,
                progress: Progress::Reply(String::from("Pong!")),
            },
        }
    );
    assert_eq!(counts(&counter), (1, 0, 0));
    let turn = reply_sent(Command::Ping, Ok(()));
    assert_eq!(
        turn,
        Turn {
            log: vec![String::from("Processed command 'ping'")],
            stage: Stage::Command { command: Command::Ping, progress: Progress::Finished(Ok(())) },
        }
    );
}

#[test]
fn scenario_check_gas_tank_reports_mocked_balance() {
    let mut counter = CommandCounter::new();
    let config = shared_config();
    let turn =
        receive(&mut counter, &config, None, &message("!bc check_gas_tank abc123", &["The Crew"]));
    assert_eq!(turn.log, vec![String::from("Got command 'check_gas_tank' by user 'alice'")]);
    let (api_key, lookup) = match turn.stage {
        Stage::Command { command: Command::CheckGasTank, progress: Progress::Fetch { api_key, lookup } } => {
            (api_key, lookup)
        },
        other => panic!("expected a lookup, got {:?}", other),
    };
    assert_eq!(api_key, "abc123");
    assert_eq!(lookup.request.headers[1].value, "abc123");
    let mocked = GasTankBalanceResponse {
        response: BiconomyResponse { code: 200, message: String::from("ok"), response_code: 200 },
        dapp_gas_tank_data: DappGasTankData {
            effective_balance_in_wei: 42500000000000000000,
            effective_balance_in_standard_form: 42.5f64.to_string(),
            is_below_threshold: false,
            is_in_grace_period: false,
        },
    };
    let turn = backend_answered(api_key, lookup, Reply::Success(mocked));
    assert!(turn.log.is_empty());
    let reply = match turn.stage {
        Stage::Command { command: Command::CheckGasTank, progress: Progress::Reply(text) } => text,
        other => panic!("expected a reply, got {:?}", other),
    };
    assert!(reply.contains("42.5"));
    assert!(reply.contains("abc123"));
    assert!(reply.contains("false"));
    assert_eq!(reply, "**42.5** is left in Dapp *abc123*. (Grace Period: **false**)");
    assert_eq!(counts(&counter), (0, 1, 0));
}

#[test]
fn normal_text_leaves_the_counter_alone() {
    let mut counter = CommandCounter::new();
    counter.increment("ping");
    let turn = receive(&mut counter, &shared_config(), Some(42), &message("good morning", &[]));
    assert_eq!(
        turn,
        Turn {
            log: vec![String::from("Message is not a command 'good morning'")],
            stage: Stage::NormalMessage,
        }
    );
    assert_eq!(counts(&counter), (1, 0, 0));
}

#[test]
fn unknown_command_leaves_the_counter_alone() {
    let mut counter = CommandCounter::new();
    let turn = receive(&mut counter, &shared_config(), None, &message("!pong now", &[]));
    assert_eq!(
        turn,
        Turn {
            log: vec![String::from("Could not find command named 'pong'")],
            stage: Stage::UnknownCommand,
        }
    );
    assert_eq!(counts(&counter), (0, 0, 0));
    assert_eq!(counter.get("pong"), 0);
}

#[test]
fn each_run_is_counted_once_under_its_name() {
    let mut counter = CommandCounter::new();
    let config = shared_config();
    receive(&mut counter, &config, None, &message("!ping", &[]));
    receive(&mut counter, &config, None, &message("!ping", &[]));
    receive(&mut counter, &config, None, &message("!help", &[]));
    receive(&mut counter, &config, None, &message("!check_gas_tank k", &["The Crew"]));
    receive(&mut counter, &config, None, &message("!ping", &[]));
    assert_eq!(counts(&counter), (3, 1, 1));
}

#[test]
fn failing_run_is_counted_too() {
    let mut counter = CommandCounter::new();
    let turn = receive(
        &mut counter,
        &shared_config(),
        None,
        &message("!check_gas_tank abc\ndef", &["The Crew"]),
    );
    assert_eq!(
        turn,
        Turn {
            log: vec![
                String::from("Got command 'check_gas_tank' by user 'alice'"),
                String::from("Command 'check_gas_tank' returned error Unsendable"),
            ],
            stage: Stage::Command {
                command: Command::CheckGasTank,
                progress: Progress::Finished(Err(CommandError::Unsendable)),
            },
        }
    );
    assert_eq!(counts(&counter), (0, 1, 0));
}

#[test]
fn check_gas_tank_without_key_asks_nobody() {
    let mut counter = CommandCounter::new();
    for content in ["!check_gas_tank", "!bc check_gas_tank", "!biconomy check_gas_tank   "] {
        let turn = receive(&mut counter, &shared_config(), None, &message(content, &["The Crew"]));
        assert_eq!(
            turn.stage,
            Stage::Command {
                command: Command::CheckGasTank,
                progress: Progress::Reply(String::from("API_KEY is not provided")),
            }
        );
    }
    assert_eq!(counts(&counter), (0, 3, 0));
}

#[test]
fn caller_without_the_role_is_refused_and_not_counted() {
    let mut counter = CommandCounter::new();
    let turn = receive(
        &mut counter,
        &shared_config(),
        None,
        &message("!bc check_gas_tank abc123", &["Guest"]),
    );
    assert_eq!(
        turn,
        Turn {
            log: Vec::new(),
            stage: Stage::Refused { error: DispatchError::LackingRole, notice: None },
        }
    );
    assert_eq!(counts(&counter), (0, 0, 0));
}

#[test]
fn help_is_shown_and_ends_well() {
    let mut counter = CommandCounter::new();
    let turn = receive(&mut counter, &shared_config(), None, &message("!help ping", &[]));
    assert_eq!(
        turn.stage,
        Stage::Command { command: Command::Help, progress: Progress::Help(String::from("ping")) }
    );
    assert_eq!(
        help_shown(),
        Turn {
            log: vec![String::from("Processed command 'help'")],
            stage: Stage::Command { command: Command::Help, progress: Progress::Finished(Ok(())) },
        }
    );
}

#[test]
fn undelivered_reply_fails_the_run_and_is_logged() {
    assert_eq!(
        reply_sent(Command::Ping, Err(String::from("no channel"))),
        Turn {
            log: vec![String::from("Command 'ping' returned error Undelivered(no channel)")],
            stage: Stage::Command {
                command: Command::Ping,
                progress: Progress::Finished(Err(CommandError::Undelivered(String::from(
                    "no channel"
                )))),
            },
        }
    );
}

#[test]
fn backend_error_is_told_and_the_run_goes_on() {
    let mut counter = CommandCounter::new();
    let turn = receive(
        &mut counter,
        &shared_config(),
        None,
        &message("!check_gas_tank abc123", &["The Crew"]),
    );
    let (api_key, lookup) = match turn.stage {
        Stage::Command { progress: Progress::Fetch { api_key, lookup }, .. } => (api_key, lookup),
        other => panic!("expected a lookup, got {:?}", other),
    };
    let turn = backend_answered(api_key, lookup, Reply::Undecodable);
    assert!(turn.log.is_empty());
    let (api_key, lookup) = match turn.stage {
        Stage::Command { progress: Progress::Fetch { api_key, lookup }, .. } => (api_key, lookup),
        other => panic!("expected a second lookup, got {:?}", other),
    };
    let error =
        BiconomyResponse { code: 404, message: String::from("no such dapp"), response_code: 404 };
    let turn = backend_answered(api_key, lookup, Reply::Error(error));
    assert_eq!(
        turn,
        Turn {
            log: Vec::new(),
            stage: Stage::Command {
                command: Command::CheckGasTank,
                progress: Progress::Reply(String::from("**404: no such dapp**")),
            },
        }
    );
}

#[test]
fn dead_backend_fails_the_run_and_is_logged() {
    let mut counter = CommandCounter::new();
    let turn = receive(
        &mut counter,
        &shared_config(),
        None,
        &message("!check_gas_tank abc123", &["The Crew"]),
    );
    let (api_key, lookup) = match turn.stage {
        Stage::Command { progress: Progress::Fetch { api_key, lookup }, .. } => (api_key, lookup),
        other => panic!("expected a lookup, got {:?}", other),
    };
    let turn = backend_answered(api_key, lookup, Reply::Unreachable);
    assert_eq!(
        turn.log,
        vec![String::from("Command 'check_gas_tank' returned error Backend(Unreachable)")]
    );
    assert_eq!(counts(&counter), (0, 1, 0));
}

#[test]
fn fresh_counter_has_room() {
    assert!(has_room(&CommandCounter::new()));
}

fn limited(content: &str, secs: u64, is_first_try: bool) -> Inbound {
    let mut inbound = message(content, &["The Crew"]);
    inbound.limit = Some(RateLimitInfo { rate_limit_secs: secs, is_first_try });
    inbound
}

#[test]
fn scenario_rate_limit_twice_in_one_window_tells_once() {
    let mut counter = CommandCounter::new();
    let config = shared_config();
    let first = receive(&mut counter, &config, None, &limited("!ping", 7, true));
    let second = receive(&mut counter, &config, None, &limited("!ping", 7, false));
    assert_eq!(
        first,
        Turn {
            log: Vec::new(),
            stage: Stage::Refused {
                error: DispatchError::Ratelimited(RateLimitInfo {
                    rate_limit_secs: 7,
                    is_first_try: true,
                }),
                notice: Some(String::from("Try this again in 7 seconds.")),
            },
        }
    );
    assert_eq!(
        second,
        Turn {
            log: Vec::new(),
            stage: Stage::Refused {
                error: DispatchError::Ratelimited(RateLimitInfo {
                    rate_limit_secs: 7,
                    is_first_try: false,
                }),
                notice: None,
            },
        }
    );
    assert_eq!(counts(&counter), (0, 0, 0));
}

#[test]
fn rate_limit_does_not_touch_talk_or_unknown_commands() {
    let mut counter = CommandCounter::new();
    let config = shared_config();
    let turn = receive(&mut counter, &config, None, &limited("hello", 7, true));
    assert_eq!(turn.stage, Stage::NormalMessage);
    let turn = receive(&mut counter, &config, None, &limited("!pong", 7, true));
    assert_eq!(turn.stage, Stage::UnknownCommand);
}

#[test]
fn missing_role_is_found_before_the_rate_limit() {
    let mut inbound = limited("!check_gas_tank k", 7, true);
    inbound.roles = Vec::new();
    assert_eq!(find_refusal(Command::CheckGasTank, &inbound), Some(DispatchError::LackingRole));
    assert_eq!(
        find_refusal(Command::Ping, &inbound),
        Some(DispatchError::Ratelimited(RateLimitInfo { rate_limit_secs: 7, is_first_try: true }))
    );
    inbound.limit = None;
    assert_eq!(find_refusal(Command::Ping, &inbound), None);
}
