use discord_bot::counter::CommandCounter;

#[test]
fn new_counter_has_counted_nothing() {
    let counter = CommandCounter::new();
    assert_eq!(counter.get("ping"), 0);
    assert_eq!(counter.get(""), 0);
    assert!(counter.can_count("ping"));
}

#[test]
fn increment_enters_absent_name_at_one() {
    let mut counter = CommandCounter::new();
    counter.increment("ping");
    assert_eq!(counter.get("ping"), 1);
}

#[test]
fn increment_raises_by_one_each_time() {
    let mut counter = CommandCounter::new();
    for expected in 1..=25u64 {
        counter.increment("check_gas_tank");
        assert_eq!(counter.get("check_gas_tank"), expected);
    }
}

#[test]
fn increment_leaves_other_names_alone() {
    let mut counter = CommandCounter::new();
    counter.increment("ping");
    counter.increment("help");
    counter.increment("ping");
    counter.increment("check_gas_tank");
    counter.increment("ping");
    assert_eq!(counter.get("ping"), 3);
    assert_eq!(counter.get("help"), 1);
    assert_eq!(counter.get("check_gas_tank"), 1);
    assert_eq!(counter.get("pin"), 0);
    assert_eq!(counter.get("Ping"), 0);
}
