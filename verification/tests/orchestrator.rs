use geyser_fanin::config::{Auth, Config, ConfigError};
use geyser_fanin::orchestrator::{plan, start, Command, CHANNEL_CAPACITY};
use geyser_fanin::update::Category;
use geyser_fanin::worker::{Phase, Worker};

fn endpoint(k: usize) -> Auth {
    Auth { end_point: format!("https://node{}.example", k), token: format!("token{}", k) }
}

fn config_of(n: usize) -> Config {
    Config { configs: (0..n).map(endpoint).collect() }
}

#[test]
fn channel_holds_a_hundred_values() {
    assert_eq!(CHANNEL_CAPACITY, 100);
}

#[test]
fn plan_without_endpoints_spawns_nothing() {
    let commands = plan(&config_of(0), Category::Transaction);
    assert_eq!(
        commands,
        vec![Command::OpenChannel { capacity: 100 }, Command::ReleaseSender, Command::Aggregate]
    );
}

#[test]
fn plan_spawns_one_worker_per_endpoint_in_order() {
    for n in [1usize, 2, 5, 40] {
        let commands = plan(&config_of(n), Category::Transaction);
        assert_eq!(commands.len(), n + 3);
        assert_eq!(commands[0], Command::OpenChannel { capacity: 100 });
        for k in 0..n {
            assert_eq!(
                commands[k + 1],
                Command::Spawn(Worker::new(k, endpoint(k), Category::Transaction))
            );
        }
        assert_eq!(commands[n + 1], Command::ReleaseSender);
        assert_eq!(commands[n + 2], Command::Aggregate);
        let spawned = commands.iter().filter(|c| matches!(c, Command::Spawn(_))).count();
        assert_eq!(spawned, n);
    }
}

#[test]
fn spawned_workers_are_not_started() {
    let commands = plan(&config_of(2), Category::Slot);
    for command in &commands {
        if let Command::Spawn(worker) = command {
            assert_eq!(worker.phase(), Phase::Created);
            assert_eq!(worker.category(), Category::Slot);
        }
    }
}

#[test]
fn duplicate_endpoints_get_a_worker_each() {
    let config = Config { configs: vec![endpoint(1), endpoint(1)] };
    let commands = plan(&config, Category::Transaction);
    assert_eq!(commands[1], Command::Spawn(Worker::new(0, endpoint(1), Category::Transaction)));
    assert_eq!(commands[2], Command::Spawn(Worker::new(1, endpoint(1), Category::Transaction)));
}

#[test]
fn start_with_a_configuration_is_the_plan() {
    let commands = start(Ok(config_of(3)), Category::Transaction);
    assert_eq!(commands, Ok(plan(&config_of(3), Category::Transaction)));
}

#[test]
fn malformed_configuration_aborts_before_anything_is_spawned() {
    assert_eq!(
        start(Err(ConfigError::InvalidJson), Category::Transaction),
        Err(ConfigError::InvalidJson)
    );
}

#[test]
fn missing_argument_and_unreadable_file_abort_too() {
    assert_eq!(
        start(Err(ConfigError::MissingArgument), Category::Transaction),
        Err(ConfigError::MissingArgument)
    );
    assert_eq!(
        start(Err(ConfigError::UnreadableFile), Category::Slot),
        Err(ConfigError::UnreadableFile)
    );
}

#[test]
fn each_configuration_error_has_its_message() {
    assert_eq!(ConfigError::MissingArgument.message(), "Usage: program <config_path>");
    assert_eq!(ConfigError::UnreadableFile.message(), "Failed to read config file");
    assert_eq!(ConfigError::InvalidJson.message(), "Invalid JSON config format");
}

#[test]
fn configuration_counts_and_clones() {
    let config = config_of(4);
    assert_eq!(config.endpoint_count(), 4);
    assert_eq!(config.clone(), config);
    assert_eq!(config_of(0).endpoint_count(), 0);
    assert_eq!(endpoint(2).clone(), endpoint(2));
}
