//! The orchestrator: from the configuration to the running pipeline.
//!
//! The orchestrator opens one bounded channel, spawns one worker per
//! configured endpoint with a sending handle of its own, releases the
//! handle it holds itself, and then runs the aggregator. From then on the
//! channel closes when the last worker has finished, and not before.

use crate::config::{AuthModel, Config, ConfigError};
use crate::update::Category;
use crate::worker::{Phase, Worker, WorkerModel};
use vstd::prelude::*;

verus! {

/// How many values the shared channel holds.
pub const CHANNEL_CAPACITY: usize = 100;

/// One thing for the program to do while it starts the pipeline.
#[derive(Debug, PartialEq, Eq)]
pub enum Command {
    /// Create the shared channel with this capacity.
    OpenChannel { capacity: usize },
    /// Run this worker as a task of its own, with a clone of the sending
    /// handle; do not wait for it.
    Spawn(Worker),
    /// Release the sending handle that the orchestrator holds.
    ReleaseSender,
    /// Run the aggregator until the channel is closed and empty.
    Aggregate,
}

/// A command as a mathematical value.
pub enum CommandModel {
    OpenChannel { capacity: nat },
    Spawn(WorkerModel),
    ReleaseSender,
    Aggregate,
}

impl View for Command {
    type V = CommandModel;

    open spec fn view(&self) -> CommandModel {
        match self {
            Command::OpenChannel { capacity } => CommandModel::OpenChannel {
                capacity: *capacity as nat,
            },
            Command::Spawn(worker) => CommandModel::Spawn(worker@),
            Command::ReleaseSender => CommandModel::ReleaseSender,
            Command::Aggregate => CommandModel::Aggregate,
        }
    }
}

impl DeepView for Command {
    type V = CommandModel;

    open spec fn deep_view(&self) -> CommandModel {
        self@
    }
}

/// The worker for the endpoint at `position`, as it is spawned.
pub open spec fn fresh_worker(
    config: Seq<AuthModel>,
    category: Category,
    position: int,
) -> WorkerModel {
    WorkerModel {
        id: position as nat,
        conn: config[position],
        category,
        phase: Phase::Created,
    }
}

/// The commands that start the pipeline for `config`: open the channel,
/// spawn the workers in the order of the endpoints, release the own handle,
/// aggregate.
pub open spec fn planned(config: Seq<AuthModel>, category: Category) -> Seq<CommandModel> {
    Seq::new(
        config.len() + 3,
        |k: int|
            if k == 0 {
                CommandModel::OpenChannel { capacity: CHANNEL_CAPACITY as nat }
            } else if k <= config.len() {
                CommandModel::Spawn(fresh_worker(config, category, k - 1))
            } else if k == config.len() + 1 {
                CommandModel::ReleaseSender
            } else {
                CommandModel::Aggregate
            },
    )
}

/// Plans the start of the pipeline for `config`, with workers of
/// `category`.
pub fn plan(config: &Config, category: Category) -> (commands: Vec<Command>)
    ensures
        commands.deep_view() == planned(config@, category),
{
    let mut commands: Vec<Command> = Vec::new();
    commands.push(Command::OpenChannel { capacity: CHANNEL_CAPACITY });
    let mut i: usize = 0;
    while i < config.configs.len()
        invariant
            i <= config.configs.len(),
            commands@.len() == i + 1,
            forall|k: int|
                0 <= k <= i ==> (#[trigger] commands@[k])@ == planned(config@, category)[k],
        decreases config.configs.len() - i,
    {
        let worker = Worker::new(i, config.configs[i].clone(), category);
        commands.push(Command::Spawn(worker));
        i = i + 1;
    }
    commands.push(Command::ReleaseSender);
    commands.push(Command::Aggregate);
    commands
}

/// Starts from what loading the configuration gave.
///
/// Without a configuration nothing is planned: the error comes back as it
/// is, and no channel is opened and no worker spawned. With one, the plan
/// is that of `plan`.
pub fn start(loaded: Result<Config, ConfigError>, category: Category) -> (result: Result<
    Vec<Command>,
    ConfigError,
>)
    ensures
        match loaded {
            Ok(config) => result matches Ok(commands) && commands.deep_view() == planned(
                config@,
                category,
            ),
            Err(error) => result == Err::<Vec<Command>, ConfigError>(error),
        },
{
    match loaded {
        Ok(config) => Ok(plan(&config, category)),
        Err(error) => Err(error),
    }
}

/// For every number of endpoints, the plan spawns exactly one worker per
/// endpoint, each for its own endpoint and not started; it opens the
/// channel before the first of them and releases the orchestrator's handle
/// after the last, before it aggregates.
pub proof fn lemma_one_worker_per_endpoint(config: Seq<AuthModel>, category: Category)
    ensures
        planned(config, category).len() == config.len() + 3,
        planned(config, category)[0] == (CommandModel::OpenChannel {
            capacity: CHANNEL_CAPACITY as nat,
        }),
        forall|k: int|
            0 <= k < planned(config, category).len() ==> ((#[trigger] planned(config, category)[k])
                is Spawn <==> 1 <= k <= config.len()),
        forall|i: int|
            0 <= i < config.len() ==> #[trigger] planned(config, category)[i + 1]
                == CommandModel::Spawn(fresh_worker(config, category, i)),
        planned(config, category)[config.len() as int + 1] == CommandModel::ReleaseSender,
        planned(config, category)[config.len() as int + 2] == CommandModel::Aggregate,
{
}

} // verus!
