//! The periodic driver: on a fixed period it runs the periodic path of
//! every registered plugin, one after the other.
//!
//! Plugins are never synced side by side, so that the load on the store
//! stays bounded, and a plugin that fails does not keep the others from
//! their turn.

use crate::dispatch::Failure;
use crate::plugin_config::{PluginConfig, PluginHandle};
use vstd::prelude::*;

verus! {

/// The seconds between two rounds.
pub const SYNC_PERIOD_SECONDS: u64 = 15;

/// Where the driver stands.
#[derive(Debug, PartialEq, Eq)]
pub enum DriverState {
    /// Between two rounds.
    Resting,
    /// The plugin at position `next` of the registry is being synced.
    Syncing { next: usize },
}

/// What the caller hands back to the driver.
pub enum DriverInput<E> {
    /// The period is over.
    Woken,
    /// The plugin that was being synced is through, with this outcome.
    Synced(Result<(), E>),
}

/// What the driver asks for next.
pub enum DriverCommand {
    /// Wait for `seconds` seconds.
    Sleep { seconds: u64 },
    /// Run the periodic path of `plugin` and report its outcome.
    Sync { plugin: PluginHandle },
    /// The input does not belong to the state: do nothing.
    Nothing,
}

/// One answer of the driver: a failure to log, if the plugin that just
/// finished reported one, and what to do next.
pub struct DriverAction<E> {
    pub failure: Option<Failure<E>>,
    pub command: DriverCommand,
}

/// What follows the sync of the plugin at position `done`: the next plugin
/// of the registry, or the rest until the next round.
pub open spec fn after_sync(config: PluginConfig, done: int, post: DriverState, command: DriverCommand) -> bool {
    if done + 1 < config.plugins@.len() {
        &&& post == (DriverState::Syncing { next: (done + 1) as usize })
        &&& command == (DriverCommand::Sync { plugin: config.plugins@[done + 1] })
    } else {
        &&& post == DriverState::Resting
        &&& command == (DriverCommand::Sleep { seconds: SYNC_PERIOD_SECONDS })
    }
}

/// The transition relation of the driver.
pub open spec fn drives<E>(
    config: PluginConfig,
    pre: DriverState,
    input: DriverInput<E>,
    post: DriverState,
    action: DriverAction<E>,
) -> bool {
    match (pre, input) {
        (DriverState::Resting, DriverInput::Woken) => {
            &&& action.failure is None
            &&& after_sync(config, -1, post, action.command)
        },
        (DriverState::Syncing { next }, DriverInput::Synced(outcome)) => {
            if next < config.plugins@.len() {
                &&& match outcome {
                    Ok(_) => action.failure is None,
                    Err(error) => {
                        &&& action.failure matches Some(failure)
                        &&& failure.plugin@ == config.plugins@[next as int].spec_name()
                        &&& failure.error == error
                    },
                }
                &&& after_sync(config, next as int, post, action.command)
            } else {
                &&& action.failure is None
                &&& post == DriverState::Resting
                &&& action.command == (DriverCommand::Sleep { seconds: SYNC_PERIOD_SECONDS })
            }
        },
        _ => post == pre && action.failure is None && action.command == DriverCommand::Nothing,
    }
}

/// A round syncs every plugin once, in registry order, whatever the
/// outcomes are: from the start of a round, after `done` outcomes the driver
/// is syncing the plugin at position `done`, and after the last one it
/// rests for a period.
pub proof fn lemma_round_visits_every_plugin<E>(
    config: PluginConfig,
    outcomes: Seq<Result<(), E>>,
    states: Seq<DriverState>,
    actions: Seq<DriverAction<E>>,
)
    requires
        outcomes.len() == config.plugins@.len(),
        config.plugins@.len() <= usize::MAX,
        states.len() == outcomes.len() + 2,
        actions.len() == outcomes.len() + 1,
        states[0] == DriverState::Resting,
        drives(config, states[0], DriverInput::<E>::Woken, states[1], actions[0]),
        forall|k: int|
            0 <= k < outcomes.len() ==> drives(
                config,
                #[trigger] states[k + 1],
                DriverInput::Synced(outcomes[k]),
                states[k + 2],
                actions[k + 1],
            ),
    ensures
        forall|k: int|
            0 <= k < outcomes.len() ==> {
                &&& #[trigger] states[k + 1] == (DriverState::Syncing { next: k as usize })
                &&& actions[k].command == (DriverCommand::Sync { plugin: config.plugins@[k] })
                &&& (outcomes[k] is Err <==> actions[k + 1].failure is Some)
            },
        states[outcomes.len() as int + 1] == DriverState::Resting,
        actions[outcomes.len() as int].command == (DriverCommand::Sleep {
            seconds: SYNC_PERIOD_SECONDS,
        }),
{
    lemma_round_prefix(config, outcomes, states, actions, outcomes.len() as int);
}

proof fn lemma_round_prefix<E>(
    config: PluginConfig,
    outcomes: Seq<Result<(), E>>,
    states: Seq<DriverState>,
    actions: Seq<DriverAction<E>>,
    upto: int,
)
    requires
        outcomes.len() == config.plugins@.len(),
        config.plugins@.len() <= usize::MAX,
        states.len() == outcomes.len() + 2,
        actions.len() == outcomes.len() + 1,
        states[0] == DriverState::Resting,
        drives(config, states[0], DriverInput::<E>::Woken, states[1], actions[0]),
        forall|k: int|
            0 <= k < outcomes.len() ==> drives(
                config,
                #[trigger] states[k + 1],
                DriverInput::Synced(outcomes[k]),
                states[k + 2],
                actions[k + 1],
            ),
        0 <= upto <= outcomes.len(),
    ensures
        forall|k: int|
            0 <= k < upto ==> {
                &&& #[trigger] states[k + 1] == (DriverState::Syncing { next: k as usize })
                &&& actions[k].command == (DriverCommand::Sync { plugin: config.plugins@[k] })
                &&& (outcomes[k] is Err <==> actions[k + 1].failure is Some)
            },
        after_sync(config, upto - 1, states[upto + 1], actions[upto].command),
    decreases upto,
{
    if upto > 0 {
        lemma_round_prefix(config, outcomes, states, actions, upto - 1);
        let k = upto - 1;
        assert(drives(
            config,
            states[k + 1],
            DriverInput::Synced(outcomes[k]),
            states[k + 2],
            actions[k + 1],
        ));
    }
}

/// Starts the driver: it rests for a period before the first round.
pub fn begin() -> (next: (DriverState, DriverCommand))
    ensures
        next.0 == DriverState::Resting,
        next.1 == (DriverCommand::Sleep { seconds: SYNC_PERIOD_SECONDS }),
{
    (DriverState::Resting, DriverCommand::Sleep { seconds: SYNC_PERIOD_SECONDS })
}

fn proceed(config: &PluginConfig, position: usize) -> (next: (DriverState, DriverCommand))
    requires
        position <= config.plugins@.len(),
    ensures
        after_sync(*config, position as int - 1, next.0, next.1),
{
    if position < config.plugins.len() {
        (
            DriverState::Syncing { next: position },
            DriverCommand::Sync { plugin: config.plugins[position].clone() },
        )
    } else {
        (DriverState::Resting, DriverCommand::Sleep { seconds: SYNC_PERIOD_SECONDS })
    }
}

/// Advances the driver by one input.
pub fn step<E>(config: &PluginConfig, state: DriverState, input: DriverInput<E>) -> (next: (
    DriverState,
    DriverAction<E>,
))
    ensures
        drives(*config, state, input, next.0, next.1),
{
    match (state, input) {
        (DriverState::Resting, DriverInput::Woken) => {
            let (post, command) = proceed(config, 0);
            (post, DriverAction { failure: None, command })
        },
        (DriverState::Syncing { next }, DriverInput::Synced(outcome)) => {
            if next < config.plugins.len() {
                let failure = match outcome {
                    Ok(_) => None,
                    Err(error) => Some(Failure { plugin: config.plugins[next].name(), error }),
                };
                let (post, command) = proceed(config, next + 1);
                (post, DriverAction { failure, command })
            } else {
                (
                    DriverState::Resting,
                    DriverAction {
                        failure: None,
                        command: DriverCommand::Sleep { seconds: SYNC_PERIOD_SECONDS },
                    },
                )
            }
        },
        (state, _) => (state, DriverAction { failure: None, command: DriverCommand::Nothing }),
    }
}

} // verus!
